//! Canvas scale factors.
//!
//! The canvas renders a 2560 x 1440 design space at the configured window
//! resolution; scale factors are kept as exact rationals so that hit testing
//! can invert them without rounding drift.  The canvas-reset pass respawns
//! the visible content after the canvas has been rebuilt.

use vstd::prelude::*;
use crate::reconcile::spawn_ids;
use crate::state::{ShellModel, ShellState};

verus! {

/// The width of the design space the content is laid out in.
pub const BACKGROUND_WIDTH: u32 = 2560;

/// The height of the design space the content is laid out in.
pub const BACKGROUND_HEIGHT: u32 = 1440;

/// A uniform scale factor, as the exact rational `num / den`.
#[derive(Clone, Copy, PartialEq, Eq, Structural, Debug)]
pub struct Scale {
    pub num: u32,
    pub den: u32,
}

impl Scale {
    /// Numerator and denominator are positive and small enough for the hit
    /// test's intermediate products.
    pub open spec fn wf(self) -> bool {
        1 <= self.num <= 0x100_0000 && 1 <= self.den <= 0x100_0000
    }
}

/// `a` is at most `b`, as rationals.
pub open spec fn scale_le(a: Scale, b: Scale) -> bool {
    a.num * b.den <= b.num * a.den
}

/// The fit scale of a canvas: the smaller of width / 2560 and height / 1440.
pub open spec fn fit_scale_spec(width: u32, height: u32) -> Scale {
    if width * 1440 <= height * 2560 {
        Scale { num: width, den: 2560 }
    } else {
        Scale { num: height, den: 1440 }
    }
}

/// The cover scale of a canvas: the larger of the two ratios.
pub open spec fn cover_scale_spec(width: u32, height: u32) -> Scale {
    if width * 1440 <= height * 2560 {
        Scale { num: height, den: 1440 }
    } else {
        Scale { num: width, den: 2560 }
    }
}

/// The pair of scale factors hit testing and spawning read each frame.
#[derive(Clone, Copy, PartialEq, Eq, Structural, Debug)]
pub struct CanvasScale {
    pub fit: Scale,
    pub cover: Scale,
}

impl CanvasScale {
    pub open spec fn wf(self) -> bool {
        self.fit.wf() && self.cover.wf()
    }
}

/// Derives both scale factors from the canvas size; the fit scale never
/// exceeds the cover scale.
pub fn canvas_scales(width: u32, height: u32) -> (r: CanvasScale)
    requires
        1 <= width <= 0x1_0000,
        1 <= height <= 0x1_0000,
    ensures
        r.fit == fit_scale_spec(width, height),
        r.cover == cover_scale_spec(width, height),
        r.wf(),
        scale_le(r.fit, r.cover),
{
    let wide: u64 = (width as u64) * 1440;
    let tall: u64 = (height as u64) * 2560;
    let r = if wide <= tall {
        CanvasScale {
            fit: Scale { num: width, den: 2560 },
            cover: Scale { num: height, den: 1440 },
        }
    } else {
        CanvasScale {
            fit: Scale { num: height, den: 1440 },
            cover: Scale { num: width, den: 2560 },
        }
    };
    proof {
        assert(scale_le(r.fit, r.cover)) by (nonlinear_arith)
            requires
                r.fit == fit_scale_spec(width, height),
                r.cover == cover_scale_spec(width, height),
                width * 1440 <= height * 2560 ==> (r.fit.num == width && r.fit.den == 2560
                    && r.cover.num == height && r.cover.den == 1440),
                width * 1440 > height * 2560 ==> (r.fit.num == height && r.fit.den == 1440
                    && r.cover.num == width && r.cover.den == 2560),
        ;
    }
    r
}

/// The outer scale of a window: the smaller of the two ratios between the
/// window size and the canvas size.
pub open spec fn outer_scale_spec(
    outer_width: u32,
    outer_height: u32,
    canvas_width: u32,
    canvas_height: u32,
) -> Scale {
    if outer_width * canvas_height <= outer_height * canvas_width {
        Scale { num: outer_width, den: canvas_width }
    } else {
        Scale { num: outer_height, den: canvas_height }
    }
}

/// Fits the canvas into the window: derives the uniform scale the canvas
/// sprite is drawn at, the smaller of the two axis ratios.
pub fn fit_canvas(
    outer_width: u32,
    outer_height: u32,
    canvas_width: u32,
    canvas_height: u32,
) -> (s: Scale)
    requires
        1 <= outer_width <= 0x1_0000,
        1 <= outer_height <= 0x1_0000,
        1 <= canvas_width <= 0x1_0000,
        1 <= canvas_height <= 0x1_0000,
    ensures
        s == outer_scale_spec(outer_width, outer_height, canvas_width, canvas_height),
        s.wf(),
{
    proof {
        assert((outer_width as int) * (canvas_height as int) <= 0x1_0000_0000)
            by (nonlinear_arith)
            requires
                0 <= outer_width as int <= 0x1_0000,
                0 <= canvas_height as int <= 0x1_0000,
        ;
        assert((outer_height as int) * (canvas_width as int) <= 0x1_0000_0000)
            by (nonlinear_arith)
            requires
                0 <= outer_height as int <= 0x1_0000,
                0 <= canvas_width as int <= 0x1_0000,
        ;
    }
    let wide: u64 = (outer_width as u64) * (canvas_height as u64);
    let tall: u64 = (outer_height as u64) * (canvas_width as u64);
    if wide <= tall {
        Scale { num: outer_width, den: canvas_width }
    } else {
        Scale { num: outer_height, den: canvas_height }
    }
}

/// What the canvas-reset pass does to the state: everything live is
/// despawned, then the current step's cataloged elements and, above them,
/// the topmost view's are spawned afresh.
pub open spec fn canvas_reset_model(m: ShellModel) -> ShellModel {
    let live1 = if m.steps.contains_key(m.current_step) {
        spawn_ids(Map::empty(), m.steps[m.current_step], m.catalog)
    } else {
        Map::empty()
    };
    let live2 = if m.stack.len() > 0 && m.views.contains_key(m.stack.last()) {
        spawn_ids(live1, m.views[m.stack.last()], m.catalog)
    } else {
        live1
    };
    ShellModel { live: live2, ..m }
}

/// The canvas-reset pass: runs after a resolution or scale-mode change so
/// that every live instance is rebuilt against the new canvas.
pub fn reset_canvas(state: &mut ShellState)
    requires
        old(state).wf(),
    ensures
        final(state)@ =~~= canvas_reset_model(old(state)@),
        final(state).wf(),
{
    state.live.clear();
    match state.step_map.get(state.current_step.0.as_str()) {
        Some(step) => {
            crate::reconcile::spawn_set(&mut state.live, &step.0, &state.catalog);
        },
        None => {},
    }
    match state.view_stack.top() {
        Some(top) => {
            match state.view_map.get(top.as_str()) {
                Some(vd) => {
                    crate::reconcile::spawn_set(&mut state.live, &vd.0, &state.catalog);
                },
                None => {},
            }
        },
        None => {},
    }
    proof {
        assert(state@ =~~= canvas_reset_model(old(state)@));
    }
}

} // verus!
