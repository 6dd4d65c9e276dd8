//! Presentation-state core of a 2D game shell.
//!
//! The crate decides which on-screen elements exist at any moment, reacts to
//! pointer input with per-pixel alpha-aware hit testing, and dispatches a small
//! instruction set of state-changing actions.  Window creation, asset decoding,
//! rendering and settings-file persistence are left to outside collaborators;
//! they feed plain values in and perform the effect requests that come out.

use vstd::prelude::*;

pub mod actions;
pub mod cameras;
pub mod confirm;
pub mod dev_tools;
pub mod elements;
pub mod game_data;
pub mod interactions;
pub mod main_menu;
pub mod settings;
pub mod reconcile;
pub mod state;
pub mod steps;
pub mod view_settings;
pub mod views;

use crate::actions::{handle_actions, run_queue, Actions};
use crate::cameras::{canvas_reset_model, reset_canvas, CanvasScale};
use crate::elements::ActionModel;
use crate::interactions::{
    handle_interactions, hover_update, qualifies, CursorPosition, ImageStore, SpriteModel,
};
use crate::state::{Effect, ShellModel, ShellState};
use crate::steps::{on_step_change, step_commit_model};

verus! {

/// What one whole frame tick does to the state, given the queue the
/// interaction pass left behind: hover state is resolved first, then the
/// queue is dispatched in order, then a pending step change is committed,
/// and last, if a canvas reset was requested, the visible content is rebuilt.
pub open spec fn tick_model(
    m: ShellModel,
    queue: Seq<ActionModel>,
    images: Map<Seq<char>, SpriteModel>,
    cs: CanvasScale,
    cursor: CursorPosition,
) -> ShellModel {
    let resolved = ShellModel { live: hover_update(m, images, cs, cursor), ..m };
    let dispatched = run_queue(resolved, queue);
    let committed = step_commit_model(dispatched);
    if committed.effects.contains(Effect::CanvasReset) {
        canvas_reset_model(committed)
    } else {
        committed
    }
}

/// One frame tick, in the fixed order of the pipeline: (1) the pointer is
/// resolved and may enqueue one hit element's actions, (2) the whole queue
/// is dispatched, (3) a pending step change is committed, and (4) a
/// requested canvas reset rebuilds the live content last.
///
/// Returns, as ghost data, the actions the interaction pass enqueued: none
/// without a fresh press, and at most one qualifying element's actions with
/// one.
pub fn tick(
    state: &mut ShellState,
    actions: &mut Actions,
    images: &ImageStore,
    cs: CanvasScale,
    cursor: CursorPosition,
    pressed: bool,
) -> (queued: Ghost<Seq<ActionModel>>)
    requires
        old(state).wf(),
        cs.wf(),
        images.wf(),
        cursor.wf(),
    ensures
        final(state).wf(),
        final(actions)@ =~= Seq::<ActionModel>::empty(),
        final(state)@ =~~= tick_model(
            old(state)@,
            old(actions)@ + queued@,
            images@,
            cs,
            cursor,
        ),
        !pressed ==> queued@ =~= Seq::<ActionModel>::empty(),
        pressed ==> queued@ =~= Seq::<ActionModel>::empty() || (exists|id: Seq<char>|
            #[trigger] qualifies(old(state)@, images@, cs, cursor, id) && queued@ == old(
                state,
            )@.live[id].element.spec_actions()),
{
    let ghost q0 = actions@;
    handle_interactions(state, actions, images, cs, cursor, pressed);
    let ghost q1 = actions@;
    let ghost queued = q1.skip(q0.len() as int);
    proof {
        if q1 == q0 {
            assert(queued =~= Seq::<ActionModel>::empty());
        } else {
            let gm = old(state)@;
            let id = choose|id: Seq<char>|
                qualifies(gm, images@, cs, cursor, id) && q1 == q0
                    + gm.live[id].element.spec_actions();
            assert((q0 + gm.live[id].element.spec_actions()).skip(q0.len() as int) =~= gm.live[
                id
            ].element.spec_actions());
            assert(queued == gm.live[id].element.spec_actions());
        }
        assert(q0 + queued =~= q1);
    }
    handle_actions(state, actions);
    on_step_change(state);
    let mut need_reset = false;
    let n = state.effects.len();
    let mut i: usize = 0;
    while i < n
        invariant
            n == state.effects@.len(),
            i <= n,
            need_reset == exists|j: int|
                0 <= j < i && state.effects@[j] == Effect::CanvasReset,
        decreases n - i,
    {
        if matches!(state.effects[i], Effect::CanvasReset) {
            need_reset = true;
        }
        i += 1;
    }
    proof {
        assert(need_reset == state.effects@.contains(Effect::CanvasReset));
    }
    if need_reset {
        reset_canvas(state);
    }
    proof {
        assert(state@ =~~= tick_model(old(state)@, q0 + queued, images@, cs, cursor));
    }
    Ghost(queued)
}

} // verus!

