//! The interaction resolver: once per frame it maps the pointer through the
//! active coordinate transforms, performs alpha-tested hit detection against
//! the live interactive instances, maintains hover state, and on a fresh
//! primary-button press enqueues one hit element's attached actions.

use vstd::prelude::*;
use vstd::hash_map::StringHashMap;
use crate::actions::Actions;
use crate::cameras::{CanvasScale, Scale};
use crate::elements::{actions_model, ActionModel, Element, ElementModel};
use crate::reconcile::LiveModel;
use crate::settings::{BackgroundImage, GameSettings};
use crate::state::{ShellModel, ShellState};
use crate::views::{ViewMap, ViewStack};

verus! {

/// The pointer position, in canvas coordinates.
#[derive(Clone, Copy, PartialEq, Eq, Structural, Debug)]
pub struct CursorPosition {
    pub x: i64,
    pub y: i64,
}

impl CursorPosition {
    /// Small enough for the hit test's intermediate products.
    pub open spec fn wf(self) -> bool {
        -0x1_0000_0000 <= self.x <= 0x1_0000_0000 && -0x1_0000_0000 <= self.y <= 0x1_0000_0000
    }
}

/// One axis of the pointer mapped from window space into canvas space: the
/// coordinate divided by the outer scale, truncated toward zero.
pub open spec fn cursor_axis_spec(p: int, s: Scale) -> int {
    if p >= 0 {
        (p * s.den) / (s.num as int)
    } else {
        -(((-p) * s.den) / (s.num as int))
    }
}

/// A coordinate clamped into the range the hit test is specified for.
pub open spec fn clamp_cursor(v: int) -> int {
    if v < -0x1_0000_0000 {
        -0x1_0000_0000
    } else if v > 0x1_0000_0000 {
        0x1_0000_0000
    } else {
        v
    }
}

/// Maps the pointer from window coordinates into canvas coordinates by
/// inverting the outer scale, clamping into the hit test's range.
pub fn update_cursor_position(x: i64, y: i64, outer: Scale) -> (c: CursorPosition)
    requires
        outer.wf(),
        -0x1_0000_0000 <= x <= 0x1_0000_0000,
        -0x1_0000_0000 <= y <= 0x1_0000_0000,
    ensures
        c.x == clamp_cursor(cursor_axis_spec(x as int, outer)),
        c.y == clamp_cursor(cursor_axis_spec(y as int, outer)),
        c.wf(),
{
    CursorPosition { x: cursor_axis(x, outer), y: cursor_axis(y, outer) }
}

/// Maps one pointer axis through the inverse of the outer scale.
fn cursor_axis(p: i64, s: Scale) -> (r: i64)
    requires
        s.wf(),
        -0x1_0000_0000 <= p <= 0x1_0000_0000,
    ensures
        r == clamp_cursor(cursor_axis_spec(p as int, s)),
{
    let mag: u128 = if p >= 0 {
        p as u128
    } else {
        (-p) as u128
    };
    proof {
        assert(mag * (s.den as int) <= 0x1_0000_0000 * 0x100_0000) by (nonlinear_arith)
            requires
                0 <= mag as int <= 0x1_0000_0000,
                1 <= s.den as int <= 0x100_0000,
        ;
    }
    let scaled: u128 = (mag * (s.den as u128)) / (s.num as u128);
    let bounded: u128 = if scaled > 0x1_0000_0000 {
        0x1_0000_0000
    } else {
        scaled
    };
    proof {
        assert((mag * (s.den as int)) / (s.num as int) >= 0) by (nonlinear_arith)
            requires
                mag as int >= 0,
                s.den as int >= 1,
                s.num as int >= 1,
        ;
    }
    if p >= 0 {
        bounded as i64
    } else {
        -(bounded as i64)
    }
}

/// One decoded sprite as the rendering collaborator hands it in: pixel
/// dimensions and RGBA bytes in row-major order.
pub struct SpriteImage {
    pub width: u32,
    pub height: u32,
    pub data: Vec<u8>,
}

/// Mathematical model of a sprite.
#[verifier::ext_equal]
pub ghost struct SpriteModel {
    pub width: u32,
    pub height: u32,
    pub data: Seq<u8>,
}

impl View for SpriteImage {
    type V = SpriteModel;

    open spec fn view(&self) -> SpriteModel {
        SpriteModel { width: self.width, height: self.height, data: self.data@ }
    }
}

/// Sprite dimensions small enough for the hit test's products.
pub open spec fn sprite_wf(s: SpriteModel) -> bool {
    s.width <= 0x1_0000 && s.height <= 0x1_0000
}

/// The sprites available for sampling, by sprite path.
pub struct ImageStore(pub StringHashMap<SpriteImage>);

impl View for ImageStore {
    type V = Map<Seq<char>, SpriteModel>;

    open spec fn view(&self) -> Map<Seq<char>, SpriteModel> {
        self.0@.map_values(|s: SpriteImage| s@)
    }
}

impl ImageStore {
    /// Every held sprite has workable dimensions.
    pub open spec fn wf(&self) -> bool {
        forall|k: Seq<char>| #[trigger] self@.contains_key(k) ==> sprite_wf(self@[k])
    }

    /// An empty store.
    pub fn new() -> (s: ImageStore)
        ensures
            s@ =~= Map::<Seq<char>, SpriteModel>::empty(),
            s.wf(),
    {
        let s = ImageStore(StringHashMap::new());
        proof {
            assert(s@ =~= Map::<Seq<char>, SpriteModel>::empty());
        }
        s
    }

    /// Makes a decoded sprite available under its path.
    pub fn insert(&mut self, path: String, image: SpriteImage)
        requires
            old(self).wf(),
            sprite_wf(image@),
        ensures
            final(self)@ =~= old(self)@.insert(path@, image@),
            final(self).wf(),
    {
        let ghost gpath = path@;
        let ghost gimg = image@;
        self.0.insert(path, image);
        proof {
            assert(self@ =~= old(self)@.insert(gpath, gimg));
        }
    }

    /// Looks a sprite up by path.
    pub fn get(&self, path: &str) -> (r: Option<&SpriteImage>)
        ensures
            (match r {
                Some(s) => self@.contains_key(path@) && s@ == self@[path@],
                None => !self@.contains_key(path@),
            }),
    {
        self.0.get(path)
    }

    /// Whether a sprite is available under a path.
    pub fn contains(&self, path: &str) -> (r: bool)
        ensures
            r == self@.contains_key(path@),
    {
        self.0.contains_key(path)
    }
}

/// The alpha channel sampled at one source pixel; a coordinate outside the
/// sprite, or beyond its data, samples nothing and counts as a miss.
pub open spec fn pixel_alpha_spec(img: SpriteModel, x: int, y: int) -> Option<u8> {
    if x < 0 || y < 0 || x >= img.width || y >= img.height {
        None
    } else if (y * img.width + x) * 4 + 3 >= img.data.len() {
        None
    } else {
        Some(img.data[(y * img.width + x) * 4 + 3])
    }
}

/// Samples the alpha channel of a sprite at one pixel.
pub fn get_pixel_alpha(image: &SpriteImage, x: u32, y: u32) -> (r: Option<u8>)
    requires
        sprite_wf(image@),
    ensures
        r == pixel_alpha_spec(image@, x as int, y as int),
{
    if x >= image.width || y >= image.height {
        return None;
    }
    proof {
        assert((y as int) * (image.width as int) <= 0x1_0000_0000) by (nonlinear_arith)
            requires
                0 <= y as int <= 0x1_0000,
                0 <= image.width as int <= 0x1_0000,
        ;
    }
    let idx: u64 = ((y as u64) * (image.width as u64) + (x as u64)) * 4 + 3;
    if idx >= image.data.len() as u64 {
        return None;
    }
    Some(image.data[idx as usize])
}

/// A sampled alpha counts as solid when it exceeds one tenth of full
/// opacity; at or below that, invisible padding must not be clickable.
pub open spec fn alpha_solid(a: u8) -> bool {
    10 * a > 255
}

/// One axis of the bounds test and pixel mapping: whether the pointer
/// coordinate lies within the extent `dim * num / den` centered at the
/// rational `cn / cd`, and if so which source pixel column or row it falls
/// on.  `invert` flips the axis: image rows grow downward while canvas
/// coordinates grow upward.  A pointer exactly on the far edge maps to the
/// pixel one past the end and samples nothing.
pub open spec fn axis_pixel_spec(
    dim: int,
    num: int,
    den: int,
    cn: int,
    cd: int,
    cursor: int,
    invert: bool,
) -> Option<int> {
    let d = 2 * den * (cursor * cd - cn);
    let limit = dim * num * cd;
    if d < -limit || d > limit {
        None
    } else {
        let p = (if invert {
            limit - d
        } else {
            limit + d
        }) / (2 * num * cd);
        if p < dim {
            Some(p)
        } else {
            None
        }
    }
}

/// Computes one axis of the hit test.
fn axis_pixel(dim: u32, num: u32, den: u32, cn: i64, cd: u32, cursor: i64, invert: bool) -> (r:
    Option<u32>)
    requires
        dim <= 0x1_0000,
        1 <= num <= 0x100_0000,
        1 <= den <= 0x100_0000,
        1 <= cd <= 0x100_0000,
        -0x100_0000_0000_0000 <= cn <= 0x100_0000_0000_0000,
        -0x1_0000_0000 <= cursor <= 0x1_0000_0000,
    ensures
        (match r {
            Some(p) => axis_pixel_spec(
                dim as int,
                num as int,
                den as int,
                cn as int,
                cd as int,
                cursor as int,
                invert,
            ) == Some(p as int),
            None => (axis_pixel_spec(
                dim as int,
                num as int,
                den as int,
                cn as int,
                cd as int,
                cursor as int,
                invert,
            ) is None),
        }),
{
    proof {
        assert(-0x100_0000_0000_0000 <= (cursor as int) * (cd as int) <= 0x100_0000_0000_0000)
            by (nonlinear_arith)
            requires
                -0x1_0000_0000 <= cursor as int <= 0x1_0000_0000,
                1 <= cd as int <= 0x100_0000,
        ;
    }
    let cc: i128 = (cursor as i128) * (cd as i128) - (cn as i128);
    proof {
        assert(-0x400_0000_0000_0000_0000_0000 <= (den as int) * (cc as int)
            <= 0x400_0000_0000_0000_0000_0000) by (nonlinear_arith)
            requires
                1 <= den as int <= 0x100_0000,
                -0x200_0000_0000_0000 <= cc as int <= 0x200_0000_0000_0000,
        ;
    }
    let dc: i128 = (den as i128) * cc;
    let d: i128 = 2 * dc;
    proof {
        assert(0 <= (dim as int) * (num as int) <= 0x100_0000_0000) by (nonlinear_arith)
            requires
                0 <= dim as int <= 0x1_0000,
                1 <= num as int <= 0x100_0000,
        ;
    }
    let dn: i128 = (dim as i128) * (num as i128);
    proof {
        assert(0 <= (dn as int) * (cd as int) <= 0x1_0000_0000_0000_0000_0000)
            by (nonlinear_arith)
            requires
                0 <= dn as int <= 0x100_0000_0000,
                1 <= cd as int <= 0x100_0000,
        ;
    }
    let limit: i128 = dn * (cd as i128);
    proof {
        assert(d as int == 2 * (den as int) * ((cursor as int) * (cd as int) - (cn as int)))
            by (nonlinear_arith)
            requires
                d as int == 2 * ((den as int) * (cc as int)),
                cc as int == (cursor as int) * (cd as int) - (cn as int),
        ;
    }
    if d < -limit || d > limit {
        return None;
    }
    let numerator: i128 = if invert {
        limit - d
    } else {
        limit + d
    };
    proof {
        assert(0 < (num as int) * (cd as int) <= 0x1_0000_0000_0000) by (nonlinear_arith)
            requires
                1 <= num as int <= 0x100_0000,
                1 <= cd as int <= 0x100_0000,
        ;
    }
    let divisor: i128 = 2 * ((num as i128) * (cd as i128));
    proof {
        assert(divisor as int == 2 * (num as int) * (cd as int)) by (nonlinear_arith)
            requires
                divisor as int == 2 * ((num as int) * (cd as int)),
        ;
        assert(numerator >= 0);
        assert(divisor > 0);
    }
    let p: u128 = (numerator as u128) / (divisor as u128);
    if p < dim as u128 {
        Some(p as u32)
    } else {
        None
    }
}

/// The scale an element follows: under cover mode a sprite that has not
/// opted out follows the cover scale, everything else the fit scale.
pub open spec fn effective_scale(
    e: ElementModel,
    settings: GameSettings,
    cs: CanvasScale,
) -> Scale {
    match e {
        ElementModel::Image(i) => if settings.window.background_image == BackgroundImage::Cover
            && !i.only_fit_scale {
            cs.cover
        } else {
            cs.fit
        },
        _ => cs.fit,
    }
}

/// The center of an element's sprite in canvas coordinates, as a rational
/// pair over a common denominator: composite buttons are laid out in design
/// space and scaled by the fit factor, plain sprites sit at their position
/// directly.
pub open spec fn sprite_center(e: ElementModel, cs: CanvasScale) -> (int, int, int) {
    match e {
        ElementModel::TextImage(t) => (
            t.position.x * cs.fit.num,
            t.position.y * cs.fit.num,
            cs.fit.den as int,
        ),
        ElementModel::Image(i) => (i.position.x as int, i.position.y as int, 1),
        ElementModel::Text(t) => (t.position.x as int, t.position.y as int, 1),
    }
}

/// The alpha sampled under the pointer for one element: present only when
/// the pointer lies inside the element's scaled bounds on a real source
/// pixel of its sprite.
pub open spec fn sampled_alpha(
    e: ElementModel,
    settings: GameSettings,
    cs: CanvasScale,
    images: Map<Seq<char>, SpriteModel>,
    cursor: CursorPosition,
) -> Option<u8> {
    if (e is Text) || !images.contains_key(e.sprite_path()) {
        None
    } else {
        let img = images[e.sprite_path()];
        let s = effective_scale(e, settings, cs);
        let c = sprite_center(e, cs);
        match axis_pixel_spec(
            img.width as int,
            s.num as int,
            s.den as int,
            c.0,
            c.2,
            cursor.x as int,
            false,
        ) {
            Some(px) => match axis_pixel_spec(
                img.height as int,
                s.num as int,
                s.den as int,
                c.1,
                c.2,
                cursor.y as int,
                true,
            ) {
                Some(py) => pixel_alpha_spec(img, px, py),
                None => None,
            },
            None => None,
        }
    }
}

/// A pointer hit on one element: a sampled alpha above the threshold.
pub open spec fn hit_spec(
    e: ElementModel,
    settings: GameSettings,
    cs: CanvasScale,
    images: Map<Seq<char>, SpriteModel>,
    cursor: CursorPosition,
) -> bool {
    match sampled_alpha(e, settings, cs, images, cursor) {
        Some(a) => alpha_solid(a),
        None => false,
    }
}

/// Tests the pointer against one element's sprite.
pub fn element_hit(
    e: &Element,
    settings: &GameSettings,
    cs: CanvasScale,
    images: &ImageStore,
    cursor: CursorPosition,
) -> (r: bool)
    requires
        cs.wf(),
        images.wf(),
        cursor.wf(),
    ensures
        r == hit_spec(e@, *settings, cs, images@, cursor),
{
    let (path, cn_x, cn_y, cd, scale) = match e {
        Element::Text(_) => {
            return false;
        },
        Element::Image(i) => {
            let s = if matches!(settings.window.background_image, BackgroundImage::Cover)
                && !i.only_fit_scale {
                cs.cover
            } else {
                cs.fit
            };
            (&i.path, i.position.x as i64, i.position.y as i64, 1u32, s)
        },
        Element::TextImage(t) => {
            proof {
                assert(-0x80_0000_0000_0000 <= (t.position.x as int) * (cs.fit.num as int)
                    <= 0x80_0000_0000_0000) by (nonlinear_arith)
                    requires
                        -0x8000_0000 <= t.position.x as int <= 0x8000_0000,
                        0 <= cs.fit.num as int <= 0x100_0000,
                ;
                assert(-0x80_0000_0000_0000 <= (t.position.y as int) * (cs.fit.num as int)
                    <= 0x80_0000_0000_0000) by (nonlinear_arith)
                    requires
                        -0x8000_0000 <= t.position.y as int <= 0x8000_0000,
                        0 <= cs.fit.num as int <= 0x100_0000,
                ;
            }
            (
                &t.path,
                (t.position.x as i64) * (cs.fit.num as i64),
                (t.position.y as i64) * (cs.fit.num as i64),
                cs.fit.den,
                cs.fit,
            )
        },
    };
    let img = match images.get(path.as_str()) {
        Some(img) => img,
        None => {
            return false;
        },
    };
    let px = axis_pixel(img.width, scale.num, scale.den, cn_x, cd, cursor.x, false);
    let py = axis_pixel(img.height, scale.num, scale.den, cn_y, cd, cursor.y, true);
    match (px, py) {
        (Some(px), Some(py)) => match get_pixel_alpha(img, px, py) {
            Some(a) => 10 * (a as u32) > 255,
            None => false,
        },
        _ => false,
    }
}

/// Whether an element belongs to the layer that may receive clicks: the
/// topmost view when any view is stacked, the step otherwise.
pub open spec fn active_layer(
    stack: Seq<Seq<char>>,
    views: Map<Seq<char>, Set<Seq<char>>>,
    id: Seq<char>,
) -> bool {
    if stack.len() == 0 {
        true
    } else if views.contains_key(stack.last()) {
        views[stack.last()].contains(id)
    } else {
        false
    }
}

/// Tests whether an element may receive clicks through the active layer.
fn active_in_layer(stack: &ViewStack, views: &ViewMap, id: &String) -> (r: bool)
    ensures
        r == active_layer(stack@, views@, id@),
{
    match stack.top() {
        None => true,
        Some(top) => match views.get(top.as_str()) {
            Some(vd) => vd.0.contains(id),
            None => false,
        },
    }
}

/// A live element qualifies for a click: it is live and interactive, the
/// pointer hits a solid pixel of its sprite, and it belongs to the active
/// layer.
pub open spec fn qualifies(
    m: ShellModel,
    images: Map<Seq<char>, SpriteModel>,
    cs: CanvasScale,
    cursor: CursorPosition,
    id: Seq<char>,
) -> bool {
    &&& m.live.contains_key(id)
    &&& m.live[id].element.is_interactive()
    &&& hit_spec(m.live[id].element, m.settings, cs, images, cursor)
    &&& active_layer(m.stack, m.views, id)
}

/// Hover state is recomputed for an instance the resolver can test: an
/// interactive one whose sprite is available.
pub open spec fn hover_applies(li: LiveModel, images: Map<Seq<char>, SpriteModel>) -> bool {
    li.element.is_interactive() && images.contains_key(li.element.sprite_path())
}

/// The live map after one resolver pass: every testable instance's hover
/// flag reflects whether it qualifies under the pointer, everything else is
/// untouched.
pub open spec fn hover_update(
    m: ShellModel,
    images: Map<Seq<char>, SpriteModel>,
    cs: CanvasScale,
    cursor: CursorPosition,
) -> Map<Seq<char>, LiveModel> {
    Map::new(
        |k: Seq<char>| m.live.contains_key(k),
        |k: Seq<char>|
            if hover_applies(m.live[k], images) {
                LiveModel {
                    element: m.live[k].element,
                    hovered: qualifies(m, images, cs, cursor, k),
                }
            } else {
                m.live[k]
            },
    )
}

/// The live map after the resolver has run through the first `n` live ids.
pub open spec fn hover_prefix(
    m: ShellModel,
    images: Map<Seq<char>, SpriteModel>,
    cs: CanvasScale,
    cursor: CursorPosition,
    ids: Seq<String>,
    n: int,
) -> Map<Seq<char>, LiveModel> {
    Map::new(
        |k: Seq<char>| m.live.contains_key(k),
        |k: Seq<char>|
            if (exists|j: int| 0 <= j < n && ids[j]@ == k) && hover_applies(
                m.live[k],
                images,
            ) {
                LiveModel {
                    element: m.live[k].element,
                    hovered: qualifies(m, images, cs, cursor, k),
                }
            } else {
                m.live[k]
            },
    )
}

/// A hit test at a pixel whose sampled alpha is at most one tenth of full
/// opacity is a miss: the element does not qualify, so its actions are never
/// enqueued, even when the pointer is inside the bounding rectangle.
pub proof fn lemma_translucent_pixel_never_fires(
    m: ShellModel,
    images: Map<Seq<char>, SpriteModel>,
    cs: CanvasScale,
    cursor: CursorPosition,
    id: Seq<char>,
    a: u8,
)
    requires
        m.live.contains_key(id),
        sampled_alpha(m.live[id].element, m.settings, cs, images, cursor) == Some(a),
        10 * a <= 255,
    ensures
        !qualifies(m, images, cs, cursor, id),
{
}

/// The once-per-frame interaction pass.
///
/// Recomputes every testable live instance's hover flag.  On a fresh
/// primary-button press, enqueues the attached actions of the first live
/// instance, in the table's iteration order, that qualifies under the
/// pointer — exactly one element's actions per press, or none when nothing
/// qualifies.  Without a press the queue is left untouched.
pub fn handle_interactions(
    state: &mut ShellState,
    actions: &mut Actions,
    images: &ImageStore,
    cs: CanvasScale,
    cursor: CursorPosition,
    pressed: bool,
)
    requires
        old(state).wf(),
        cs.wf(),
        images.wf(),
        cursor.wf(),
    ensures
        final(state).wf(),
        final(state)@ =~~= (ShellModel {
            live: hover_update(old(state)@, images@, cs, cursor),
            ..old(state)@
        }),
        !pressed ==> final(actions)@ == old(actions)@,
        pressed ==> (final(actions)@ == old(actions)@ && (forall|id: Seq<char>|
            !qualifies(old(state)@, images@, cs, cursor, id))) || (exists|id: Seq<char>|
            #[trigger] qualifies(old(state)@, images@, cs, cursor, id) && final(actions)@ == old(
                actions,
            )@ + old(state)@.live[id].element.spec_actions()),
{
    let ghost m0 = old(state)@;
    let ghost ids0 = old(state).live.ids_seq();
    proof {
        old(state).live.lemma_ids_cover();
    }
    let n = state.live.len();
    let mut i: usize = 0;
    let mut fired = false;
    while i < n
        invariant
            old(state).wf(),
            state.wf(),
            cs.wf(),
            images.wf(),
            cursor.wf(),
            m0 == old(state)@,
            ids0 == old(state).live.ids_seq(),
            n == ids0.len(),
            i <= n,
            state.live.ids_seq() == ids0,
            state@ =~~= (ShellModel {
                live: hover_prefix(m0, images@, cs, cursor, ids0, i as int),
                ..m0
            }),
            !pressed ==> !fired,
            !fired ==> actions@ == old(actions)@,
            (!fired && pressed) ==> (forall|j: int|
                0 <= j < i ==> !qualifies(m0, images@, cs, cursor, ids0[j]@)),
            fired ==> pressed && (exists|id: Seq<char>|
                #[trigger] qualifies(m0, images@, cs, cursor, id) && actions@ == old(actions)@
                    + m0.live[id].element.spec_actions()),
        decreases n - i,
    {
        let id = state.live.id_at(i).clone();
        proof {
            assert(id@ == ids0[i as int]@);
            old(state).live.lemma_ids_cover();
            assert(crate::steps::ids_set(ids0).contains(id@));
            assert(m0.live.contains_key(id@));
            assert(state@.live.contains_key(id@));
            assert(state@.live[id@].element == m0.live[id@].element);
        }
        let mut do_hover = false;
        let mut qual = false;
        let mut to_enqueue: Option<Vec<crate::elements::ElementAction>> = None;
        match state.live.get(id.as_str()) {
            Some(li) => {
                proof {
                    assert(li@ == state@.live[id@]);
                }
                let interactive = match &li.element {
                    Element::Image(im) => im.actions.len() > 0,
                    Element::TextImage(t) => t.actions.len() > 0,
                    Element::Text(_) => false,
                };
                proof {
                    assert(interactive == m0.live[id@].element.is_interactive());
                }
                let has_image = match &li.element {
                    Element::Image(im) => images.contains(im.path.as_str()),
                    Element::TextImage(t) => images.contains(t.path.as_str()),
                    Element::Text(_) => false,
                };
                proof {
                    assert(interactive ==> has_image == images@.contains_key(
                        m0.live[id@].element.sprite_path(),
                    ));
                }
                if interactive && has_image {
                    do_hover = true;
                    let hit = element_hit(&li.element, &state.settings, cs, images, cursor);
                    if hit {
                        let allowed = active_in_layer(&state.view_stack, &state.view_map, &id);
                        qual = allowed;
                        if allowed && pressed && !fired {
                            let acts = match &li.element {
                                Element::Image(im) => crate::elements::clone_actions(&im.actions),
                                Element::TextImage(t) => crate::elements::clone_actions(
                                    &t.actions,
                                ),
                                Element::Text(_) => Vec::new(),
                            };
                            to_enqueue = Some(acts);
                        }
                    }
                }
                proof {
                    assert(do_hover == hover_applies(m0.live[id@], images@));
                    assert(do_hover ==> qual == qualifies(m0, images@, cs, cursor, id@));
                    assert(!do_hover ==> !qualifies(m0, images@, cs, cursor, id@));
                }
            },
            None => {
                proof {
                    assert(false);
                }
            },
        }
        if do_hover {
            state.live.set_hover(&id, qual);
        }
        proof {
            assert(state@.live =~~= hover_prefix(m0, images@, cs, cursor, ids0, i as int + 1));
        }
        match to_enqueue {
            Some(mut acts) => {
                proof {
                    assert(actions_model(acts@) == m0.live[id@].element.spec_actions());
                }
                actions.0.append(&mut acts);
                fired = true;
                proof {
                    assert(actions@ =~= old(actions)@ + m0.live[id@].element.spec_actions());
                    assert(qualifies(m0, images@, cs, cursor, id@));
                }
            },
            None => {},
        }
        i += 1;
    }
    proof {
        assert(state@.live =~~= hover_update(m0, images@, cs, cursor));
        if pressed && !fired {
            assert forall|id: Seq<char>| !qualifies(m0, images@, cs, cursor, id) by {
                if m0.live.contains_key(id) {
                    old(state).live.lemma_ids_cover();
                    assert(crate::steps::ids_set(ids0).contains(id));
                }
            }
        }
    }
}

} // verus!
