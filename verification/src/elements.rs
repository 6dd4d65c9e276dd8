//! Element descriptors, the catalog that maps element ids to them, and the
//! actions an interactive element can carry.

use vstd::prelude::*;
use vstd::hash_map::StringHashMap;

verus! {

/// Operations on the persisted settings record.
#[derive(Clone, Copy, PartialEq, Eq, Structural, Debug)]
pub enum SettingOp {
    SetResolution(u32, u32),
    ToggleWindowMode,
    ToggleBackgroundImage,
    ToggleCustomCursor,
}

/// Integer position on the design canvas; `z` orders overlapping layers.
#[derive(Clone, Copy, PartialEq, Eq, Structural, Debug)]
pub struct Position {
    pub x: i32,
    pub y: i32,
    pub z: i32,
}

/// A color in 8-bit RGBA.
#[derive(Clone, Copy, PartialEq, Eq, Structural, Debug)]
pub struct Rgba {
    pub r: u8,
    pub g: u8,
    pub b: u8,
    pub a: u8,
}

impl Rgba {
    pub open spec fn white_spec() -> Rgba {
        Rgba { r: 255, g: 255, b: 255, a: 255 }
    }

    /// Opaque white, the neutral tint.
    pub fn white() -> (c: Rgba)
        ensures
            c == Rgba::white_spec(),
    {
        Rgba { r: 255, g: 255, b: 255, a: 255 }
    }
}

/// Where a text element is anchored relative to its position.
#[derive(Clone, Copy, PartialEq, Eq, Structural, Debug)]
pub enum Anchor {
    Center,
    CenterLeft,
    TopLeft,
    BottomRight,
}

/// Operations on a single named game-data counter.
#[derive(Clone, Copy, PartialEq, Eq, Structural, Debug)]
pub enum GameDataOp {
    Increment(i32),
    Decrement(i32),
    SetValue(i32),
}

/// Operations on the stack of overlay views.
#[derive(Clone, PartialEq, Eq, Debug)]
pub enum ViewStackOp {
    Push(String),
    Pop,
}

/// A confirmable request whose confirmation view must be shown before the
/// request itself runs.
#[derive(Clone, Copy, PartialEq, Eq, Structural, Debug)]
pub enum ConfirmAction {
    ExitApp,
}

/// A unit of state-mutation intent, queued by interaction and applied by the
/// dispatcher.
#[derive(Clone, PartialEq, Eq, Debug)]
pub enum ElementAction {
    ChangeStep(String),
    ChangeGameData(String, GameDataOp),
    ChangeViewStack(ViewStackOp),
    ChangeSetting(SettingOp),
    Confirm(ConfirmAction),
    ExitApp,
}

/// Mathematical model of a `ViewStackOp`: strings become character sequences.
#[verifier::ext_equal]
pub ghost enum ViewStackOpModel {
    Push(Seq<char>),
    Pop,
}

impl View for ViewStackOp {
    type V = ViewStackOpModel;

    open spec fn view(&self) -> ViewStackOpModel {
        match self {
            ViewStackOp::Push(v) => ViewStackOpModel::Push(v@),
            ViewStackOp::Pop => ViewStackOpModel::Pop,
        }
    }
}

/// Mathematical model of an `ElementAction`.
#[verifier::ext_equal]
pub ghost enum ActionModel {
    ChangeStep(Seq<char>),
    ChangeGameData(Seq<char>, GameDataOp),
    ChangeViewStack(ViewStackOpModel),
    ChangeSetting(SettingOp),
    Confirm(ConfirmAction),
    ExitApp,
}

impl View for ElementAction {
    type V = ActionModel;

    open spec fn view(&self) -> ActionModel {
        match self {
            ElementAction::ChangeStep(s) => ActionModel::ChangeStep(s@),
            ElementAction::ChangeGameData(f, op) => ActionModel::ChangeGameData(f@, *op),
            ElementAction::ChangeViewStack(op) => ActionModel::ChangeViewStack(op@),
            ElementAction::ChangeSetting(op) => ActionModel::ChangeSetting(*op),
            ElementAction::Confirm(c) => ActionModel::Confirm(*c),
            ElementAction::ExitApp => ActionModel::ExitApp,
        }
    }
}

/// The model of a list of attached actions, in declaration order.
pub open spec fn actions_model(s: Seq<ElementAction>) -> Seq<ActionModel> {
    s.map_values(|a: ElementAction| a@)
}

/// A pure text label.
#[derive(Clone, Debug)]
pub struct TextElement {
    pub content: String,
    pub position: Position,
    pub color: Rgba,
    pub font_size: u32,
    pub anchor: Anchor,
}

/// A sprite, optionally interactive through its attached actions.
/// `only_fit_scale` opts the sprite out of cover-scaling when the background
/// is in cover mode.
#[derive(Clone, Debug)]
pub struct ImageElement {
    pub path: String,
    pub position: Position,
    pub actions: Vec<ElementAction>,
    pub color: Rgba,
    pub only_fit_scale: bool,
}

/// A sprite with a child text label; the composite button element.
#[derive(Clone, Debug)]
pub struct TextImageElement {
    pub content: String,
    pub path: String,
    pub position: Position,
    pub font_size: u32,
    pub image_color: Rgba,
    pub text_color: Rgba,
    pub actions: Vec<ElementAction>,
}

/// An element descriptor: everything the shell knows about one content unit.
#[derive(Clone, Debug)]
pub enum Element {
    Text(TextElement),
    Image(ImageElement),
    TextImage(TextImageElement),
}

impl TextElement {
    /// An empty white centered label of the base font size.
    pub open spec fn default_spec() -> TextModel {
        TextModel {
            content: Seq::empty(),
            position: Position { x: 0, y: 0, z: 0 },
            color: Rgba::white_spec(),
            font_size: 16,
            anchor: Anchor::Center,
        }
    }
}

impl Default for TextElement {
    fn default() -> (e: Self)
        ensures
            e@ == TextElement::default_spec(),
    {
        TextElement {
            content: String::new(),
            position: Position { x: 0, y: 0, z: 0 },
            color: Rgba::white(),
            font_size: 16,
            anchor: Anchor::Center,
        }
    }
}

impl ImageElement {
    /// A white sprite at the origin with no path and no actions.
    pub open spec fn default_spec() -> ImageModel {
        ImageModel {
            path: Seq::empty(),
            position: Position { x: 0, y: 0, z: 0 },
            actions: Seq::empty(),
            color: Rgba::white_spec(),
            only_fit_scale: false,
        }
    }
}

impl Default for ImageElement {
    fn default() -> (e: Self)
        ensures
            e@ == ImageElement::default_spec(),
    {
        let e = ImageElement {
            path: String::new(),
            position: Position { x: 0, y: 0, z: 0 },
            actions: Vec::new(),
            color: Rgba::white(),
            only_fit_scale: false,
        };
        proof {
            assert(e@.actions =~= Seq::<ActionModel>::empty());
        }
        e
    }
}

impl TextImageElement {
    /// An empty white button at the origin with no sprite and no actions.
    pub open spec fn default_spec() -> TextImageModel {
        TextImageModel {
            content: Seq::empty(),
            path: Seq::empty(),
            position: Position { x: 0, y: 0, z: 0 },
            font_size: 16,
            image_color: Rgba::white_spec(),
            text_color: Rgba::white_spec(),
            actions: Seq::empty(),
        }
    }
}

impl Default for TextImageElement {
    fn default() -> (e: Self)
        ensures
            e@ == TextImageElement::default_spec(),
    {
        let e = TextImageElement {
            content: String::new(),
            path: String::new(),
            position: Position { x: 0, y: 0, z: 0 },
            font_size: 16,
            image_color: Rgba::white(),
            text_color: Rgba::white(),
            actions: Vec::new(),
        };
        proof {
            assert(e@.actions =~= Seq::<ActionModel>::empty());
        }
        e
    }
}

#[verifier::ext_equal]
pub ghost struct TextModel {
    pub content: Seq<char>,
    pub position: Position,
    pub color: Rgba,
    pub font_size: u32,
    pub anchor: Anchor,
}

#[verifier::ext_equal]
pub ghost struct ImageModel {
    pub path: Seq<char>,
    pub position: Position,
    pub actions: Seq<ActionModel>,
    pub color: Rgba,
    pub only_fit_scale: bool,
}

#[verifier::ext_equal]
pub ghost struct TextImageModel {
    pub content: Seq<char>,
    pub path: Seq<char>,
    pub position: Position,
    pub font_size: u32,
    pub image_color: Rgba,
    pub text_color: Rgba,
    pub actions: Seq<ActionModel>,
}

/// Mathematical model of an `Element`.
#[verifier::ext_equal]
pub ghost enum ElementModel {
    Text(TextModel),
    Image(ImageModel),
    TextImage(TextImageModel),
}

impl View for TextElement {
    type V = TextModel;

    open spec fn view(&self) -> TextModel {
        TextModel {
            content: self.content@,
            position: self.position,
            color: self.color,
            font_size: self.font_size,
            anchor: self.anchor,
        }
    }
}

impl View for ImageElement {
    type V = ImageModel;

    open spec fn view(&self) -> ImageModel {
        ImageModel {
            path: self.path@,
            position: self.position,
            actions: actions_model(self.actions@),
            color: self.color,
            only_fit_scale: self.only_fit_scale,
        }
    }
}

impl View for TextImageElement {
    type V = TextImageModel;

    open spec fn view(&self) -> TextImageModel {
        TextImageModel {
            content: self.content@,
            path: self.path@,
            position: self.position,
            font_size: self.font_size,
            image_color: self.image_color,
            text_color: self.text_color,
            actions: actions_model(self.actions@),
        }
    }
}

impl View for Element {
    type V = ElementModel;

    open spec fn view(&self) -> ElementModel {
        match self {
            Element::Text(t) => ElementModel::Text(t@),
            Element::Image(i) => ElementModel::Image(i@),
            Element::TextImage(t) => ElementModel::TextImage(t@),
        }
    }
}

impl ElementModel {
    /// The actions an element would fire when clicked; empty for plain text.
    pub open spec fn spec_actions(self) -> Seq<ActionModel> {
        match self {
            ElementModel::Text(_) => Seq::empty(),
            ElementModel::Image(i) => i.actions,
            ElementModel::TextImage(t) => t.actions,
        }
    }

    /// An element is interactive when it carries at least one action.
    pub open spec fn is_interactive(self) -> bool {
        self.spec_actions().len() > 0
    }

    /// The path of the sprite an element renders; a plain text element names
    /// none.
    pub open spec fn sprite_path(self) -> Seq<char> {
        match self {
            ElementModel::Text(_) => Seq::empty(),
            ElementModel::Image(i) => i.path,
            ElementModel::TextImage(t) => t.path,
        }
    }
}

/// Copies one action; the copy is equal to the original.
pub fn clone_action(a: &ElementAction) -> (r: ElementAction)
    ensures
        r == *a,
{
    match a {
        ElementAction::ChangeStep(s) => ElementAction::ChangeStep(s.clone()),
        ElementAction::ChangeGameData(f, op) => ElementAction::ChangeGameData(f.clone(), *op),
        ElementAction::ChangeViewStack(op) => match op {
            ViewStackOp::Push(v) => ElementAction::ChangeViewStack(ViewStackOp::Push(v.clone())),
            ViewStackOp::Pop => ElementAction::ChangeViewStack(ViewStackOp::Pop),
        },
        ElementAction::ChangeSetting(op) => ElementAction::ChangeSetting(*op),
        ElementAction::Confirm(c) => ElementAction::Confirm(*c),
        ElementAction::ExitApp => ElementAction::ExitApp,
    }
}

/// Copies an action list; the copy is element-wise equal to the original.
pub fn clone_actions(v: &Vec<ElementAction>) -> (r: Vec<ElementAction>)
    ensures
        r@ == v@,
{
    let mut r: Vec<ElementAction> = Vec::new();
    let mut i: usize = 0;
    while i < v.len()
        invariant
            i <= v.len(),
            r@ == v@.take(i as int),
        decreases v.len() - i,
    {
        r.push(clone_action(&v[i]));
        proof {
            assert(r@ =~= v@.take(i as int + 1));
        }
        i += 1;
    }
    proof {
        assert(r@ =~= v@);
    }
    r
}

/// Copies one element descriptor; the copy has the same model as the original.
pub fn clone_element(e: &Element) -> (r: Element)
    ensures
        r@ == e@,
{
    match e {
        Element::Text(t) => Element::Text(TextElement {
            content: t.content.clone(),
            position: t.position,
            color: t.color,
            font_size: t.font_size,
            anchor: t.anchor,
        }),
        Element::Image(i) => {
            let r = Element::Image(ImageElement {
                path: i.path.clone(),
                position: i.position,
                actions: clone_actions(&i.actions),
                color: i.color,
                only_fit_scale: i.only_fit_scale,
            });
            r
        },
        Element::TextImage(t) => Element::TextImage(TextImageElement {
            content: t.content.clone(),
            path: t.path.clone(),
            position: t.position,
            font_size: t.font_size,
            image_color: t.image_color,
            text_color: t.text_color,
            actions: clone_actions(&t.actions),
        }),
    }
}

/// An element id: the opaque, globally unique string key into the catalog.
#[derive(Clone, PartialEq, Eq, Debug)]
pub struct ElementId(pub String);

impl View for ElementId {
    type V = Seq<char>;

    open spec fn view(&self) -> Seq<char> {
        self.0@
    }
}

/// The catalog: the static mapping from element id to element descriptor.
pub struct ElementMap(pub StringHashMap<Element>);

impl View for ElementMap {
    type V = Map<Seq<char>, ElementModel>;

    open spec fn view(&self) -> Map<Seq<char>, ElementModel> {
        self.0@.map_values(|e: Element| e@)
    }
}

impl ElementMap {
    /// An empty catalog.
    pub fn new() -> (m: ElementMap)
        ensures
            m@ == Map::<Seq<char>, ElementModel>::empty(),
    {
        let m = ElementMap(StringHashMap::new());
        proof {
            assert(m@ =~= Map::<Seq<char>, ElementModel>::empty());
        }
        m
    }

    /// Content registration: binds `id` to `element`, replacing any previous
    /// binding of the same id.
    pub fn register(&mut self, id: String, element: Element)
        ensures
            final(self)@ == old(self)@.insert(id@, element@),
    {
        let ghost gid = id@;
        let ghost gel = element@;
        self.0.insert(id, element);
        proof {
            assert(self@ =~= old(self)@.insert(gid, gel));
        }
    }

    /// Looks an element up by id.
    pub fn get(&self, id: &str) -> (r: Option<&Element>)
        ensures
            match r {
                Some(e) => self@.contains_key(id@) && e@ == self@[id@],
                None => !self@.contains_key(id@),
            },
    {
        self.0.get(id)
    }

    /// Rewrites the label of a composite button in place; any other binding,
    /// or a missing one, is left untouched.
    pub fn set_button_label(&mut self, id: &String, text: String)
        ensures
            final(self)@ =~= relabel_button(old(self)@, id@, text@),
    {
        let ghost gtext = text@;
        let new_el = match self.0.get(id.as_str()) {
            Some(Element::TextImage(t)) => Element::TextImage(TextImageElement {
                content: text,
                path: t.path.clone(),
                position: t.position,
                font_size: t.font_size,
                image_color: t.image_color,
                text_color: t.text_color,
                actions: clone_actions(&t.actions),
            }),
            _ => {
                proof {
                    assert(self@ =~= relabel_button(old(self)@, id@, gtext));
                }
                return ;
            },
        };
        let ghost gmodel = new_el@;
        self.0.insert(id.clone(), new_el);
        proof {
            assert(self@ =~= old(self)@.insert(id@, gmodel));
            assert(self@ =~= relabel_button(old(self)@, id@, gtext));
        }
    }

    /// Rewrites the content of a plain text element in place; any other
    /// binding, or a missing one, is left untouched.
    pub fn set_text_content(&mut self, id: &String, text: String)
        ensures
            final(self)@ =~= relabel_text(old(self)@, id@, text@),
    {
        let ghost gtext = text@;
        let new_el = match self.0.get(id.as_str()) {
            Some(Element::Text(t)) => Element::Text(TextElement {
                content: text,
                position: t.position,
                color: t.color,
                font_size: t.font_size,
                anchor: t.anchor,
            }),
            _ => {
                proof {
                    assert(self@ =~= relabel_text(old(self)@, id@, gtext));
                }
                return ;
            },
        };
        let ghost gmodel = new_el@;
        self.0.insert(id.clone(), new_el);
        proof {
            assert(self@ =~= old(self)@.insert(id@, gmodel));
            assert(self@ =~= relabel_text(old(self)@, id@, gtext));
        }
    }

    /// Replaces the attached actions of a composite button; any other
    /// binding, or a missing one, is left untouched.
    pub fn set_button_actions(&mut self, id: &String, actions: Vec<ElementAction>)
        ensures
            final(self)@ =~= rebind_button(old(self)@, id@, actions_model(actions@)),
    {
        let ghost gacts = actions_model(actions@);
        let new_el = match self.0.get(id.as_str()) {
            Some(Element::TextImage(t)) => Element::TextImage(TextImageElement {
                content: t.content.clone(),
                path: t.path.clone(),
                position: t.position,
                font_size: t.font_size,
                image_color: t.image_color,
                text_color: t.text_color,
                actions,
            }),
            _ => {
                proof {
                    assert(self@ =~= rebind_button(old(self)@, id@, gacts));
                }
                return ;
            },
        };
        let ghost gmodel = new_el@;
        self.0.insert(id.clone(), new_el);
        proof {
            assert(self@ =~= old(self)@.insert(id@, gmodel));
            assert(self@ =~= rebind_button(old(self)@, id@, gacts));
        }
    }
}

/// A composite button with its label rewritten; any other element unchanged.
pub open spec fn retext_button(e: ElementModel, text: Seq<char>) -> ElementModel {
    match e {
        ElementModel::TextImage(t) => ElementModel::TextImage(TextImageModel {
            content: text,
            path: t.path,
            position: t.position,
            font_size: t.font_size,
            image_color: t.image_color,
            text_color: t.text_color,
            actions: t.actions,
        }),
        _ => e,
    }
}

/// A text element with its content rewritten; any other element unchanged.
pub open spec fn retext_text(e: ElementModel, text: Seq<char>) -> ElementModel {
    match e {
        ElementModel::Text(t) => ElementModel::Text(TextModel {
            content: text,
            position: t.position,
            color: t.color,
            font_size: t.font_size,
            anchor: t.anchor,
        }),
        _ => e,
    }
}

/// A composite button with its actions replaced; any other element unchanged.
pub open spec fn rebind_actions(e: ElementModel, actions: Seq<ActionModel>) -> ElementModel {
    match e {
        ElementModel::TextImage(t) => ElementModel::TextImage(TextImageModel {
            content: t.content,
            path: t.path,
            position: t.position,
            font_size: t.font_size,
            image_color: t.image_color,
            text_color: t.text_color,
            actions,
        }),
        _ => e,
    }
}

/// The catalog after rewriting one button label in place.
pub open spec fn relabel_button(
    catalog: Map<Seq<char>, ElementModel>,
    id: Seq<char>,
    text: Seq<char>,
) -> Map<Seq<char>, ElementModel> {
    if catalog.contains_key(id) {
        catalog.insert(id, retext_button(catalog[id], text))
    } else {
        catalog
    }
}

/// The catalog after rewriting one text element's content in place.
pub open spec fn relabel_text(
    catalog: Map<Seq<char>, ElementModel>,
    id: Seq<char>,
    text: Seq<char>,
) -> Map<Seq<char>, ElementModel> {
    if catalog.contains_key(id) {
        catalog.insert(id, retext_text(catalog[id], text))
    } else {
        catalog
    }
}

/// The catalog after replacing one button's attached actions.
pub open spec fn rebind_button(
    catalog: Map<Seq<char>, ElementModel>,
    id: Seq<char>,
    actions: Seq<ActionModel>,
) -> Map<Seq<char>, ElementModel> {
    if catalog.contains_key(id) {
        catalog.insert(id, rebind_actions(catalog[id], actions))
    } else {
        catalog
    }
}

} // verus!
