//! The shared confirmation view: a dimming screen, a prompt, a confirm
//! button the dispatcher rewires to the request being confirmed, and a
//! return button.

use vstd::prelude::*;
use vstd::string::StringExecFns;
use crate::elements::{
    Anchor, Element, ElementAction, ElementModel, ImageElement, ImageModel, Position, Rgba,
    TextElement, TextImageElement, TextImageModel, TextModel, ViewStackOp,
};
use crate::state::{ShellModel, ShellState};
use crate::steps::ElementSet;
use crate::views::ViewDef;

verus! {

/// The model of a full-screen dimming image at depth `z`.
pub open spec fn black_screen_model(z: i32) -> ElementModel {
    ElementModel::Image(
        ImageModel {
            path: "black_screen.webp"@,
            position: Position { x: 0, y: 0, z },
            actions: Seq::empty(),
            color: Rgba { r: 255, g: 255, b: 255, a: 250 },
            only_fit_scale: false,
        },
    )
}

/// Builds the dimming image.
pub fn black_screen_element(z: i32) -> (e: Element)
    ensures
        e@ == black_screen_model(z),
{
    let e = Element::Image(
        ImageElement {
            path: String::from_str("black_screen.webp"),
            position: Position { x: 0, y: 0, z },
            actions: Vec::new(),
            color: Rgba { r: 255, g: 255, b: 255, a: 250 },
            only_fit_scale: false,
        },
    );
    proof {
        assert(e@->Image_0.actions =~= Seq::empty());
    }
    e
}

/// The model of a button that pops the top view, at height `y` and depth `z`.
pub open spec fn return_button_model(y: i32, z: i32) -> ElementModel {
    ElementModel::TextImage(
        TextImageModel {
            content: "Return"@,
            path: "button.webp"@,
            position: Position { x: 0, y, z },
            font_size: 48,
            image_color: Rgba { r: 255, g: 255, b: 255, a: 153 },
            text_color: Rgba { r: 255, g: 255, b: 255, a: 255 },
            actions: seq![crate::elements::ActionModel::ChangeViewStack(
                crate::elements::ViewStackOpModel::Pop,
            )],
        },
    )
}

/// Builds the return button.
pub fn return_button_element(y: i32, z: i32) -> (e: Element)
    ensures
        e@ == return_button_model(y, z),
{
    let mut actions: Vec<ElementAction> = Vec::new();
    actions.push(ElementAction::ChangeViewStack(ViewStackOp::Pop));
    let e = Element::TextImage(
        TextImageElement {
            content: String::from_str("Return"),
            path: String::from_str("button.webp"),
            position: Position { x: 0, y, z },
            font_size: 48,
            image_color: Rgba { r: 255, g: 255, b: 255, a: 153 },
            text_color: Rgba { r: 255, g: 255, b: 255, a: 255 },
            actions,
        },
    );
    proof {
        assert(e@->TextImage_0.actions =~= return_button_model(y, z)->TextImage_0.actions);
    }
    e
}

/// The model of the confirmation prompt text, initially empty.
pub open spec fn confirm_text_model() -> ElementModel {
    ElementModel::Text(
        TextModel {
            content: Seq::empty(),
            position: Position { x: 0, y: 70, z: 300 },
            color: Rgba { r: 255, g: 255, b: 255, a: 255 },
            font_size: 56,
            anchor: Anchor::Center,
        },
    )
}

/// The model of the confirm button; the dispatcher fills its actions in when
/// a request asks for confirmation.
pub open spec fn confirm_button_model() -> ElementModel {
    ElementModel::TextImage(
        TextImageModel {
            content: "Confirm"@,
            path: "button.webp"@,
            position: Position { x: 0, y: -50i32, z: 300 },
            font_size: 48,
            image_color: Rgba { r: 255, g: 255, b: 255, a: 153 },
            text_color: Rgba { r: 255, g: 255, b: 255, a: 255 },
            actions: Seq::empty(),
        },
    )
}

/// The element ids the confirmation view owns.
pub open spec fn confirm_view_ids() -> Set<Seq<char>> {
    Set::empty().insert("confirm_black_screen"@).insert("confirm_return_button"@).insert(
        "confirm_text"@,
    ).insert("confirm_button"@)
}

/// The catalog after the confirmation content is registered.
pub open spec fn confirm_catalog(c: Map<Seq<char>, ElementModel>) -> Map<Seq<char>, ElementModel> {
    c.insert("confirm_black_screen"@, black_screen_model(220)).insert(
        "confirm_return_button"@,
        return_button_model(-550i32, 300i32),
    ).insert("confirm_text"@, confirm_text_model()).insert(
        "confirm_button"@,
        confirm_button_model(),
    )
}

/// Registers the confirmation view's elements and the view itself.
pub fn setup(state: &mut ShellState)
    requires
        old(state).wf(),
    ensures
        final(state)@ =~~= (ShellModel {
            catalog: confirm_catalog(old(state)@.catalog),
            views: old(state)@.views.insert("confirm"@, confirm_view_ids()),
            ..old(state)@
        }),
        final(state).wf(),
{
    let mut ids = ElementSet::new();
    ids.insert(String::from_str("confirm_black_screen"));
    state.register_element(
        String::from_str("confirm_black_screen"),
        black_screen_element(220),
    );
    ids.insert(String::from_str("confirm_return_button"));
    state.register_element(
        String::from_str("confirm_return_button"),
        return_button_element(-550, 300),
    );
    ids.insert(String::from_str("confirm_text"));
    state.register_element(
        String::from_str("confirm_text"),
        Element::Text(
            TextElement {
                content: String::new(),
                position: Position { x: 0, y: 70, z: 300 },
                color: Rgba { r: 255, g: 255, b: 255, a: 255 },
                font_size: 56,
                anchor: Anchor::Center,
            },
        ),
    );
    ids.insert(String::from_str("confirm_button"));
    state.register_element(
        String::from_str("confirm_button"),
        Element::TextImage(
            TextImageElement {
                content: String::from_str("Confirm"),
                path: String::from_str("button.webp"),
                position: Position { x: 0, y: -50, z: 300 },
                font_size: 48,
                image_color: Rgba { r: 255, g: 255, b: 255, a: 153 },
                text_color: Rgba { r: 255, g: 255, b: 255, a: 255 },
                actions: Vec::new(),
            },
        ),
    );
    proof {
        assert(ids@ =~= confirm_view_ids());
    }
    state.register_view(String::from_str("confirm"), ViewDef(ids));
    proof {
        assert(state@ =~~= (ShellModel {
            catalog: confirm_catalog(old(state)@.catalog),
            views: old(state)@.views.insert("confirm"@, confirm_view_ids()),
            ..old(state)@
        }));
    }
}

} // verus!
