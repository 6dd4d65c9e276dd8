//! The main-menu step: background, logo, version tag, a development arrow
//! and the three menu buttons.

use vstd::prelude::*;
use vstd::string::StringExecFns;
use crate::elements::{
    ActionModel, Anchor, ConfirmAction, Element, ElementAction, ElementModel, GameDataOp,
    ImageElement, ImageModel, Position, Rgba, TextElement, TextImageElement, TextImageModel,
    TextModel, ViewStackOp, ViewStackOpModel,
};
use crate::state::{ShellModel, ShellState};
use crate::steps::{ElementSet, Step};

verus! {

/// The model of a full-screen background image.
pub open spec fn chapter_image_model() -> ElementModel {
    ElementModel::Image(
        ImageModel {
            path: "chapter_01/initial.webp"@,
            position: Position { x: 0, y: 0, z: 0 },
            actions: Seq::empty(),
            color: Rgba { r: 255, g: 255, b: 255, a: 255 },
            only_fit_scale: false,
        },
    )
}

/// The model of the menu logo, which never cover-scales.
pub open spec fn logo_model() -> ElementModel {
    ElementModel::Image(
        ImageModel {
            path: "main_menu_logo.webp"@,
            position: Position { x: 0, y: 0, z: 1 },
            actions: Seq::empty(),
            color: Rgba { r: 255, g: 255, b: 255, a: 255 },
            only_fit_scale: true,
        },
    )
}

/// The model of the version tag in the lower right corner.
pub open spec fn version_model() -> ElementModel {
    ElementModel::Text(
        TextModel {
            content: "version 0.1.0"@,
            position: Position { x: 1240, y: -680i32, z: 1 },
            color: Rgba { r: 255, g: 255, b: 255, a: 255 },
            font_size: 16,
            anchor: Anchor::BottomRight,
        },
    )
}

/// The model of the development arrow, a half-transparent sprite whose click
/// exercises the counter operations.
pub open spec fn test_arrow_model() -> ElementModel {
    ElementModel::Image(
        ImageModel {
            path: "wip/test_arrow.webp"@,
            position: Position { x: 0, y: 0, z: 1 },
            actions: seq![
                ActionModel::ChangeGameData("gold"@, GameDataOp::SetValue(5)),
                ActionModel::ChangeGameData("gold"@, GameDataOp::Increment(10)),
                ActionModel::ChangeGameData("gold"@, GameDataOp::Decrement(5)),
            ],
            color: Rgba { r: 255, g: 255, b: 255, a: 128 },
            only_fit_scale: false,
        },
    )
}

/// The model of one menu button in the left-hand column.
pub open spec fn menu_button_model(content: Seq<char>, y: i32, action: ActionModel) -> ElementModel {
    ElementModel::TextImage(
        TextImageModel {
            content,
            path: "button.webp"@,
            position: Position { x: -575i32, y, z: 1 },
            font_size: 48,
            image_color: Rgba { r: 255, g: 255, b: 255, a: 242 },
            text_color: Rgba { r: 255, g: 255, b: 255, a: 255 },
            actions: seq![action],
        },
    )
}

/// Builds one menu button.
fn menu_button(content: &str, y: i32, action: ElementAction) -> (e: Element)
    ensures
        e@ == menu_button_model(content@, y, action@),
{
    let ghost gaction = action@;
    let mut actions: Vec<ElementAction> = Vec::new();
    actions.push(action);
    let e = Element::TextImage(
        TextImageElement {
            content: String::from_str(content),
            path: String::from_str("button.webp"),
            position: Position { x: -575, y, z: 1 },
            font_size: 48,
            image_color: Rgba { r: 255, g: 255, b: 255, a: 242 },
            text_color: Rgba { r: 255, g: 255, b: 255, a: 255 },
            actions,
        },
    );
    proof {
        assert(e@->TextImage_0.actions =~= seq![gaction]);
    }
    e
}

/// The element ids the main-menu step owns.
pub open spec fn main_menu_ids() -> Set<Seq<char>> {
    Set::empty().insert("chapter_01_initial"@).insert("main_menu_logo"@).insert(
        "main_menu_version"@,
    ).insert("test_arrow"@).insert("main_menu_button_start"@).insert(
        "main_menu_button_settings"@,
    ).insert("main_menu_button_exit"@)
}

/// The catalog after the main-menu content is registered.
pub open spec fn main_menu_catalog(c: Map<Seq<char>, ElementModel>) -> Map<Seq<char>, ElementModel> {
    c.insert("chapter_01_initial"@, chapter_image_model()).insert(
        "main_menu_logo"@,
        logo_model(),
    ).insert("main_menu_version"@, version_model()).insert("test_arrow"@, test_arrow_model())
        .insert(
        "main_menu_button_start"@,
        menu_button_model("Start"@, 0, ActionModel::ChangeStep("empty"@)),
    ).insert(
        "main_menu_button_settings"@,
        menu_button_model(
            "Settings"@,
            -115i32,
            ActionModel::ChangeViewStack(ViewStackOpModel::Push("settings_root"@)),
        ),
    ).insert(
        "main_menu_button_exit"@,
        menu_button_model("Exit"@, -230i32, ActionModel::Confirm(ConfirmAction::ExitApp)),
    )
}

/// Registers the main-menu content, its step, and makes that step pending.
pub fn setup(state: &mut ShellState)
    requires
        old(state).wf(),
    ensures
        final(state)@ =~~= (ShellModel {
            catalog: main_menu_catalog(old(state)@.catalog),
            steps: old(state)@.steps.insert("main_menu"@, main_menu_ids()),
            next_step: "main_menu"@,
            ..old(state)@
        }),
        final(state).wf(),
{
    let mut ids = ElementSet::new();
    ids.insert(String::from_str("chapter_01_initial"));
    state.register_element(
        String::from_str("chapter_01_initial"),
        Element::Image(
            ImageElement {
                path: String::from_str("chapter_01/initial.webp"),
                position: Position { x: 0, y: 0, z: 0 },
                actions: Vec::new(),
                color: Rgba { r: 255, g: 255, b: 255, a: 255 },
                only_fit_scale: false,
            },
        ),
    );
    ids.insert(String::from_str("main_menu_logo"));
    state.register_element(
        String::from_str("main_menu_logo"),
        Element::Image(
            ImageElement {
                path: String::from_str("main_menu_logo.webp"),
                position: Position { x: 0, y: 0, z: 1 },
                actions: Vec::new(),
                color: Rgba { r: 255, g: 255, b: 255, a: 255 },
                only_fit_scale: true,
            },
        ),
    );
    ids.insert(String::from_str("main_menu_version"));
    state.register_element(
        String::from_str("main_menu_version"),
        Element::Text(
            TextElement {
                content: String::from_str("version 0.1.0"),
                position: Position { x: 1240, y: -680, z: 1 },
                color: Rgba { r: 255, g: 255, b: 255, a: 255 },
                font_size: 16,
                anchor: Anchor::BottomRight,
            },
        ),
    );
    ids.insert(String::from_str("test_arrow"));
    let mut arrow_actions: Vec<ElementAction> = Vec::new();
    arrow_actions.push(
        ElementAction::ChangeGameData(String::from_str("gold"), GameDataOp::SetValue(5)),
    );
    arrow_actions.push(
        ElementAction::ChangeGameData(String::from_str("gold"), GameDataOp::Increment(10)),
    );
    arrow_actions.push(
        ElementAction::ChangeGameData(String::from_str("gold"), GameDataOp::Decrement(5)),
    );
    let arrow = Element::Image(
        ImageElement {
            path: String::from_str("wip/test_arrow.webp"),
            position: Position { x: 0, y: 0, z: 1 },
            actions: arrow_actions,
            color: Rgba { r: 255, g: 255, b: 255, a: 128 },
            only_fit_scale: false,
        },
    );
    proof {
        assert(arrow@ =~~= test_arrow_model());
    }
    state.register_element(String::from_str("test_arrow"), arrow);
    ids.insert(String::from_str("main_menu_button_start"));
    state.register_element(
        String::from_str("main_menu_button_start"),
        menu_button("Start", 0, ElementAction::ChangeStep(String::from_str("empty"))),
    );
    ids.insert(String::from_str("main_menu_button_settings"));
    state.register_element(
        String::from_str("main_menu_button_settings"),
        menu_button(
            "Settings",
            -115,
            ElementAction::ChangeViewStack(
                ViewStackOp::Push(String::from_str("settings_root")),
            ),
        ),
    );
    ids.insert(String::from_str("main_menu_button_exit"));
    state.register_element(
        String::from_str("main_menu_button_exit"),
        menu_button("Exit", -230, ElementAction::Confirm(ConfirmAction::ExitApp)),
    );
    proof {
        assert(ids@ =~= main_menu_ids());
    }
    state.register_step(String::from_str("main_menu"), Step(ids));
    state.set_initial_step(String::from_str("main_menu"));
    proof {
        assert(state@ =~~= (ShellModel {
            catalog: main_menu_catalog(old(state)@.catalog),
            steps: old(state)@.steps.insert("main_menu"@, main_menu_ids()),
            next_step: "main_menu"@,
            ..old(state)@
        }));
    }
}

} // verus!
