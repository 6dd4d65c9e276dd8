//! The settings views: the root overlay with one button per setting, and the
//! resolution picker with its grid of preset resolutions.

use vstd::prelude::*;
use vstd::string::StringExecFns;
use crate::confirm::{black_screen_element, black_screen_model, return_button_element,
    return_button_model};
use crate::elements::{
    ActionModel, Anchor, Element, ElementAction, ElementModel, Position, Rgba, SettingOp,
    TextElement, TextImageElement, TextImageModel, TextModel, ViewStackOp, ViewStackOpModel,
};
use crate::settings::{
    background_label, background_label_spec, cursor_label, cursor_label_spec, dec_str,
    mode_label, mode_label_spec, resolution_label, resolution_label_spec, u32_label,
    GameSettings,
};
use crate::state::{ShellModel, ShellState};
use crate::steps::ElementSet;
use crate::views::ViewDef;

verus! {

/// The model of one left-column caption in the settings root.
pub open spec fn settings_text_model(content: Seq<char>, y: i32) -> ElementModel {
    ElementModel::Text(
        TextModel {
            content,
            position: Position { x: -520i32, y, z: 100 },
            color: Rgba { r: 255, g: 255, b: 255, a: 255 },
            font_size: 56,
            anchor: Anchor::CenterLeft,
        },
    )
}

/// The model of one right-column settings button.
pub open spec fn settings_button_model(
    content: Seq<char>,
    y: i32,
    action: ActionModel,
) -> ElementModel {
    ElementModel::TextImage(
        TextImageModel {
            content,
            path: "button.webp"@,
            position: Position { x: 250, y, z: 100 },
            font_size: 48,
            image_color: Rgba { r: 255, g: 255, b: 255, a: 153 },
            text_color: Rgba { r: 255, g: 255, b: 255, a: 255 },
            actions: seq![action],
        },
    )
}

/// Builds one left-column caption.
fn settings_text(content: &str, y: i32) -> (e: Element)
    ensures
        e@ == settings_text_model(content@, y),
{
    Element::Text(
        TextElement {
            content: String::from_str(content),
            position: Position { x: -520, y, z: 100 },
            color: Rgba { r: 255, g: 255, b: 255, a: 255 },
            font_size: 56,
            anchor: Anchor::CenterLeft,
        },
    )
}

/// Builds one right-column settings button.
fn settings_button(content: String, y: i32, action: ElementAction) -> (e: Element)
    ensures
        e@ == settings_button_model(content@, y, action@),
{
    let ghost gaction = action@;
    let mut actions: Vec<ElementAction> = Vec::new();
    actions.push(action);
    let e = Element::TextImage(
        TextImageElement {
            content,
            path: String::from_str("button.webp"),
            position: Position { x: 250, y, z: 100 },
            font_size: 48,
            image_color: Rgba { r: 255, g: 255, b: 255, a: 153 },
            text_color: Rgba { r: 255, g: 255, b: 255, a: 255 },
            actions,
        },
    );
    proof {
        assert(e@->TextImage_0.actions =~= seq![gaction]);
    }
    e
}

/// The element ids the settings root view owns.
pub open spec fn settings_root_ids() -> Set<Seq<char>> {
    Set::empty().insert("resolution_black_screen"@).insert("settings_button_return"@).insert(
        "settings_resolution_text"@,
    ).insert("settings_resolution"@).insert("settings_window_mode_text"@).insert(
        "settings_window_mode"@,
    ).insert("settings_background_image_text"@).insert("settings_background_image"@).insert(
        "settings_custom_cursor_text"@,
    ).insert("settings_custom_cursor"@)
}

/// The catalog after the settings root content is registered; the button
/// labels mirror the settings record handed in.
pub open spec fn settings_root_catalog(
    c: Map<Seq<char>, ElementModel>,
    settings: GameSettings,
) -> Map<Seq<char>, ElementModel> {
    c.insert("resolution_black_screen"@, black_screen_model(20)).insert(
        "settings_button_return"@,
        return_button_model(-550i32, 100i32),
    ).insert("settings_resolution_text"@, settings_text_model("Resolution"@, 230)).insert(
        "settings_resolution"@,
        settings_button_model(
            resolution_label_spec(settings.window.width, settings.window.height),
            230,
            ActionModel::ChangeViewStack(ViewStackOpModel::Push("settings_resolution"@)),
        ),
    ).insert("settings_window_mode_text"@, settings_text_model("Window mode"@, 115)).insert(
        "settings_window_mode"@,
        settings_button_model(
            mode_label_spec(settings.window.mode),
            115,
            ActionModel::ChangeSetting(SettingOp::ToggleWindowMode),
        ),
    ).insert(
        "settings_background_image_text"@,
        settings_text_model("Background image"@, 0),
    ).insert(
        "settings_background_image"@,
        settings_button_model(
            background_label_spec(settings.window.background_image),
            0,
            ActionModel::ChangeSetting(SettingOp::ToggleBackgroundImage),
        ),
    ).insert(
        "settings_custom_cursor_text"@,
        settings_text_model("Custom cursor"@, -115i32),
    ).insert(
        "settings_custom_cursor"@,
        settings_button_model(
            cursor_label_spec(settings.other.custom_cursor),
            -115i32,
            ActionModel::ChangeSetting(SettingOp::ToggleCustomCursor),
        ),
    )
}

/// Registers the settings root view and its elements, with button labels
/// mirroring the current settings.
pub fn setup_root(state: &mut ShellState)
    requires
        old(state).wf(),
    ensures
        final(state)@ =~~= (ShellModel {
            catalog: settings_root_catalog(old(state)@.catalog, old(state)@.settings),
            views: old(state)@.views.insert("settings_root"@, settings_root_ids()),
            ..old(state)@
        }),
        final(state).wf(),
{
    let settings = state.settings;
    let mut ids = ElementSet::new();
    ids.insert(String::from_str("resolution_black_screen"));
    state.register_element(
        String::from_str("resolution_black_screen"),
        black_screen_element(20),
    );
    ids.insert(String::from_str("settings_button_return"));
    state.register_element(
        String::from_str("settings_button_return"),
        return_button_element(-550, 100),
    );
    ids.insert(String::from_str("settings_resolution_text"));
    state.register_element(
        String::from_str("settings_resolution_text"),
        settings_text("Resolution", 230),
    );
    ids.insert(String::from_str("settings_resolution"));
    state.register_element(
        String::from_str("settings_resolution"),
        settings_button(
            resolution_label(settings.window.width, settings.window.height),
            230,
            ElementAction::ChangeViewStack(
                ViewStackOp::Push(String::from_str("settings_resolution")),
            ),
        ),
    );
    ids.insert(String::from_str("settings_window_mode_text"));
    state.register_element(
        String::from_str("settings_window_mode_text"),
        settings_text("Window mode", 115),
    );
    ids.insert(String::from_str("settings_window_mode"));
    state.register_element(
        String::from_str("settings_window_mode"),
        settings_button(
            mode_label(settings.window.mode),
            115,
            ElementAction::ChangeSetting(SettingOp::ToggleWindowMode),
        ),
    );
    ids.insert(String::from_str("settings_background_image_text"));
    state.register_element(
        String::from_str("settings_background_image_text"),
        settings_text("Background image", 0),
    );
    ids.insert(String::from_str("settings_background_image"));
    state.register_element(
        String::from_str("settings_background_image"),
        settings_button(
            background_label(settings.window.background_image),
            0,
            ElementAction::ChangeSetting(SettingOp::ToggleBackgroundImage),
        ),
    );
    ids.insert(String::from_str("settings_custom_cursor_text"));
    state.register_element(
        String::from_str("settings_custom_cursor_text"),
        settings_text("Custom cursor", -115),
    );
    ids.insert(String::from_str("settings_custom_cursor"));
    state.register_element(
        String::from_str("settings_custom_cursor"),
        settings_button(
            cursor_label(settings.other.custom_cursor),
            -115,
            ElementAction::ChangeSetting(SettingOp::ToggleCustomCursor),
        ),
    );
    proof {
        assert(ids@ =~= settings_root_ids());
    }
    state.register_view(String::from_str("settings_root"), ViewDef(ids));
    proof {
        assert(state@ =~~= (ShellModel {
            catalog: settings_root_catalog(old(state)@.catalog, old(state)@.settings),
            views: old(state)@.views.insert("settings_root"@, settings_root_ids()),
            ..old(state)@
        }));
    }
}

/// The preset widths of the resolution grid, in column order.
pub open spec fn res_width(i: int) -> u32 {
    if i == 0 {
        1280
    } else if i == 1 {
        1366
    } else if i == 2 {
        1600
    } else if i == 3 {
        1920
    } else if i == 4 {
        2560
    } else {
        3840
    }
}

/// The preset heights of the resolution grid, in row order.
pub open spec fn res_height(i: int) -> u32 {
    if i == 0 {
        720
    } else if i == 1 {
        768
    } else if i == 2 {
        900
    } else if i == 3 {
        1024
    } else if i == 4 {
        1080
    } else if i == 5 {
        1200
    } else if i == 6 {
        1440
    } else if i == 7 {
        1600
    } else {
        2160
    }
}

/// The preset width of one grid column.
fn res_width_at(i: usize) -> (w: u32)
    requires
        i < 6,
    ensures
        w == res_width(i as int),
{
    match i {
        0 => 1280,
        1 => 1366,
        2 => 1600,
        3 => 1920,
        4 => 2560,
        _ => 3840,
    }
}

/// The preset height of one grid row.
fn res_height_at(i: usize) -> (h: u32)
    requires
        i < 9,
    ensures
        h == res_height(i as int),
{
    match i {
        0 => 720,
        1 => 768,
        2 => 900,
        3 => 1024,
        4 => 1080,
        5 => 1200,
        6 => 1440,
        7 => 1600,
        _ => 2160,
    }
}

/// The element id of one grid button.
pub open spec fn grid_id(wi: int, hi: int) -> Seq<char> {
    "resolution_"@ + dec_str(res_width(wi) as nat) + "x"@ + dec_str(res_height(hi) as nat)
}

/// The model of one grid button: it shows a resolution and sets it.
pub open spec fn grid_button_model(wi: int, hi: int) -> ElementModel {
    ElementModel::TextImage(
        TextImageModel {
            content: resolution_label_spec(res_width(wi), res_height(hi)),
            path: "button.webp"@,
            position: Position {
                x: (-930 + wi * 370) as i32,
                y: (560 - hi * 115) as i32,
                z: 100,
            },
            font_size: 48,
            image_color: Rgba { r: 255, g: 255, b: 255, a: 153 },
            text_color: Rgba { r: 255, g: 255, b: 255, a: 255 },
            actions: seq![ActionModel::ChangeSetting(
                SettingOp::SetResolution(res_width(wi), res_height(hi)),
            )],
        },
    )
}

/// The catalog after the first `n` grid buttons, in row-major order, have
/// been registered over `c`.
pub open spec fn grid_catalog(c: Map<Seq<char>, ElementModel>, n: int) -> Map<
    Seq<char>,
    ElementModel,
>
    decreases n,
{
    if n <= 0 {
        c
    } else {
        grid_catalog(c, n - 1).insert(
            grid_id((n - 1) % 6, (n - 1) / 6),
            grid_button_model((n - 1) % 6, (n - 1) / 6),
        )
    }
}

/// The id set after the first `n` grid buttons have been added to `s`.
pub open spec fn grid_ids(s: Set<Seq<char>>, n: int) -> Set<Seq<char>>
    decreases n,
{
    if n <= 0 {
        s
    } else {
        grid_ids(s, n - 1).insert(grid_id((n - 1) % 6, (n - 1) / 6))
    }
}

/// The element ids the resolution picker view owns.
pub open spec fn resolution_view_ids() -> Set<Seq<char>> {
    grid_ids(
        Set::empty().insert("resolution_black_screen"@).insert("resolution_button_return"@),
        54,
    ).insert("resolution_text"@)
}

/// The model of the note under the grid.
pub open spec fn resolution_note_model() -> ElementModel {
    ElementModel::Text(
        TextModel {
            content: "You can set any resolution in settings.toml file"@,
            position: Position { x: 0, y: -680i32, z: 100 },
            color: Rgba { r: 255, g: 255, b: 255, a: 255 },
            font_size: 56,
            anchor: Anchor::Center,
        },
    )
}

/// The catalog after the resolution picker content is registered.
pub open spec fn resolution_catalog(c: Map<Seq<char>, ElementModel>) -> Map<
    Seq<char>,
    ElementModel,
> {
    grid_catalog(
        c.insert("resolution_black_screen"@, black_screen_model(20)).insert(
            "resolution_button_return"@,
            return_button_model(-550i32, 100i32),
        ),
        54,
    ).insert("resolution_text"@, resolution_note_model())
}

/// Builds the id string of one grid button.
fn make_grid_id(w: u32, h: u32) -> (id: String)
    ensures
        id@ == "resolution_"@ + dec_str(w as nat) + "x"@ + dec_str(h as nat),
{
    let mut id = String::from_str("resolution_");
    let wl = u32_label(w);
    id.append(wl.as_str());
    id.append("x");
    let hl = u32_label(h);
    id.append(hl.as_str());
    proof {
        assert(id@ =~= "resolution_"@ + dec_str(w as nat) + "x"@ + dec_str(h as nat));
    }
    id
}

/// Registers the resolution picker view: the dimming screen, the return
/// button, the full preset grid and the free-form note.
pub fn setup_resolution(state: &mut ShellState)
    requires
        old(state).wf(),
    ensures
        final(state)@ =~~= (ShellModel {
            catalog: resolution_catalog(old(state)@.catalog),
            views: old(state)@.views.insert("settings_resolution"@, resolution_view_ids()),
            ..old(state)@
        }),
        final(state).wf(),
{
    let mut ids = ElementSet::new();
    ids.insert(String::from_str("resolution_black_screen"));
    state.register_element(
        String::from_str("resolution_black_screen"),
        black_screen_element(20),
    );
    ids.insert(String::from_str("resolution_button_return"));
    state.register_element(
        String::from_str("resolution_button_return"),
        return_button_element(-550, 100),
    );
    let ghost c1 = state@.catalog;
    let ghost s1 = ids@;
    let mut n: usize = 0;
    while n < 54
        invariant
            old(state).wf(),
            state.wf(),
            ids.wf(),
            n <= 54,
            state@ =~~= (ShellModel { catalog: grid_catalog(c1, n as int), ..old(state)@ }),
            ids@ =~= grid_ids(s1, n as int),
        decreases 54 - n,
    {
        let wi = n % 6;
        let hi = n / 6;
        let w = res_width_at(wi);
        let h = res_height_at(hi);
        let id = make_grid_id(w, h);
        proof {
            assert(id@ == grid_id(wi as int, hi as int));
        }
        let x: i32 = -930 + (wi as i32) * 370;
        let y: i32 = 560 - (hi as i32) * 115;
        let ghost gacts = seq![ActionModel::ChangeSetting(SettingOp::SetResolution(w, h))];
        let mut actions: Vec<ElementAction> = Vec::new();
        actions.push(ElementAction::ChangeSetting(SettingOp::SetResolution(w, h)));
        let e = Element::TextImage(
            TextImageElement {
                content: resolution_label(w, h),
                path: String::from_str("button.webp"),
                position: Position { x, y, z: 100 },
                font_size: 48,
                image_color: Rgba { r: 255, g: 255, b: 255, a: 153 },
                text_color: Rgba { r: 255, g: 255, b: 255, a: 255 },
                actions,
            },
        );
        proof {
            assert(e@->TextImage_0.actions =~= gacts);
            assert(e@ =~~= grid_button_model(wi as int, hi as int));
        }
        ids.insert(id.clone());
        state.register_element(id, e);
        proof {
            assert(state@.catalog =~~= grid_catalog(c1, n as int + 1));
            assert(ids@ =~= grid_ids(s1, n as int + 1));
        }
        n += 1;
    }
    ids.insert(String::from_str("resolution_text"));
    state.register_element(
        String::from_str("resolution_text"),
        Element::Text(
            TextElement {
                content: String::from_str("You can set any resolution in settings.toml file"),
                position: Position { x: 0, y: -680, z: 100 },
                color: Rgba { r: 255, g: 255, b: 255, a: 255 },
                font_size: 56,
                anchor: Anchor::Center,
            },
        ),
    );
    proof {
        assert(ids@ =~= resolution_view_ids());
    }
    state.register_view(String::from_str("settings_resolution"), ViewDef(ids));
    proof {
        assert(state@ =~~= (ShellModel {
            catalog: resolution_catalog(old(state)@.catalog),
            views: old(state)@.views.insert("settings_resolution"@, resolution_view_ids()),
            ..old(state)@
        }));
    }
}

} // verus!
