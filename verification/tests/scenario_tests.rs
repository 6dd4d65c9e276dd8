use game_shell::actions::Actions;
use game_shell::cameras::{CanvasScale, Scale};
use game_shell::dev_tools;
use game_shell::elements::{
    Element, ElementAction, GameDataOp, ImageElement, Position, Rgba, TextImageElement,
};
use game_shell::interactions::{CursorPosition, ImageStore, SpriteImage};
use game_shell::main_menu;
use game_shell::settings::GameSettings;
use game_shell::state::ShellState;
use game_shell::steps::{on_step_change, ElementSet, Step};
use game_shell::tick;

fn opaque_image(w: u32, h: u32) -> SpriteImage {
    let mut data = Vec::new();
    for _ in 0..(w * h) {
        data.push(200);
        data.push(200);
        data.push(200);
        data.push(255);
    }
    SpriteImage { width: w, height: h, data }
}

fn unit_scales() -> CanvasScale {
    CanvasScale { fit: Scale { num: 1, den: 1 }, cover: Scale { num: 1, den: 1 } }
}

fn button(path: &str, x: i32, y: i32, actions: Vec<ElementAction>) -> Element {
    Element::TextImage(TextImageElement {
        content: "Start".to_string(),
        path: path.to_string(),
        position: Position { x, y, z: 1 },
        font_size: 48,
        image_color: Rgba { r: 255, g: 255, b: 255, a: 255 },
        text_color: Rgba { r: 255, g: 255, b: 255, a: 255 },
        actions,
    })
}

fn plain_image(path: &str) -> Element {
    Element::Image(ImageElement {
        path: path.to_string(),
        position: Position { x: 0, y: 0, z: 0 },
        actions: Vec::new(),
        color: Rgba { r: 255, g: 255, b: 255, a: 255 },
        only_fit_scale: false,
    })
}

fn set_of(ids: &[&str]) -> ElementSet {
    let mut s = ElementSet::new();
    for id in ids {
        s.insert(id.to_string());
    }
    s
}

/// A catalog with a start button on step "menu" and a background shared by
/// steps "menu" and "play".
fn menu_shell() -> ShellState {
    let mut state = ShellState::new(GameSettings::default());
    state.register_element(
        "btn_start".to_string(),
        button(
            "button.webp",
            0,
            0,
            vec![ElementAction::ChangeStep("play".to_string())],
        ),
    );
    state.register_element("shared_bg".to_string(), plain_image("bg.webp"));
    state.register_element("play_bg".to_string(), plain_image("play.webp"));
    state.register_step("menu".to_string(), Step(set_of(&["btn_start", "shared_bg"])));
    state.register_step("play".to_string(), Step(set_of(&["play_bg", "shared_bg"])));
    state.set_initial_step("menu".to_string());
    state
}

#[test]
fn click_on_start_switches_steps_with_shared_ids_kept() {
    let mut state = menu_shell();
    let mut actions = Actions::new();
    let mut images = ImageStore::new();
    images.insert("button.webp".to_string(), opaque_image(4, 4));
    let cs = unit_scales();

    // First tick, pointer far away: the pending "menu" step is realized.
    tick(&mut state, &mut actions, &images, cs, CursorPosition { x: 900, y: 900 }, false);
    assert_eq!(state.current_step.0.as_str(), "menu");
    assert!(state.live.contains("btn_start"));
    assert!(state.live.contains("shared_bg"));
    assert!(!state.live.contains("play_bg"));

    // Second tick, fresh press on the button: its action is dispatched and
    // the same tick's reconciliation swaps the steps.
    tick(&mut state, &mut actions, &images, cs, CursorPosition { x: 0, y: 0 }, true);
    assert_eq!(state.current_step.0.as_str(), "play");
    assert!(!state.live.contains("btn_start"));
    assert!(state.live.contains("play_bg"));
    assert!(state.live.contains("shared_bg"));
    assert!(actions.0.is_empty());
}

#[test]
fn a_shared_id_survives_the_step_switch_untouched() {
    // "shared_btn" belongs to both steps; switching steps must neither
    // despawn nor respawn it, so its hover state carries across the switch,
    // while the incoming step's own element appears.
    let mut state = ShellState::new(GameSettings::default());
    state.game_data.add("gold", 0);
    state.register_element(
        "shared_btn".to_string(),
        button(
            "button.webp",
            0,
            0,
            vec![ElementAction::ChangeGameData("gold".to_string(), GameDataOp::Increment(1))],
        ),
    );
    state.register_element("play_bg".to_string(), plain_image("play.webp"));
    state.register_step("menu".to_string(), Step(set_of(&["shared_btn"])));
    state.register_step("play".to_string(), Step(set_of(&["shared_btn", "play_bg"])));
    state.set_initial_step("menu".to_string());
    let mut actions = Actions::new();
    let mut images = ImageStore::new();
    images.insert("button.webp".to_string(), opaque_image(4, 4));
    let cs = unit_scales();
    tick(&mut state, &mut actions, &images, cs, CursorPosition { x: 900, y: 900 }, false);
    tick(&mut state, &mut actions, &images, cs, CursorPosition { x: 0, y: 0 }, false);
    assert!(state.live.get("shared_btn").unwrap().hovered);

    actions.0.push(ElementAction::ChangeStep("play".to_string()));
    tick(&mut state, &mut actions, &images, cs, CursorPosition { x: 0, y: 0 }, false);
    assert_eq!(state.current_step.0.as_str(), "play");
    assert!(state.live.contains("play_bg"));
    // A respawn would have reset the hover flag; the shared instance kept it.
    assert!(state.live.get("shared_btn").unwrap().hovered);
}

#[test]
fn press_on_a_translucent_pixel_enqueues_nothing() {
    let mut state = menu_shell();
    let mut actions = Actions::new();
    let mut images = ImageStore::new();
    // Alpha 20 of 255 is below the one-tenth threshold everywhere.
    let mut img = opaque_image(4, 4);
    for i in 0..16 {
        img.data[i * 4 + 3] = 20;
    }
    images.insert("button.webp".to_string(), img);
    let cs = unit_scales();
    tick(&mut state, &mut actions, &images, cs, CursorPosition { x: 900, y: 900 }, false);
    // Press inside the bounding rectangle: nothing fires, the step stays.
    tick(&mut state, &mut actions, &images, cs, CursorPosition { x: 0, y: 0 }, true);
    assert_eq!(state.current_step.0.as_str(), "menu");
    assert!(state.live.contains("btn_start"));
    assert!(!state.live.get("btn_start").unwrap().hovered);
}

#[test]
fn hover_follows_the_pointer() {
    let mut state = menu_shell();
    let mut actions = Actions::new();
    let mut images = ImageStore::new();
    images.insert("button.webp".to_string(), opaque_image(4, 4));
    let cs = unit_scales();
    tick(&mut state, &mut actions, &images, cs, CursorPosition { x: 900, y: 900 }, false);
    assert!(!state.live.get("btn_start").unwrap().hovered);
    tick(&mut state, &mut actions, &images, cs, CursorPosition { x: 0, y: 0 }, false);
    assert!(state.live.get("btn_start").unwrap().hovered);
    tick(&mut state, &mut actions, &images, cs, CursorPosition { x: 900, y: 900 }, false);
    assert!(!state.live.get("btn_start").unwrap().hovered);
}

#[test]
fn one_press_fires_exactly_one_element() {
    // Two overlapping buttons each add one gold; a single press must apply
    // exactly one increment.
    let mut state = ShellState::new(GameSettings::default());
    state.game_data.add("gold", 0);
    let inc = vec![ElementAction::ChangeGameData(
        "gold".to_string(),
        GameDataOp::Increment(1),
    )];
    state.register_element("coin_a".to_string(), button("button.webp", 0, 0, inc.clone()));
    state.register_element("coin_b".to_string(), button("button.webp", 0, 0, inc));
    state.register_step("menu".to_string(), Step(set_of(&["coin_a", "coin_b"])));
    state.set_initial_step("menu".to_string());
    let mut actions = Actions::new();
    let mut images = ImageStore::new();
    images.insert("button.webp".to_string(), opaque_image(4, 4));
    let cs = unit_scales();
    tick(&mut state, &mut actions, &images, cs, CursorPosition { x: 900, y: 900 }, false);
    tick(&mut state, &mut actions, &images, cs, CursorPosition { x: 0, y: 0 }, true);
    assert_eq!(state.game_data.get("gold"), 1);
}

#[test]
fn only_the_topmost_view_receives_clicks() {
    // The button is owned by the step, but a view is stacked above it: the
    // press must not reach the step's button.
    let mut state = menu_shell();
    state.register_view(
        "overlay".to_string(),
        game_shell::views::ViewDef(set_of(&["shared_bg"])),
    );
    let mut actions = Actions::new();
    let mut images = ImageStore::new();
    images.insert("button.webp".to_string(), opaque_image(4, 4));
    let cs = unit_scales();
    tick(&mut state, &mut actions, &images, cs, CursorPosition { x: 900, y: 900 }, false);
    game_shell::actions::push_view(&mut state, "overlay".to_string());
    tick(&mut state, &mut actions, &images, cs, CursorPosition { x: 0, y: 0 }, true);
    // The step button was hit but is not in the topmost view: no action.
    assert_eq!(state.current_step.0.as_str(), "menu");
}

#[test]
fn a_step_change_to_an_unknown_step_skips_the_diff() {
    let mut state = menu_shell();
    let mut actions = Actions::new();
    let images = ImageStore::new();
    let cs = unit_scales();
    tick(&mut state, &mut actions, &images, cs, CursorPosition { x: 0, y: 0 }, false);
    assert!(state.live.contains("shared_bg"));
    actions.0.push(ElementAction::ChangeStep("missing".to_string()));
    tick(&mut state, &mut actions, &images, cs, CursorPosition { x: 0, y: 0 }, false);
    // The id is committed, but nothing was despawned or spawned.
    assert_eq!(state.current_step.0.as_str(), "missing");
    assert!(state.live.contains("shared_bg"));
    assert!(state.live.contains("btn_start"));
}

#[test]
fn a_spawn_of_an_uncataloged_id_is_silently_skipped() {
    let mut state = ShellState::new(GameSettings::default());
    state.register_element("known".to_string(), plain_image("bg.webp"));
    state.register_step("menu".to_string(), Step(set_of(&["known", "ghost_id"])));
    state.set_initial_step("menu".to_string());
    on_step_change(&mut state);
    assert!(state.live.contains("known"));
    assert!(!state.live.contains("ghost_id"));
}

#[test]
fn the_main_menu_registers_and_realizes_its_step() {
    let mut state = ShellState::new(GameSettings::default());
    state.game_data.add("gold", 0);
    main_menu::setup(&mut state);
    dev_tools::setup(&mut state);
    on_step_change(&mut state);
    assert_eq!(state.current_step.0.as_str(), "main_menu");
    for id in [
        "chapter_01_initial",
        "main_menu_logo",
        "main_menu_version",
        "test_arrow",
        "main_menu_button_start",
        "main_menu_button_settings",
        "main_menu_button_exit",
        "dev_tools_gold",
    ] {
        assert!(state.live.contains(id), "{} should be live", id);
    }
}

#[test]
fn the_gold_readout_mirrors_the_counter() {
    let mut state = ShellState::new(GameSettings::default());
    state.game_data.add("gold", 0);
    main_menu::setup(&mut state);
    dev_tools::setup(&mut state);
    on_step_change(&mut state);
    match &state.live.get("dev_tools_gold").unwrap().element {
        Element::Text(t) => assert_eq!(t.content.as_str(), "Gold: 0"),
        _ => panic!("dev_tools_gold should be a text element"),
    }
    state.game_data.change_field("gold", &GameDataOp::SetValue(5));
    dev_tools::update_cursor_position(&mut state);
    match &state.live.get("dev_tools_gold").unwrap().element {
        Element::Text(t) => assert_eq!(t.content.as_str(), "Gold: 5"),
        _ => panic!("dev_tools_gold should be a text element"),
    }
}

#[test]
fn the_resolution_grid_is_registered() {
    let mut state = ShellState::new(GameSettings::default());
    game_shell::view_settings::setup_resolution(&mut state);
    match state.catalog.get("resolution_1920x1080") {
        Some(Element::TextImage(t)) => {
            assert_eq!(t.content.as_str(), "1920 x 1080");
            assert_eq!(
                t.actions,
                vec![ElementAction::ChangeSetting(
                    game_shell::elements::SettingOp::SetResolution(1920, 1080),
                )],
            );
        },
        _ => panic!("resolution_1920x1080 should be a composite button"),
    }
    match state.catalog.get("resolution_3840x2160") {
        Some(Element::TextImage(t)) => assert_eq!(t.content.as_str(), "3840 x 2160"),
        _ => panic!("resolution_3840x2160 should be a composite button"),
    }
}
