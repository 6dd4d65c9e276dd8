use game_shell::actions::{handle_actions, pop_view, push_view, Actions};
use game_shell::confirm;
use game_shell::elements::{
    ConfirmAction, Element, ElementAction, SettingOp, ViewStackOp,
};
use game_shell::settings::{BackgroundImage, GameSettings, WindowMode};
use game_shell::state::{Effect, ShellState};
use game_shell::view_settings;

const ROOT_IDS: [&str; 10] = [
    "resolution_black_screen",
    "settings_button_return",
    "settings_resolution_text",
    "settings_resolution",
    "settings_window_mode_text",
    "settings_window_mode",
    "settings_background_image_text",
    "settings_background_image",
    "settings_custom_cursor_text",
    "settings_custom_cursor",
];

fn settings_shell() -> ShellState {
    let mut state = ShellState::new(GameSettings::default());
    view_settings::setup_root(&mut state);
    confirm::setup(&mut state);
    state
}

#[test]
fn push_spawns_the_view_and_pop_restores_the_previous_one() {
    let mut state = settings_shell();
    push_view(&mut state, "settings_root".to_string());
    for id in ROOT_IDS {
        assert!(state.live.contains(id), "{} should be live", id);
    }
    let live_before = state.live.len();

    // Pushing the confirmation view hides the settings root underneath.
    let mut actions = Actions::new();
    actions.0.push(ElementAction::ChangeViewStack(ViewStackOp::Push("confirm".to_string())));
    handle_actions(&mut state, &mut actions);
    assert!(actions.0.is_empty());
    assert!(!state.live.contains("settings_window_mode"));
    assert!(state.live.contains("confirm_button"));
    assert!(state.live.contains("confirm_black_screen"));

    // Popping it restores exactly the previous visible set.
    actions.0.push(ElementAction::ChangeViewStack(ViewStackOp::Pop));
    handle_actions(&mut state, &mut actions);
    assert!(!state.live.contains("confirm_button"));
    for id in ROOT_IDS {
        assert!(state.live.contains(id), "{} should be live again", id);
    }
    assert_eq!(state.live.len(), live_before);
}

#[test]
fn pop_of_an_empty_stack_changes_nothing() {
    let mut state = settings_shell();
    pop_view(&mut state);
    assert_eq!(state.live.len(), 0);
    assert!(state.view_stack.0.is_empty());
}

#[test]
fn push_of_an_unknown_view_shows_nothing() {
    let mut state = settings_shell();
    push_view(&mut state, "nonexistent".to_string());
    assert_eq!(state.live.len(), 0);
    assert_eq!(state.view_stack.0.len(), 1);
}

#[test]
fn set_resolution_updates_record_labels_and_effects() {
    let mut state = settings_shell();
    push_view(&mut state, "settings_root".to_string());

    let mut actions = Actions::new();
    actions.0.push(ElementAction::ChangeSetting(SettingOp::SetResolution(1280, 720)));
    handle_actions(&mut state, &mut actions);

    assert_eq!(state.settings.window.width, 1280);
    assert_eq!(state.settings.window.height, 720);
    match state.catalog.get("settings_resolution") {
        Some(Element::TextImage(t)) => assert_eq!(t.content.as_str(), "1280 x 720"),
        _ => panic!("settings_resolution should be a composite button"),
    }
    match &state.live.get("settings_resolution").expect("live button").element {
        Element::TextImage(t) => assert_eq!(t.content.as_str(), "1280 x 720"),
        _ => panic!("live settings_resolution should be a composite button"),
    }
    let effects = state.take_effects();
    assert_eq!(
        effects,
        vec![Effect::PersistSettings, Effect::CanvasReset, Effect::RefreshWindow],
    );
    assert!(state.take_effects().is_empty());
}

#[test]
fn toggle_window_mode_flips_and_relabels() {
    let mut state = settings_shell();
    push_view(&mut state, "settings_root".to_string());
    let mut actions = Actions::new();
    actions.0.push(ElementAction::ChangeSetting(SettingOp::ToggleWindowMode));
    handle_actions(&mut state, &mut actions);
    assert_eq!(state.settings.window.mode, WindowMode::Windowed);
    match state.catalog.get("settings_window_mode") {
        Some(Element::TextImage(t)) => assert_eq!(t.content.as_str(), "windowed"),
        _ => panic!("settings_window_mode should be a composite button"),
    }
    actions.0.push(ElementAction::ChangeSetting(SettingOp::ToggleWindowMode));
    handle_actions(&mut state, &mut actions);
    assert_eq!(state.settings.window.mode, WindowMode::Fullscreen);
}

#[test]
fn toggle_background_image_flips_and_requests_a_canvas_reset() {
    let mut state = settings_shell();
    let mut actions = Actions::new();
    actions.0.push(ElementAction::ChangeSetting(SettingOp::ToggleBackgroundImage));
    handle_actions(&mut state, &mut actions);
    assert_eq!(state.settings.window.background_image, BackgroundImage::Fit);
    let effects = state.take_effects();
    assert_eq!(effects, vec![Effect::PersistSettings, Effect::CanvasReset]);
}

#[test]
fn toggle_custom_cursor_flips_and_requests_a_cursor_reset() {
    let mut state = settings_shell();
    let mut actions = Actions::new();
    actions.0.push(ElementAction::ChangeSetting(SettingOp::ToggleCustomCursor));
    handle_actions(&mut state, &mut actions);
    assert!(!state.settings.other.custom_cursor);
    match state.catalog.get("settings_custom_cursor") {
        Some(Element::TextImage(t)) => assert_eq!(t.content.as_str(), "off"),
        _ => panic!("settings_custom_cursor should be a composite button"),
    }
    let effects = state.take_effects();
    assert_eq!(effects, vec![Effect::PersistSettings, Effect::CursorReset]);
}

#[test]
fn confirm_rewrites_the_confirmation_view_and_pushes_it() {
    let mut state = settings_shell();
    let mut actions = Actions::new();
    actions.0.push(ElementAction::Confirm(ConfirmAction::ExitApp));
    handle_actions(&mut state, &mut actions);

    match state.catalog.get("confirm_text") {
        Some(Element::Text(t)) => assert_eq!(
            t.content.as_str(),
            "Are you sure? Any unsaved changes will be lost.",
        ),
        _ => panic!("confirm_text should be a text element"),
    }
    match state.catalog.get("confirm_button") {
        Some(Element::TextImage(t)) => assert_eq!(t.actions, vec![ElementAction::ExitApp]),
        _ => panic!("confirm_button should be a composite button"),
    }
    assert_eq!(state.view_stack.0.last().map(|s| s.as_str()), Some("confirm"));
    assert!(state.live.contains("confirm_button"));

    // Confirming fires the concrete request.
    actions.0.push(ElementAction::ExitApp);
    handle_actions(&mut state, &mut actions);
    assert!(state.take_effects().contains(&Effect::ExitApp));
}

#[test]
fn the_queue_is_applied_in_order_and_drained() {
    let mut state = ShellState::new(GameSettings::default());
    state.game_data.add("gold", 0);
    let mut actions = Actions::new();
    actions.0.push(ElementAction::ChangeGameData(
        "gold".to_string(),
        game_shell::elements::GameDataOp::SetValue(5),
    ));
    actions.0.push(ElementAction::ChangeGameData(
        "gold".to_string(),
        game_shell::elements::GameDataOp::Increment(10),
    ));
    actions.0.push(ElementAction::ChangeStep("play".to_string()));
    handle_actions(&mut state, &mut actions);
    assert!(actions.0.is_empty());
    assert_eq!(state.game_data.get("gold"), 15);
    assert_eq!(state.next_step.0.as_str(), "play");
    // The pending step is not committed by the dispatcher itself.
    assert_eq!(state.current_step.0.as_str(), "empty");
}
