use game_shell::dev_tools::{gold_label, i32_label};
use game_shell::elements::{TextElement, TextImageElement};
use game_shell::settings::{
    background_label, cursor_label, mode_label, resolution_label, u32_label, BackgroundImage,
    GameSettings, WindowMode,
};

#[test]
fn numbers_render_in_decimal() {
    assert_eq!(u32_label(0).as_str(), "0");
    assert_eq!(u32_label(7).as_str(), "7");
    assert_eq!(u32_label(1080).as_str(), "1080");
    assert_eq!(u32_label(4294967295).as_str(), "4294967295");
}

#[test]
fn signed_numbers_render_with_their_sign() {
    assert_eq!(i32_label(0).as_str(), "0");
    assert_eq!(i32_label(-5).as_str(), "-5");
    assert_eq!(i32_label(i32::MIN).as_str(), "-2147483648");
    assert_eq!(gold_label(15).as_str(), "Gold: 15");
}

#[test]
fn resolution_label_joins_width_and_height() {
    assert_eq!(resolution_label(1280, 720).as_str(), "1280 x 720");
    assert_eq!(resolution_label(1920, 1080).as_str(), "1920 x 1080");
}

#[test]
fn settings_labels_match_their_values() {
    assert_eq!(mode_label(WindowMode::Fullscreen).as_str(), "fullscreen");
    assert_eq!(mode_label(WindowMode::Windowed).as_str(), "windowed");
    assert_eq!(background_label(BackgroundImage::Fit).as_str(), "fit");
    assert_eq!(background_label(BackgroundImage::Cover).as_str(), "cover");
    assert_eq!(cursor_label(true).as_str(), "on");
    assert_eq!(cursor_label(false).as_str(), "off");
}

#[test]
fn default_settings_are_fullscreen_cover() {
    let s = GameSettings::default();
    assert_eq!(s.window.width, 1920);
    assert_eq!(s.window.height, 1080);
    assert_eq!(s.window.mode, WindowMode::Fullscreen);
    assert_eq!(s.window.background_image, BackgroundImage::Cover);
    assert!(s.other.custom_cursor);
}

#[test]
fn element_defaults_are_empty_and_white() {
    let t = TextElement::default();
    assert_eq!(t.content.as_str(), "");
    assert_eq!(t.font_size, 16);
    let b = TextImageElement::default();
    assert_eq!(b.content.as_str(), "");
    assert!(b.actions.is_empty());
}
