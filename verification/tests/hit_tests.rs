use game_shell::cameras::{canvas_scales, CanvasScale, Scale};
use game_shell::elements::{
    Element, ElementAction, ImageElement, Position, Rgba, SettingOp,
};
use game_shell::interactions::{
    element_hit, get_pixel_alpha, CursorPosition, ImageStore, SpriteImage,
};
use game_shell::settings::GameSettings;
use game_shell::cameras::fit_canvas;
use game_shell::interactions::update_cursor_position;

fn flat_alpha_image(w: u32, h: u32, alpha: u8) -> SpriteImage {
    let mut data = Vec::new();
    for _ in 0..(w * h) {
        data.push(200);
        data.push(200);
        data.push(200);
        data.push(alpha);
    }
    SpriteImage { width: w, height: h, data }
}

fn unit_scales() -> CanvasScale {
    CanvasScale { fit: Scale { num: 1, den: 1 }, cover: Scale { num: 1, den: 1 } }
}

fn sprite_button(path: &str, x: i32, y: i32) -> Element {
    Element::Image(ImageElement {
        path: path.to_string(),
        position: Position { x, y, z: 0 },
        actions: vec![ElementAction::ChangeStep("play".to_string())],
        color: Rgba { r: 255, g: 255, b: 255, a: 255 },
        only_fit_scale: false,
    })
}

#[test]
fn pixel_alpha_is_sampled_from_the_alpha_channel() {
    let mut img = flat_alpha_image(2, 2, 7);
    // Pixel (1, 1) sits at byte (1 * 2 + 1) * 4 + 3.
    img.data[15] = 99;
    assert_eq!(get_pixel_alpha(&img, 1, 1), Some(99));
    assert_eq!(get_pixel_alpha(&img, 0, 0), Some(7));
}

#[test]
fn pixel_alpha_outside_the_sprite_is_a_miss() {
    let img = flat_alpha_image(2, 2, 255);
    assert_eq!(get_pixel_alpha(&img, 2, 0), None);
    assert_eq!(get_pixel_alpha(&img, 0, 2), None);
}

#[test]
fn pixel_alpha_beyond_the_data_is_a_miss() {
    let mut img = flat_alpha_image(2, 2, 255);
    img.data.truncate(8);
    assert_eq!(get_pixel_alpha(&img, 1, 1), None);
    assert_eq!(get_pixel_alpha(&img, 0, 0), Some(255));
}

#[test]
fn solid_pixel_inside_the_bounds_is_a_hit() {
    let mut images = ImageStore::new();
    images.insert("arrow.webp".to_string(), flat_alpha_image(4, 4, 255));
    let e = sprite_button("arrow.webp", 0, 0);
    let settings = GameSettings::default();
    let hit = element_hit(&e, &settings, unit_scales(), &images, CursorPosition { x: 0, y: 0 });
    assert!(hit);
}

#[test]
fn pointer_outside_the_bounds_is_a_miss() {
    let mut images = ImageStore::new();
    images.insert("arrow.webp".to_string(), flat_alpha_image(4, 4, 255));
    let e = sprite_button("arrow.webp", 0, 0);
    let settings = GameSettings::default();
    let hit = element_hit(&e, &settings, unit_scales(), &images, CursorPosition { x: 40, y: 0 });
    assert!(!hit);
}

#[test]
fn translucent_pixel_inside_the_bounds_is_a_miss() {
    // Alpha 25 out of 255 is below the one-tenth threshold: inside the
    // bounding rectangle, yet no hit.
    let mut images = ImageStore::new();
    images.insert("arrow.webp".to_string(), flat_alpha_image(4, 4, 25));
    let e = sprite_button("arrow.webp", 0, 0);
    let settings = GameSettings::default();
    let hit = element_hit(&e, &settings, unit_scales(), &images, CursorPosition { x: 0, y: 0 });
    assert!(!hit);
}

#[test]
fn alpha_just_above_the_threshold_is_a_hit() {
    let mut images = ImageStore::new();
    images.insert("arrow.webp".to_string(), flat_alpha_image(4, 4, 26));
    let e = sprite_button("arrow.webp", 0, 0);
    let settings = GameSettings::default();
    let hit = element_hit(&e, &settings, unit_scales(), &images, CursorPosition { x: 0, y: 0 });
    assert!(hit);
}

#[test]
fn missing_sprite_is_a_miss() {
    let images = ImageStore::new();
    let e = sprite_button("arrow.webp", 0, 0);
    let settings = GameSettings::default();
    let hit = element_hit(&e, &settings, unit_scales(), &images, CursorPosition { x: 0, y: 0 });
    assert!(!hit);
}

#[test]
fn scaled_sprite_is_hit_through_its_scaled_extent() {
    // A 4 x 4 sprite at scale 3 covers 12 canvas units; 5 units from the
    // center is inside the scaled extent but outside the unscaled one.
    let mut images = ImageStore::new();
    images.insert("arrow.webp".to_string(), flat_alpha_image(4, 4, 255));
    let e = sprite_button("arrow.webp", 0, 0);
    let settings = GameSettings::default();
    let cs = CanvasScale { fit: Scale { num: 3, den: 1 }, cover: Scale { num: 3, den: 1 } };
    assert!(element_hit(&e, &settings, cs, &images, CursorPosition { x: 5, y: 0 }));
    assert!(!element_hit(&e, &settings, cs, &images, CursorPosition { x: 7, y: 0 }));
}

#[test]
fn pointer_on_the_far_edge_samples_past_the_sprite() {
    // A 4 x 4 sprite at unit scale spans [-2, 2]; a pointer exactly at 2 is
    // inside the rectangle but maps to the pixel one past the end, which
    // samples nothing and is a miss.
    let mut images = ImageStore::new();
    images.insert("arrow.webp".to_string(), flat_alpha_image(4, 4, 255));
    let e = sprite_button("arrow.webp", 0, 0);
    let settings = GameSettings::default();
    assert!(!element_hit(&e, &settings, unit_scales(), &images, CursorPosition { x: 2, y: 0 }));
    assert!(element_hit(&e, &settings, unit_scales(), &images, CursorPosition { x: 1, y: 0 }));
    // The top edge maps to row zero and still hits; the bottom edge is the
    // one past the end, since rows grow downward.
    assert!(element_hit(&e, &settings, unit_scales(), &images, CursorPosition { x: 0, y: 2 }));
    assert!(!element_hit(&e, &settings, unit_scales(), &images, CursorPosition { x: 0, y: -2 }));
}

#[test]
fn cursor_mapping_inverts_the_outer_scale() {
    // Outer scale 1/2: window coordinates double on the canvas.
    let half = Scale { num: 1, den: 2 };
    let c = update_cursor_position(10, -7, half);
    assert_eq!(c.x, 20);
    assert_eq!(c.y, -14);
    // Outer scale 2/1: window coordinates halve, truncated toward zero.
    let double = Scale { num: 2, den: 1 };
    let c = update_cursor_position(5, -5, double);
    assert_eq!(c.x, 2);
    assert_eq!(c.y, -2);
    // An extreme scale clamps into the hit test's range.
    let tiny = Scale { num: 1, den: 0x100_0000 };
    let c = update_cursor_position(0x1_0000_0000, 0, tiny);
    assert_eq!(c.x, 0x1_0000_0000);
}

#[test]
fn fit_canvas_picks_the_smaller_ratio() {
    // A 1920 x 1080 window around a 1280 x 720 canvas: both ratios are 3/2,
    // and the width ratio is reported.
    let s = fit_canvas(1920, 1080, 1280, 720);
    assert_eq!(s, Scale { num: 1920, den: 1280 });
    // A wide window is limited by its height.
    let s = fit_canvas(3000, 720, 1280, 720);
    assert_eq!(s, Scale { num: 720, den: 720 });
}

#[test]
fn canvas_scales_follow_the_design_space() {
    let cs = canvas_scales(1920, 1080);
    assert_eq!(cs.fit, Scale { num: 1920, den: 2560 });
    assert_eq!(cs.cover, Scale { num: 1080, den: 1440 });
    let cs = canvas_scales(2560, 1080);
    assert_eq!(cs.fit, Scale { num: 1080, den: 1440 });
    assert_eq!(cs.cover, Scale { num: 2560, den: 2560 });
}
