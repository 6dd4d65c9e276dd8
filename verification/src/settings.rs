//! The persisted settings record: window size, window mode, background
//! scaling mode and the custom-cursor flag.  Mutated only through
//! `SettingOp`s applied by the action dispatcher.

use vstd::prelude::*;
use vstd::string::StringExecFns;

verus! {

/// Whether the window is borderless-fullscreen or windowed.
#[derive(Clone, Copy, PartialEq, Eq, Structural, Debug)]
pub enum WindowMode {
    Fullscreen,
    Windowed,
}

/// How the background scales to the canvas: `Fit` letterboxes, `Cover` fills.
#[derive(Clone, Copy, PartialEq, Eq, Structural, Debug)]
pub enum BackgroundImage {
    Fit,
    Cover,
}

/// The window part of the settings record.
#[derive(Clone, Copy, PartialEq, Eq, Structural, Debug)]
pub struct WindowSettings {
    pub width: u32,
    pub height: u32,
    pub mode: WindowMode,
    pub background_image: BackgroundImage,
}

/// The remaining settings.
#[derive(Clone, Copy, PartialEq, Eq, Structural, Debug)]
pub struct OtherSettings {
    pub custom_cursor: bool,
}

/// The whole settings record.
#[derive(Clone, Copy, PartialEq, Eq, Structural, Debug)]
pub struct GameSettings {
    pub window: WindowSettings,
    pub other: OtherSettings,
}

impl GameSettings {
    /// The record used when no persisted settings exist.
    pub open spec fn default_spec() -> GameSettings {
        GameSettings {
            window: WindowSettings {
                width: 1920,
                height: 1080,
                mode: WindowMode::Fullscreen,
                background_image: BackgroundImage::Cover,
            },
            other: OtherSettings { custom_cursor: true },
        }
    }
}

impl Default for GameSettings {
    fn default() -> (s: Self)
        ensures
            s == GameSettings::default_spec(),
    {
        GameSettings {
            window: WindowSettings {
                width: 1920,
                height: 1080,
                mode: WindowMode::Fullscreen,
                background_image: BackgroundImage::Cover,
            },
            other: OtherSettings { custom_cursor: true },
        }
    }
}

/// The text shown on the window-mode settings button.
pub open spec fn mode_label_spec(m: WindowMode) -> Seq<char> {
    match m {
        WindowMode::Fullscreen => "fullscreen"@,
        WindowMode::Windowed => "windowed"@,
    }
}

/// The text shown on the background-image settings button.
pub open spec fn background_label_spec(b: BackgroundImage) -> Seq<char> {
    match b {
        BackgroundImage::Fit => "fit"@,
        BackgroundImage::Cover => "cover"@,
    }
}

/// The text shown on the custom-cursor settings button.
pub open spec fn cursor_label_spec(on: bool) -> Seq<char> {
    if on {
        "on"@
    } else {
        "off"@
    }
}

/// The character of one decimal digit.
pub open spec fn dec_digit(d: nat) -> char {
    if d == 0 {
        '0'
    } else if d == 1 {
        '1'
    } else if d == 2 {
        '2'
    } else if d == 3 {
        '3'
    } else if d == 4 {
        '4'
    } else if d == 5 {
        '5'
    } else if d == 6 {
        '6'
    } else if d == 7 {
        '7'
    } else if d == 8 {
        '8'
    } else {
        '9'
    }
}

/// The decimal rendering of a number, most significant digit first.
pub open spec fn dec_str(n: nat) -> Seq<char>
    decreases n,
{
    if n < 10 {
        seq![dec_digit(n)]
    } else {
        dec_str(n / 10) + seq![dec_digit(n % 10)]
    }
}

/// The text shown on a resolution button: width and height joined by " x ".
pub open spec fn resolution_label_spec(w: u32, h: u32) -> Seq<char> {
    dec_str(w as nat) + " x "@ + dec_str(h as nat)
}

/// One decimal digit as text.
fn digit_str(d: u32) -> (s: &'static str)
    requires
        d < 10,
    ensures
        s@ == seq![dec_digit(d as nat)],
{
    proof {
        reveal_strlit("0");
        reveal_strlit("1");
        reveal_strlit("2");
        reveal_strlit("3");
        reveal_strlit("4");
        reveal_strlit("5");
        reveal_strlit("6");
        reveal_strlit("7");
        reveal_strlit("8");
        reveal_strlit("9");
    }
    if d == 0 {
        "0"
    } else if d == 1 {
        "1"
    } else if d == 2 {
        "2"
    } else if d == 3 {
        "3"
    } else if d == 4 {
        "4"
    } else if d == 5 {
        "5"
    } else if d == 6 {
        "6"
    } else if d == 7 {
        "7"
    } else if d == 8 {
        "8"
    } else {
        "9"
    }
}

/// Renders a number in decimal.
pub fn u32_label(n: u32) -> (s: String)
    ensures
        s@ == dec_str(n as nat),
    decreases n,
{
    if n < 10 {
        String::from_str(digit_str(n))
    } else {
        let mut s = u32_label(n / 10);
        s.append(digit_str(n % 10));
        s
    }
}

/// Renders the resolution label.
pub fn resolution_label(w: u32, h: u32) -> (s: String)
    ensures
        s@ == resolution_label_spec(w, h),
{
    let mut s = u32_label(w);
    s.append(" x ");
    let t = u32_label(h);
    s.append(t.as_str());
    s
}

/// Renders the window-mode label.
pub fn mode_label(m: WindowMode) -> (s: String)
    ensures
        s@ == mode_label_spec(m),
{
    match m {
        WindowMode::Fullscreen => String::from_str("fullscreen"),
        WindowMode::Windowed => String::from_str("windowed"),
    }
}

/// Renders the background-image label.
pub fn background_label(b: BackgroundImage) -> (s: String)
    ensures
        s@ == background_label_spec(b),
{
    match b {
        BackgroundImage::Fit => String::from_str("fit"),
        BackgroundImage::Cover => String::from_str("cover"),
    }
}

/// Renders the custom-cursor label.
pub fn cursor_label(on: bool) -> (s: String)
    ensures
        s@ == cursor_label_spec(on),
{
    if on {
        String::from_str("on")
    } else {
        String::from_str("off")
    }
}

} // verus!
