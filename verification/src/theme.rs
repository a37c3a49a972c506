use vstd::prelude::*;

use crate::text::{ascii_lowercase, str_eq, to_ascii_lowercase, trim, trimmed};

verus! {

/// The colour scheme the user asked for.
#[derive(Clone, Copy, Debug, PartialEq, Eq, Structural)]
pub enum Theme {
    Light,
    Dark,
    System,
}

/// The `COLORREF` value of a colour: red in the low byte, then green, then blue.
pub open spec fn rgb_value(r: u8, g: u8, b: u8) -> int {
    r + g * 256 + b * 65536
}

/// Packs red, green and blue into a `COLORREF` value.
pub fn rgb(r: u8, g: u8, b: u8) -> (color: u32)
    ensures
        color == rgb_value(r, g, b),
{
    let rr: u32 = r as u32;
    let gg: u32 = g as u32;
    let bb: u32 = b as u32;
    let color: u32 = rr | (gg << 8) | (bb << 16);
    assert(color == rr + gg * 256 + bb * 65536) by (bit_vector)
        requires
            rr < 256,
            gg < 256,
            bb < 256,
            color == rr | (gg << 8) | (bb << 16),
    ;
    color
}

/// Background of the dark scheme, `rgb(32, 32, 32)`.
pub const DARK_BACKGROUND: u32 = 0x0020_2020;

/// Background of the light scheme, `rgb(240, 240, 240)`.
pub const LIGHT_BACKGROUND: u32 = 0x00F0_F0F0;

/// Text of the dark scheme, `rgb(240, 240, 240)`.
pub const DARK_TEXT: u32 = 0x00F0_F0F0;

/// Text of the light scheme, `rgb(32, 32, 32)`.
pub const LIGHT_TEXT: u32 = 0x0020_2020;

/// Whether the dark scheme is in use, shared by everything the windows draw.
pub struct ThemeState {
    dark: bool,
}

impl View for ThemeState {
    type V = bool;

    closed spec fn view(&self) -> bool {
        self.dark
    }
}

impl ThemeState {
    /// The light scheme, which is in use until a theme is applied.
    pub fn new() -> (state: Self)
        ensures
            state@ == false,
    {
        ThemeState { dark: false }
    }

    /// Records whether the dark scheme is in use, and returns the value of
    /// the window attribute that asks for a dark title bar: 1 for dark, 0
    /// for light.
    pub fn apply(&mut self, is_dark: bool) -> (dark_flag: i32)
        ensures
            final(self)@ == is_dark,
            dark_flag == (if is_dark { 1i32 } else { 0i32 }),
    {
        self.dark = is_dark;
        if is_dark {
            1i32
        } else {
            0i32
        }
    }
}

/// Whether the dark scheme is in use.
pub fn is_dark_theme_active(state: &ThemeState) -> (dark: bool)
    ensures
        dark == state@,
{
    state.dark
}

/// The background colour of the scheme in use.
pub fn current_background_color(state: &ThemeState) -> (color: u32)
    ensures
        color == (if state@ { DARK_BACKGROUND } else { LIGHT_BACKGROUND }),
{
    if state.dark {
        DARK_BACKGROUND
    } else {
        LIGHT_BACKGROUND
    }
}

/// The text colour of the scheme in use.
pub fn current_text_color(state: &ThemeState) -> (color: u32)
    ensures
        color == (if state@ { DARK_TEXT } else { LIGHT_TEXT }),
{
    if state.dark {
        DARK_TEXT
    } else {
        LIGHT_TEXT
    }
}

/// Whether a theme fixes the scheme: `Some(dark)` for Light and Dark, `None`
/// for System, whose scheme is read from the user's settings.
pub fn fixed_dark_mode(theme: Theme) -> (dark: Option<bool>)
    ensures
        dark == (match theme {
            Theme::Light => Some(false),
            Theme::Dark => Some(true),
            Theme::System => None::<bool>,
        }),
{
    match theme {
        Theme::Light => Some(false),
        Theme::Dark => Some(true),
        Theme::System => None,
    }
}

/// The scheme that the user's setting `AppsUseLightTheme` selects: dark
/// exactly when the value is 0.
pub fn dark_mode_from_setting(apps_use_light_theme: u32) -> (dark: bool)
    ensures
        dark == (apps_use_light_theme == 0),
{
    apps_use_light_theme == 0
}

/// The theme named by a lower-case, trimmed name.
pub open spec fn theme_named(name: Seq<char>) -> Theme {
    if name == "light"@ {
        Theme::Light
    } else if name == "dark"@ {
        Theme::Dark
    } else {
        Theme::System
    }
}

/// The theme that a normalised name selects: "light", "dark" and "system"
/// select their theme, and any other name the system theme.
pub fn theme_from_name(name: &str) -> (theme: Theme)
    ensures
        theme == theme_named(name@),
{
    if str_eq(name, "light") {
        Theme::Light
    } else if str_eq(name, "dark") {
        Theme::Dark
    } else if str_eq(name, "system") {
        Theme::System
    } else {
        Theme::System
    }
}

/// The theme that a configured value selects, ignoring surrounding white
/// space and ASCII case.
pub fn resolve_theme(configured_theme: &str) -> (theme: Theme)
    ensures
        theme == theme_named(ascii_lowercase(trimmed(configured_theme@))),
{
    let trimmed_theme = trim(configured_theme);
    let lowered = to_ascii_lowercase(trimmed_theme);
    theme_from_name(lowered.as_str())
}

} // verus!
