//! Colours, packed as red, green, blue and alpha from the highest byte down.

use vstd::prelude::*;

verus! {

/// The background that marks a dark theme.
pub const DARK_BACKGROUND: u32 = 0x191a1bff;

/// The colours that the views are painted with.
#[derive(Clone, Copy, Debug, PartialEq, Eq, Structural)]
pub struct ClippiTheme {
    pub bg: u32,
    pub accent: u32,
    pub accent_overlay: u32,
    pub text_1: u32,
    pub text_2: u32,
    pub text_3: u32,
    pub surface: u32,
    pub panel_surface: u32,
    pub panel_sep_line: u32,
    pub btn_hover: u32,
    pub divider: u32,
    pub toast_bg: u32,
}

impl ClippiTheme {
    /// Whether the theme is a dark one.
    pub open spec fn dark(self) -> bool {
        self.bg == DARK_BACKGROUND
    }

    /// Whether the theme is a dark one.
    pub fn is_dark(&self) -> (r: bool)
        ensures
            r == self.dark(),
    {
        self.bg == DARK_BACKGROUND
    }
}

/// One of two colours, by whether the theme is dark.
pub open spec fn shade(dark: bool, on_dark: u32, on_light: u32) -> u32 {
    if dark {
        on_dark
    } else {
        on_light
    }
}

/// Picks one of two colours by whether the theme is dark.
pub fn pick_shade(dark: bool, on_dark: u32, on_light: u32) -> (r: u32)
    ensures
        r == shade(dark, on_dark, on_light),
{
    if dark {
        on_dark
    } else {
        on_light
    }
}

} // verus!
