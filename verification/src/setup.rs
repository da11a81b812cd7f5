//! The startup configuration: what the game decides before the first
//! frame.

use vstd::prelude::*;
use vstd::string::StringExecFns;
use crate::Vec2;

verus! {

/// The window the game asks for, its size in milli-units.
pub struct WindowConfig {
    pub title: String,
    pub width: i64,
    pub height: i64,
}

/// Everything `setup` decides: the window, gravity switched off for the
/// top-down view, the gray of the placeholder material (channels in
/// milli-units), and the debug overlay's font size, color, placement and
/// starting text.
pub struct StartupConfig {
    pub window: WindowConfig,
    pub gravity: Vec2,
    pub placeholder_red: i64,
    pub placeholder_green: i64,
    pub placeholder_blue: i64,
    pub debug_font_size: i64,
    pub debug_color_red: i64,
    pub debug_color_green: i64,
    pub debug_color_blue: i64,
    pub debug_align_flex_end: bool,
    pub debug_seed_text: String,
}

/// Builds the startup configuration: a square window named after the
/// game, zero gravity, a light gray placeholder, and the debug overlay's
/// initial line — sized to fit, black, and pushed to the flex end of its
/// axis.
pub fn setup() -> (c: StartupConfig)
    ensures
        c.window.title@ == "Heaven Through Violence"@,
        c.window.width == 2_000_000,
        c.window.height == 2_000_000,
        c.gravity == (Vec2 { x: 0, y: 0 }),
        c.placeholder_red == 700,
        c.placeholder_green == 700,
        c.placeholder_blue == 700,
        c.debug_font_size == 70_000,
        c.debug_color_red == 0,
        c.debug_color_green == 0,
        c.debug_color_blue == 0,
        c.debug_align_flex_end,
        c.debug_seed_text@ == "Player Pos: -0.1234567890"@,
{
    StartupConfig {
        window: WindowConfig {
            title: String::from_str("Heaven Through Violence"),
            width: 2_000_000,
            height: 2_000_000,
        },
        gravity: Vec2 { x: 0, y: 0 },
        placeholder_red: 700,
        placeholder_green: 700,
        placeholder_blue: 700,
        debug_font_size: 70_000,
        debug_color_red: 0,
        debug_color_green: 0,
        debug_color_blue: 0,
        debug_align_flex_end: true,
        debug_seed_text: String::from_str("Player Pos: -0.1234567890"),
    }
}

} // verus!
