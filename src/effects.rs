//! Effect codes understood by the LED strips.
use vstd::prelude::*;

verus! {

/// Red, green, blue jump.
pub const JUMP_RED_GREEN_BLUE: u8 = 0x87;
/// All colors jump.
pub const JUMP_ALL: u8 = 0x88;
/// Red crossfade.
pub const CROSSFADE_RED: u8 = 0x8b;
/// Green crossfade.
pub const CROSSFADE_GREEN: u8 = 0x8c;
/// Blue crossfade.
pub const CROSSFADE_BLUE: u8 = 0x8d;
/// Yellow crossfade.
pub const CROSSFADE_YELLOW: u8 = 0x8e;
/// Cyan crossfade.
pub const CROSSFADE_CYAN: u8 = 0x8f;
/// Magenta crossfade.
pub const CROSSFADE_MAGENTA: u8 = 0x90;
/// White crossfade.
pub const CROSSFADE_WHITE: u8 = 0x91;
/// Red and green crossfade.
pub const CROSSFADE_RED_GREEN: u8 = 0x92;
/// Red and blue crossfade.
pub const CROSSFADE_RED_BLUE: u8 = 0x93;
/// Green and blue crossfade.
pub const CROSSFADE_GREEN_BLUE: u8 = 0x94;
/// Red, green, blue crossfade.
pub const CROSSFADE_RED_GREEN_BLUE: u8 = 0x89;
/// All colors crossfade.
pub const CROSSFADE_ALL: u8 = 0x8a;
/// Red blink.
pub const BLINK_RED: u8 = 0x96;
/// Green blink.
pub const BLINK_GREEN: u8 = 0x97;
/// Blue blink.
pub const BLINK_BLUE: u8 = 0x98;
/// Yellow blink.
pub const BLINK_YELLOW: u8 = 0x99;
/// Cyan blink.
pub const BLINK_CYAN: u8 = 0x9a;
/// Magenta blink.
pub const BLINK_MAGENTA: u8 = 0x9b;
/// White blink.
pub const BLINK_WHITE: u8 = 0x9c;
/// All colors blink.
pub const BLINK_ALL: u8 = 0x95;

/// The table of effect modes available on the strips, by name.
#[derive(Debug, Clone, Copy, PartialEq, Eq)]
pub struct Effects {
    /// Red, green, blue jump effect
    pub jump_red_green_blue: u8,
    /// All colors jump effect
    pub jump_red_green_blue_yellow_cyan_magenta_white: u8,
    /// Red crossfade effect
    pub crossfade_red: u8,
    /// Green crossfade effect
    pub crossfade_green: u8,
    /// Blue crossfade effect
    pub crossfade_blue: u8,
    /// Yellow crossfade effect
    pub crossfade_yellow: u8,
    /// Cyan crossfade effect
    pub crossfade_cyan: u8,
    /// Magenta crossfade effect
    pub crossfade_magenta: u8,
    /// White crossfade effect
    pub crossfade_white: u8,
    /// Red and green crossfade effect
    pub crossfade_red_green: u8,
    /// Red and blue crossfade effect
    pub crossfade_red_blue: u8,
    /// Green and blue crossfade effect
    pub crossfade_green_blue: u8,
    /// Red, green, blue crossfade effect
    pub crossfade_red_green_blue: u8,
    /// All colors crossfade effect
    pub crossfade_red_green_blue_yellow_cyan_magenta_white: u8,
    /// Red blink effect
    pub blink_red: u8,
    /// Green blink effect
    pub blink_green: u8,
    /// Blue blink effect
    pub blink_blue: u8,
    /// Yellow blink effect
    pub blink_yellow: u8,
    /// Cyan blink effect
    pub blink_cyan: u8,
    /// Magenta blink effect
    pub blink_magenta: u8,
    /// White blink effect
    pub blink_white: u8,
    /// All colors blink effect
    pub blink_red_green_blue_yellow_cyan_magenta_white: u8,
}

impl Effects {
    /// The codes that the strips use for each effect.
    pub fn standard() -> (r: Effects)
        ensures
            r.jump_red_green_blue == JUMP_RED_GREEN_BLUE,
            r.jump_red_green_blue_yellow_cyan_magenta_white == JUMP_ALL,
            r.crossfade_red == CROSSFADE_RED,
            r.crossfade_green == CROSSFADE_GREEN,
            r.crossfade_blue == CROSSFADE_BLUE,
            r.crossfade_yellow == CROSSFADE_YELLOW,
            r.crossfade_cyan == CROSSFADE_CYAN,
            r.crossfade_magenta == CROSSFADE_MAGENTA,
            r.crossfade_white == CROSSFADE_WHITE,
            r.crossfade_red_green == CROSSFADE_RED_GREEN,
            r.crossfade_red_blue == CROSSFADE_RED_BLUE,
            r.crossfade_green_blue == CROSSFADE_GREEN_BLUE,
            r.crossfade_red_green_blue == CROSSFADE_RED_GREEN_BLUE,
            r.crossfade_red_green_blue_yellow_cyan_magenta_white == CROSSFADE_ALL,
            r.blink_red == BLINK_RED,
            r.blink_green == BLINK_GREEN,
            r.blink_blue == BLINK_BLUE,
            r.blink_yellow == BLINK_YELLOW,
            r.blink_cyan == BLINK_CYAN,
            r.blink_magenta == BLINK_MAGENTA,
            r.blink_white == BLINK_WHITE,
            r.blink_red_green_blue_yellow_cyan_magenta_white == BLINK_ALL,
    {
        Effects {
            jump_red_green_blue: JUMP_RED_GREEN_BLUE,
            jump_red_green_blue_yellow_cyan_magenta_white: JUMP_ALL,
            crossfade_red: CROSSFADE_RED,
            crossfade_green: CROSSFADE_GREEN,
            crossfade_blue: CROSSFADE_BLUE,
            crossfade_yellow: CROSSFADE_YELLOW,
            crossfade_cyan: CROSSFADE_CYAN,
            crossfade_magenta: CROSSFADE_MAGENTA,
            crossfade_white: CROSSFADE_WHITE,
            crossfade_red_green: CROSSFADE_RED_GREEN,
            crossfade_red_blue: CROSSFADE_RED_BLUE,
            crossfade_green_blue: CROSSFADE_GREEN_BLUE,
            crossfade_red_green_blue: CROSSFADE_RED_GREEN_BLUE,
            crossfade_red_green_blue_yellow_cyan_magenta_white: CROSSFADE_ALL,
            blink_red: BLINK_RED,
            blink_green: BLINK_GREEN,
            blink_blue: BLINK_BLUE,
            blink_yellow: BLINK_YELLOW,
            blink_cyan: BLINK_CYAN,
            blink_magenta: BLINK_MAGENTA,
            blink_white: BLINK_WHITE,
            blink_red_green_blue_yellow_cyan_magenta_white: BLINK_ALL,
        }
    }
}

} // verus!
