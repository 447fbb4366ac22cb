use vstd::prelude::*;

pub mod animation;
pub mod at24c08;
pub mod bytes;
pub mod esp12f;
pub mod main_menu;
pub mod menu;
pub mod rotary_encoder;
pub mod sht31;
pub mod ssd1315;

verus! {

/// An input event produced by the rotary encoder or the push button.
#[derive(Clone, Copy, PartialEq, Eq, Structural, Debug)]
pub enum InputEvt {
    CounterClockwise,
    Clockwise,
    Enter,
}

/// Width of the OLED display in pixels.
pub const DISPLAY_WIDTH: u8 = 128;

/// Height of the OLED display in pixels.
pub const DISPLAY_HEIGHT: u8 = 64;

} // verus!
