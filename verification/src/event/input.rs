//! Raw input events produced by the platform layer.
use vstd::prelude::*;

use crate::types::Fixed;

verus! {

/// Encoder / Digital Crown press button code.
pub const KEY_ROTARY_PRESS: u32 = 0x0100;

/// Hardware button base code; concrete buttons are `KEY_HW_BUTTON_0 + n`.
pub const KEY_HW_BUTTON_0: u32 = 0x0200;

// Editing keys for text input, below the rotary and hardware-button bases.
pub const KEY_BACKSPACE: u32 = 0x0008;

pub const KEY_DELETE: u32 = 0x007F;

pub const KEY_LEFT: u32 = 0x0050;

pub const KEY_RIGHT: u32 = 0x0051;

pub const KEY_HOME: u32 = 0x0052;

pub const KEY_END: u32 = 0x0053;

pub const KEY_RETURN: u32 = 0x000D;

pub const KEY_ESCAPE: u32 = 0x001B;

/// Raw input event. Pointer events carry an `id` for multi-touch;
/// `id == 0` is the single-pointer / mouse path.
#[derive(Clone, Copy, Debug, PartialEq, Eq, Structural)]
pub enum InputEvent {
    PointerDown { id: u8, x: Fixed, y: Fixed },
    PointerMove { id: u8, x: Fixed, y: Fixed },
    PointerUp { id: u8, x: Fixed, y: Fixed },
    Rotary { id: u8, delta: i16 },
    Wheel { dx: Fixed, dy: Fixed },
    Key { code: u32, pressed: bool },
    CharInput { ch: char },
    Quit,
}

} // verus!
