use vstd::prelude::*;

verus! {

// Linux input event codes of the keys that the keyboard treats specially.
/// Escape.
pub const ESC: u32 = 1;

/// Left Control.
pub const CTRL_LEFT: u32 = 29;

/// Left Shift.
pub const SHIFT_LEFT: u32 = 42;

/// Right Shift.
pub const SHIFT_RIGHT: u32 = 54;

/// Left Alt.
pub const ALT_LEFT: u32 = 56;

/// Caps Lock.
pub const CAPS_LOCK: u32 = 58;

/// Right Control.
pub const CTRL_RIGHT: u32 = 97;

/// Right Alt.
pub const ALT_RIGHT: u32 = 100;

/// Menu.
pub const MENU: u32 = 139;

} // verus!
