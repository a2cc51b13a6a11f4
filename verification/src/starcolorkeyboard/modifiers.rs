use vstd::prelude::*;
use vstd::std_specs::convert::{FromSpec, FromSpecImpl};
use crate::starcolorkeyboard::otherkeys::{
    ALT_LEFT, ALT_RIGHT, CAPS_LOCK, CTRL_LEFT, CTRL_RIGHT, MENU, SHIFT_LEFT, SHIFT_RIGHT,
};

verus! {

/// A set of keyboard modifiers, held as the bit mask that the virtual
/// keyboard protocol sends to the compositor.
#[derive(Debug, Clone, Copy, PartialEq, Eq, Hash, Structural)]
pub struct KeyModifierType {
    pub bits: u32,
}

impl View for KeyModifierType {
    type V = u32;

    open spec fn view(&self) -> u32 {
        self.bits
    }
}

/// The modifier bit of no modifier.
pub const NO_MOD_BITS: u32 = 0;

/// The modifier bit of Shift.
pub const SHIFT_BITS: u32 = 1;

/// The modifier bit of Caps Lock.
pub const CAPS_LOCK_BITS: u32 = 2;

/// The modifier bit of Control.
pub const CTRL_BITS: u32 = 4;

/// The modifier bit of Alt.
pub const ALT_BITS: u32 = 8;

/// The modifier bit of Super.
pub const SUPER_BITS: u32 = 64;

/// The modifier bit of AltGr.
pub const ALT_GR_BITS: u32 = 128;

/// The modifier bits that releasing the key with code `key` toggles.
pub open spec fn modifier_of_key(key: u32) -> u32 {
    if key == CAPS_LOCK {
        CAPS_LOCK_BITS
    } else if key == SHIFT_LEFT || key == SHIFT_RIGHT {
        SHIFT_BITS
    } else if key == MENU {
        SUPER_BITS
    } else if key == CTRL_LEFT || key == CTRL_RIGHT {
        CTRL_BITS
    } else if key == ALT_LEFT || key == ALT_RIGHT {
        ALT_BITS
    } else {
        NO_MOD_BITS
    }
}

impl KeyModifierType {
    /// The set with exactly the given bits.
    pub fn from_bits_retain(bits: u32) -> (m: Self)
        ensures
            m@ == bits,
    {
        KeyModifierType { bits }
    }

    /// The bit mask of the set.
    pub fn bits(&self) -> (bits: u32)
        ensures
            bits == self@,
    {
        self.bits
    }

    /// No modifier.
    pub fn no_mod() -> (m: Self)
        ensures
            m@ == NO_MOD_BITS,
    {
        KeyModifierType { bits: NO_MOD_BITS }
    }

    /// Shift.
    pub fn shift() -> (m: Self)
        ensures
            m@ == SHIFT_BITS,
    {
        KeyModifierType { bits: SHIFT_BITS }
    }

    /// Caps Lock.
    pub fn caps_lock() -> (m: Self)
        ensures
            m@ == CAPS_LOCK_BITS,
    {
        KeyModifierType { bits: CAPS_LOCK_BITS }
    }

    /// Control.
    pub fn ctrl() -> (m: Self)
        ensures
            m@ == CTRL_BITS,
    {
        KeyModifierType { bits: CTRL_BITS }
    }

    /// Alt.
    pub fn alt() -> (m: Self)
        ensures
            m@ == ALT_BITS,
    {
        KeyModifierType { bits: ALT_BITS }
    }

    /// Super.
    pub fn super_key() -> (m: Self)
        ensures
            m@ == SUPER_BITS,
    {
        KeyModifierType { bits: SUPER_BITS }
    }

    /// AltGr.
    pub fn alt_gr() -> (m: Self)
        ensures
            m@ == ALT_GR_BITS,
    {
        KeyModifierType { bits: ALT_GR_BITS }
    }

    /// The modifiers in either set.
    pub fn union(self, other: Self) -> (m: Self)
        ensures
            m@ == self@ | other@,
    {
        KeyModifierType { bits: self.bits | other.bits }
    }

    /// The modifiers in exactly one of the two sets.
    pub fn symmetric_difference(self, other: Self) -> (m: Self)
        ensures
            m@ == self@ ^ other@,
    {
        KeyModifierType { bits: self.bits ^ other.bits }
    }
}

impl From<u32> for KeyModifierType {
    /// The modifier that the key with code `value` toggles, or no modifier.
    fn from(value: u32) -> (m: Self) {
        let bits = if value == CAPS_LOCK {
            CAPS_LOCK_BITS
        } else if value == SHIFT_LEFT || value == SHIFT_RIGHT {
            SHIFT_BITS
        } else if value == MENU {
            SUPER_BITS
        } else if value == CTRL_LEFT || value == CTRL_RIGHT {
            CTRL_BITS
        } else if value == ALT_LEFT || value == ALT_RIGHT {
            ALT_BITS
        } else {
            NO_MOD_BITS
        };
        KeyModifierType { bits }
    }
}

impl FromSpecImpl<u32> for KeyModifierType {
    open spec fn obeys_from_spec() -> bool {
        true
    }

    open spec fn from_spec(v: u32) -> Self {
        KeyModifierType { bits: modifier_of_key(v) }
    }
}

impl From<usize> for KeyModifierType {
    /// The modifier that the key with code `value` (taken modulo 2^32)
    /// toggles, or no modifier.
    fn from(value: usize) -> (m: Self) {
        let value = value as u32;
        KeyModifierType::from(value)
    }
}

impl FromSpecImpl<usize> for KeyModifierType {
    open spec fn obeys_from_spec() -> bool {
        true
    }

    open spec fn from_spec(v: usize) -> Self {
        KeyModifierType { bits: modifier_of_key(v as u32) }
    }
}

/// A key code given as `usize` stands for the same modifier as the code taken
/// modulo 2^32 as `u32`; in particular every code that fits in `u32` stands for
/// the same modifier either way.
pub proof fn lemma_usize_codes_truncate(code: usize)
    ensures
        <KeyModifierType as FromSpec<usize>>::from_spec(code) == <KeyModifierType as FromSpec<
            u32,
        >>::from_spec(code as u32),
        code <= u32::MAX ==> <KeyModifierType as FromSpec<usize>>::from_spec(code)@
            == modifier_of_key(code as u32),
{
}

} // verus!
