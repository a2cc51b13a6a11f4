use vstd::prelude::*;

verus! {

/// Where a point of the keyboard surface lands.
///
/// The two key tables of the surface (the main keyboard on the left and the
/// number pad next to it) resolve a point to a key code given the row height
/// (`step`) and, for the number pad, its left edge; the remaining regions give
/// a key directly.
#[derive(Debug, Clone, Copy, PartialEq, Eq, Structural)]
pub enum KeyTarget {
    /// The point lies on the main keyboard, whose rows are `step` high.
    MainKeyboard { step: i32 },
    /// The point lies on the number pad, which starts at `left` and whose
    /// rows are `step` high.
    SmallKeyboard { left: i32, step: i32 },
    /// The point lies on the key with this code.
    Key(u32),
    /// The point lies on the button that minimizes the keyboard.
    Minimize,
    /// The point lies on the button that closes the keyboard.
    Close,
    /// The point lies on no key.
    NoKey,
}

} // verus!
