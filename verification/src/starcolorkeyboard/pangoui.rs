use vstd::prelude::*;
use crate::arith::{div_i32, div_toward_zero, fits_i32, i32_div_defined};
use crate::keytarget::KeyTarget;
use crate::starcolorkeyboard::modifiers::KeyModifierType;

verus! {

/// The width of the strip along the right edge that holds the minimize and
/// close buttons, and the height of those buttons.
pub const RIGHT_RELAY: i32 = 80;

/// The height of the band along the top edge that holds no keys.
pub const EXCLUDE_ZONE: i32 = 40;

/// The keyboard surface: its size in surface pixels.
#[derive(Debug)]
pub struct PangoUi {
    width: i32,
    height: i32,
}

impl View for PangoUi {
    type V = (i32, i32);

    closed spec fn view(&self) -> (i32, i32) {
        (self.width, self.height)
    }
}

impl Default for PangoUi {
    fn default() -> (ui: Self)
        ensures
            ui@ == (0i32, 0i32),
    {
        PangoUi { width: 0, height: 0 }
    }
}

/// Whether every modifier of `mode` is set in `key_type`.
pub open spec fn contains_mode(key_type: u32, mode: u32) -> bool {
    key_type == key_type | mode
}

/// Whether the modifiers of `mode` are all set in `key_type`.
pub fn contain_mode(key_type: KeyModifierType, mode: KeyModifierType) -> (b: bool)
    ensures
        b == contains_mode(key_type@, mode@),
{
    key_type == key_type.union(mode)
}

/// Every set contains the empty set of modifiers.
pub proof fn lemma_contains_no_mode(key_type: u32)
    ensures
        contains_mode(key_type, 0),
{
    assert(key_type == key_type | 0) by (bit_vector);
}

/// A set contains `mode` exactly when `mode`'s bits are all set in it, and
/// adding `mode` to any set gives a set that contains it.
pub proof fn lemma_contains_mode_is_subset(key_type: u32, mode: u32)
    ensures
        contains_mode(key_type, mode) <==> (key_type & mode) == mode,
        contains_mode(key_type | mode, mode),
{
    assert((key_type == key_type | mode) <==> (key_type & mode) == mode) by (bit_vector);
    assert((key_type | mode) == (key_type | mode) | mode) by (bit_vector);
}

/// Whether looking up the key under `(x, y)` on a surface of the given size
/// stays within `i32` arithmetic and never divides by zero.
pub open spec fn key_lookup_defined(width: int, height: int, x: int, y: int) -> bool {
    let step = div_toward_zero(height - 40, 3);
    let x_1 = width - 80 - 4 * step;
    let x_4 = width - 80 - step;
    let x_5 = width - 80;
    &&& fits_i32(height - 40)
    &&& fits_i32(width - 80)
    &&& fits_i32(4 * step)
    &&& fits_i32(x_1)
    &&& fits_i32(x_4)
    &&& (x >= x_1 && x > x_4) ==> if x > x_5 {
        y < 80 ==> fits_i32(x - x_5)
    } else {
        fits_i32(y - 40) && i32_div_defined(y - 40, step)
    }
}

/// The key under `(x, y)` on a surface of the given size. Below a band of
/// `EXCLUDE_ZONE` pixels along the top the surface has three rows of
/// `step = (height - 40) / 3` pixels; a strip of `RIGHT_RELAY` pixels along
/// the right edge holds, in its top 80 pixels, the minimize button (left
/// half) and the close button (right half). Left of that strip, one column of
/// `step` pixels holds the keys with codes 12, 11 and 13 from top to bottom,
/// the four columns left of it hold the number pad, and everything further
/// left is the main keyboard, which has four rows.
pub open spec fn key_lookup(width: int, height: int, x: int, y: int) -> KeyTarget {
    let step = div_toward_zero(height - 40, 3);
    let x_1 = width - 80 - 4 * step;
    let x_4 = width - 80 - step;
    let x_5 = width - 80;
    if x < x_1 {
        KeyTarget::MainKeyboard { step: div_toward_zero(height - 40, 4) as i32 }
    } else if x > x_4 {
        if x > x_5 {
            if y < 80 {
                if div_toward_zero(x - x_5, 40) == 0 {
                    KeyTarget::Minimize
                } else {
                    KeyTarget::Close
                }
            } else {
                KeyTarget::NoKey
            }
        } else {
            let row = div_toward_zero(y - 40, step);
            if row == 0 {
                KeyTarget::Key(12)
            } else if row == 1 {
                KeyTarget::Key(11)
            } else if row == 2 {
                KeyTarget::Key(13)
            } else {
                KeyTarget::NoKey
            }
        }
    } else {
        KeyTarget::SmallKeyboard { left: x_1 as i32, step: step as i32 }
    }
}

/// The strip right of `width - 80` is split at its own left edge: a point
/// there that lies past the number pad and the key column and above
/// y = 80 is the minimize button for its first 40 pixels and the close
/// button after them; below y = 80 it is no key.
pub proof fn lemma_button_strip_split_at_its_edge(width: int, height: int, x: int, y: int)
    requires
        x > width - 80,
        x >= width - 80 - 4 * div_toward_zero(height - 40, 3),
        x > width - 80 - div_toward_zero(height - 40, 3),
    ensures
        y < 80 && x - (width - 80) < 40 ==> key_lookup(width, height, x, y) == KeyTarget::Minimize,
        y < 80 && x - (width - 80) >= 40 ==> key_lookup(width, height, x, y) == KeyTarget::Close,
        y >= 80 ==> key_lookup(width, height, x, y) == KeyTarget::NoKey,
{
    let d = x - (width - 80);
    assert(d > 0);
    assert(d < 40 ==> d / 40 == 0);
    assert(d >= 40 ==> d / 40 >= 1);
}

/// Moving the surface's right edge and the point by the same distance keeps
/// the point on the same window button.
pub proof fn lemma_button_strip_follows_right_edge(width: int, height: int, x: int, y: int, d: int)
    requires
        x > width - 80,
        x >= width - 80 - 4 * div_toward_zero(height - 40, 3),
        x > width - 80 - div_toward_zero(height - 40, 3),
    ensures
        key_lookup(width + d, height, x + d, y) == key_lookup(width, height, x, y),
{
    lemma_button_strip_split_at_its_edge(width, height, x, y);
    lemma_button_strip_split_at_its_edge(width + d, height, x + d, y);
}

fn fits_i64(v: i64) -> (b: bool)
    ensures
        b == fits_i32(v as int),
{
    i32::MIN as i64 <= v && v <= i32::MAX as i64
}

impl PangoUi {
    /// Sets the surface size.
    pub fn set_size(&mut self, size: (i32, i32))
        ensures
            final(self)@ == size,
    {
        let (width, height) = size;
        self.width = width;
        self.height = height;
    }

    /// The surface size.
    pub fn get_size(&self) -> (size: (i32, i32))
        ensures
            size == self@,
    {
        (self.width, self.height)
    }

    /// Whether `get_key` can be asked about `pos`: it can unless the lookup
    /// would overflow `i32` or divide by zero.
    pub fn can_get_key(&self, pos: (i32, i32)) -> (ok: bool)
        ensures
            ok == key_lookup_defined(self@.0 as int, self@.1 as int, pos.0 as int, pos.1 as int),
    {
        let (pos_x, pos_y) = pos;
        let h40: i64 = self.height as i64 - 40;
        let w80: i64 = self.width as i64 - 80;
        if !fits_i64(h40) || !fits_i64(w80) {
            return false;
        }
        let step = div_i32(h40 as i32, 3);
        let s4: i64 = 4 * (step as i64);
        let x_1: i64 = w80 - s4;
        let x_4: i64 = w80 - step as i64;
        if !fits_i64(s4) || !fits_i64(x_1) || !fits_i64(x_4) {
            return false;
        }
        if pos_x as i64 >= x_1 && pos_x as i64 > x_4 {
            if pos_x as i64 > w80 {
                pos_y >= 80 || fits_i64(pos_x as i64 - w80)
            } else {
                let y40: i64 = pos_y as i64 - 40;
                fits_i64(y40) && step != 0 && !(y40 == i32::MIN as i64 && step == -1)
            }
        } else {
            true
        }
    }

    /// What lies under the point `pos` of the surface (see `key_lookup`).
    pub fn get_key(&self, pos: (i32, i32)) -> (target: KeyTarget)
        requires
            key_lookup_defined(self@.0 as int, self@.1 as int, pos.0 as int, pos.1 as int),
        ensures
            target == key_lookup(self@.0 as int, self@.1 as int, pos.0 as int, pos.1 as int),
    {
        let (pos_x, pos_y) = pos;
        let exclude_zone = EXCLUDE_ZONE;
        let step = div_i32(self.height - exclude_zone, 3);
        let x_1 = self.width - RIGHT_RELAY - 4 * step;
        let x_4 = self.width - RIGHT_RELAY - step;
        let x_5 = self.width - RIGHT_RELAY;
        if pos_x < x_1 {
            let step = div_i32(self.height - exclude_zone, 4);
            return KeyTarget::MainKeyboard { step };
        } else if pos_x > x_4 {
            if pos_x > x_5 {
                if pos_y < RIGHT_RELAY {
                    let step_right = RIGHT_RELAY / 2;
                    let right_w = pos_x - x_5;
                    if div_i32(right_w, step_right) == 0 {
                        return KeyTarget::Minimize;
                    } else {
                        return KeyTarget::Close;
                    }
                }
                return KeyTarget::NoKey;
            }
            let row = div_i32(pos_y - exclude_zone, step);
            if row == 0 {
                return KeyTarget::Key(12);
            } else if row == 1 {
                return KeyTarget::Key(11);
            } else if row == 2 {
                return KeyTarget::Key(13);
            } else {
                return KeyTarget::NoKey;
            }
        }
        KeyTarget::SmallKeyboard { left: x_1, step }
    }
}

} // verus!
