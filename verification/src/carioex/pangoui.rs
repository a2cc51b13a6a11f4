pub mod mainkeyboard;

use vstd::prelude::*;
use crate::arith::{div_i32, div_toward_zero, fits_i32, i32_div_defined};
use crate::keytarget::KeyTarget;
use crate::carioex::pangoui::mainkeyboard::{is_main_row, DrawInfo};

verus! {

/// The keyboard surface: its size in surface pixels.
#[derive(Debug)]
pub struct PangoUi {
    width: i32,
    height: i32,
}

impl View for PangoUi {
    type V = (i32, i32);

    closed spec fn view(&self) -> (i32, i32) {
        (self.width, self.height)
    }
}

impl Default for PangoUi {
    fn default() -> (ui: Self)
        ensures
            ui@ == (0i32, 0i32),
    {
        PangoUi { width: 0, height: 0 }
    }
}

/// Whether looking up the key under `(x, y)` on a surface of the given size
/// stays within `i32` arithmetic and never divides by zero.
pub open spec fn key_lookup_defined(width: int, height: int, x: int, y: int) -> bool {
    let step = div_toward_zero(height, 3);
    &&& fits_i32(4 * step)
    &&& fits_i32(width - 4 * step)
    &&& fits_i32(width - step)
    &&& (x >= width - 4 * step && x > width - step) ==> i32_div_defined(y, step)
}

/// The key under `(x, y)` on a surface of the given size. The surface is three
/// rows of `height / 3` high; the rightmost column of that width holds the key
/// with code 11 in its middle row, the four columns left of it hold the number
/// pad, and everything further left is the main keyboard, which has four rows.
pub open spec fn key_lookup(width: int, height: int, x: int, y: int) -> KeyTarget {
    let step = div_toward_zero(height, 3);
    let x_1 = width - 4 * step;
    let x_4 = width - step;
    if x < x_1 {
        KeyTarget::MainKeyboard { step: div_toward_zero(height, 4) as i32 }
    } else if x > x_4 {
        if div_toward_zero(y, step) == 1 {
            KeyTarget::Key(11)
        } else {
            KeyTarget::NoKey
        }
    } else {
        KeyTarget::SmallKeyboard { left: x_1 as i32, step: step as i32 }
    }
}

/// A point that lands on the main keyboard is looked up with the row height
/// that the main keyboard is drawn with on a surface of that height.
pub proof fn lemma_hit_rows_match_drawn_rows(
    width: int,
    height: int,
    x: int,
    y: int,
    keys: Seq<DrawInfo>,
    font_size: int,
)
    requires
        fits_i32(height),
        is_main_row(keys, height, font_size),
        key_lookup(width, height, x, y) is MainKeyboard,
    ensures
        key_lookup(width, height, x, y) == (KeyTarget::MainKeyboard { step: keys[0].step }),
{
    assert(keys[0].step == div_toward_zero(height, 4));
    assert(-0x8000_0000 <= div_toward_zero(height, 4) <= 0x7fff_ffff) by (nonlinear_arith)
        requires
            fits_i32(height),
    ;
}

impl PangoUi {
    /// Sets the surface size.
    pub fn set_size(&mut self, size: (i32, i32))
        ensures
            final(self)@ == size,
    {
        let (width, height) = size;
        self.width = width;
        self.height = height;
    }

    /// The surface size.
    pub fn get_size(&self) -> (size: (i32, i32))
        ensures
            size == self@,
    {
        (self.width, self.height)
    }

    /// Whether `get_key` can be asked about `pos`: it can unless the lookup
    /// would overflow `i32` or divide by zero.
    pub fn can_get_key(&self, pos: (i32, i32)) -> (ok: bool)
        ensures
            ok == key_lookup_defined(self@.0 as int, self@.1 as int, pos.0 as int, pos.1 as int),
    {
        let (pos_x, pos_y) = pos;
        let step = div_i32(self.height, 3);
        let s4: i64 = 4 * (step as i64);
        let x_1: i64 = self.width as i64 - s4;
        let x_4: i64 = self.width as i64 - step as i64;
        if s4 < i32::MIN as i64 || s4 > i32::MAX as i64 {
            return false;
        }
        if x_1 < i32::MIN as i64 || x_1 > i32::MAX as i64 {
            return false;
        }
        if x_4 < i32::MIN as i64 || x_4 > i32::MAX as i64 {
            return false;
        }
        if pos_x as i64 >= x_1 && pos_x as i64 > x_4 {
            step != 0 && !(pos_y == i32::MIN && step == -1)
        } else {
            true
        }
    }

    /// What lies under the point `pos` of the surface (see `key_lookup`).
    pub fn get_key(&self, pos: (i32, i32)) -> (target: KeyTarget)
        requires
            key_lookup_defined(self@.0 as int, self@.1 as int, pos.0 as int, pos.1 as int),
        ensures
            target == key_lookup(self@.0 as int, self@.1 as int, pos.0 as int, pos.1 as int),
    {
        let (pos_x, pos_y) = pos;
        let step = div_i32(self.height, 3);
        let x_1 = self.width - 4 * step;
        let x_4 = self.width - step;
        if pos_x < x_1 {
            let step = div_i32(self.height, 4);
            return KeyTarget::MainKeyboard { step };
        } else if pos_x > x_4 {
            if div_i32(pos_y, step) == 1 {
                return KeyTarget::Key(11);
            } else {
                return KeyTarget::NoKey;
            }
        }
        KeyTarget::SmallKeyboard { left: x_1, step }
    }
}

} // verus!
