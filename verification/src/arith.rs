use vstd::prelude::*;

verus! {

/// Integer division rounding toward zero, as Rust's `/` on signed integers does.
pub open spec fn div_toward_zero(a: int, b: int) -> int {
    if a >= 0 {
        if b > 0 {
            a / b
        } else {
            -(a / (-b))
        }
    } else {
        if b > 0 {
            -((-a) / b)
        } else {
            (-a) / (-b)
        }
    }
}

/// Whether Rust's `a / b` on `i32` is defined (it panics on a zero divisor
/// and on the one quotient that does not fit).
pub open spec fn i32_div_defined(a: int, b: int) -> bool {
    b != 0 && !(a == i32::MIN && b == -1)
}

/// Whether an integer fits in an `i32`.
pub open spec fn fits_i32(v: int) -> bool {
    i32::MIN <= v <= i32::MAX
}

/// `a / b` on `i32`, rounding toward zero.
pub fn div_i32(a: i32, b: i32) -> (q: i32)
    requires
        i32_div_defined(a as int, b as int),
    ensures
        q == div_toward_zero(a as int, b as int),
{
    let ua: i64 = if a < 0 { -(a as i64) } else { a as i64 };
    let ub: i64 = if b < 0 { -(b as i64) } else { b as i64 };
    let uq: i64 = ua / ub;
    proof {
        
        assert(0 <= uq <= ua) by (nonlinear_arith)
            requires
                uq == ua / ub,
                ua >= 0,
                ub >= 1,
        ;
        if uq == ua && ua == 0x8000_0000 {
            assert(ub == 1) by (nonlinear_arith)
                requires
                    uq == ua / ub,
                    ua == 0x8000_0000,
                    ub >= 1,
                    uq == ua,
            ;
        }
    }
    let q: i64 = if (a < 0) != (b < 0) { -uq } else { uq };
    q as i32
}

} // verus!
