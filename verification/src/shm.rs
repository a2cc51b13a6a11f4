use vstd::prelude::*;
use crate::arith::fits_i32;

verus! {

/// Whether the shared-memory buffer of a surface of the given size can be
/// laid out in `i32` arithmetic: its byte size and its row stride, at four
/// bytes per pixel.
pub open spec fn buffer_layout_defined(width: int, height: int) -> bool {
    &&& fits_i32(width * height)
    &&& fits_i32(width * height * 4)
    &&& fits_i32(width * 4)
}

/// Whether `buffer_layout` can be asked about a surface of the given size.
pub fn can_lay_out_buffer(width: i32, height: i32) -> (ok: bool)
    ensures
        ok == buffer_layout_defined(width as int, height as int),
{
    proof {
        assert(-0x4000_0000_0000_0000 <= width * height <= 0x4000_0000_0000_0000)
            by (nonlinear_arith)
            requires
                -0x8000_0000 <= width <= 0x7fff_ffff,
                -0x8000_0000 <= height <= 0x7fff_ffff,
        ;
    }
    let area: i64 = width as i64 * height as i64;
    if area < i32::MIN as i64 || area > i32::MAX as i64 {
        return false;
    }
    let bytes: i64 = area * 4;
    let stride: i64 = width as i64 * 4;
    i32::MIN as i64 <= bytes && bytes <= i32::MAX as i64 && i32::MIN as i64 <= stride && stride
        <= i32::MAX as i64
}

/// The byte size and the row stride of the ARGB8888 shared-memory buffer
/// that holds a surface of the given size.
pub fn buffer_layout(width: i32, height: i32) -> (layout: (i32, i32))
    requires
        buffer_layout_defined(width as int, height as int),
    ensures
        layout.0 == width * height * 4,
        layout.1 == width * 4,
{
    (width * height * 4, width * 4)
}

} // verus!
