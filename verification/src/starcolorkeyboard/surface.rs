use vstd::prelude::*;

verus! {

/// The height that the keyboard's layer surface asks for and the exclusive
/// zone it reserves: those of the minimized keyboard (`minimized`) when it is
/// minimized, else the full keyboard height, asked for as `u32`.
pub open spec fn layer_extent_of(is_min: bool, minimized: (u32, i32), full_height: i32) -> (
    u32,
    i32,
) {
    if is_min {
        minimized
    } else {
        (full_height as u32, full_height)
    }
}

/// The height request and exclusive zone of the keyboard's layer surface
/// (see `layer_extent_of`).
pub fn layer_extent(is_min: bool, minimized: (u32, i32), full_height: i32) -> (extent: (u32, i32))
    ensures
        extent == layer_extent_of(is_min, minimized, full_height),
{
    if is_min {
        minimized
    } else {
        (full_height as u32, full_height)
    }
}

} // verus!
