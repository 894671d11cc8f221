//! The rounded region of the borderless windows.
use vstd::prelude::*;

verus! {

/// The corner radius of the windows, in logical pixels.
pub const CORNER_RADIUS_LOGICAL_PX: u32 = 15;

/// `x` limited to the range of `i32`, as saturating arithmetic gives it.
pub open spec fn clamp_i32(x: int) -> i32 {
    if x > i32::MAX {
        i32::MAX
    } else if x < i32::MIN {
        i32::MIN
    } else {
        x as i32
    }
}

/// `i32::saturating_add`.
pub fn saturating_add_i32(a: i32, b: i32) -> (r: i32)
    ensures
        r == clamp_i32(a + b),
{
    let sum: i64 = a as i64 + b as i64;
    if sum > i32::MAX as i64 {
        i32::MAX
    } else if sum < i32::MIN as i64 {
        i32::MIN
    } else {
        sum as i32
    }
}

/// `i32::saturating_sub`.
pub fn saturating_sub_i32(a: i32, b: i32) -> (r: i32)
    ensures
        r == clamp_i32(a - b),
{
    let difference: i64 = a as i64 - b as i64;
    if difference > i32::MAX as i64 {
        i32::MAX
    } else if difference < i32::MIN as i64 {
        i32::MIN
    } else {
        difference as i32
    }
}

/// The client area in window coordinates, as the corners of a region: the
/// client origin relative to the window's top left, and one past the client
/// size, all with saturating arithmetic. Borderless windows keep an
/// invisible frame, so the region starts at the client origin.
pub fn client_region_bounds(
    window_left: i32,
    window_top: i32,
    client_screen_x: i32,
    client_screen_y: i32,
    client_width: i32,
    client_height: i32,
) -> (r: (i32, i32, i32, i32))
    ensures
        r.0 == clamp_i32(client_screen_x - window_left),
        r.1 == clamp_i32(client_screen_y - window_top),
        r.2 == clamp_i32(clamp_i32(r.0 + client_width) + 1),
        r.3 == clamp_i32(clamp_i32(r.1 + client_height) + 1),
{
    let left = saturating_sub_i32(client_screen_x, window_left);
    let top = saturating_sub_i32(client_screen_y, window_top);
    (
        left,
        top,
        saturating_add_i32(saturating_add_i32(left, client_width), 1),
        saturating_add_i32(saturating_add_i32(top, client_height), 1),
    )
}

} // verus!
