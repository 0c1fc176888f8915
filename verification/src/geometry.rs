//! Positions, and the mapping from the pointer device's pixels to the
//! logical pixels that the widgets are laid out in.

use vstd::prelude::*;

verus! {

/// The width of the display in logical pixels.
pub const DISPLAY_WIDTH: u32 = 170;

/// The height of the display in logical pixels.
pub const DISPLAY_HEIGHT: u32 = 128;

/// The scale factor of the display: the number of device pixels that show
/// one logical pixel, on each axis.
pub const SCALE: i32 = 2;

/// A position in pixels, `x` to the right and `y` downwards.
#[derive(Clone, Copy, Debug, PartialEq, Eq, Structural)]
pub struct Point {
    pub x: i32,
    pub y: i32,
}

/// The quotient of `a` by a positive `s`, rounded toward zero.
pub open spec fn trunc_div(a: int, s: int) -> int {
    if a >= 0 {
        a / s
    } else {
        -((-a) / s)
    }
}

/// One axis of the mapping: the distance from the display's origin, in
/// logical pixels.
pub open spec fn logical_axis(device: int, origin: int, scale: int) -> int {
    trunc_div(device - origin, scale)
}

/// The logical position of a device position, axis by axis.
pub open spec fn logical_point(device: Point, origin: Point, scale: int) -> (int, int) {
    (
        logical_axis(device.x as int, origin.x as int, scale),
        logical_axis(device.y as int, origin.y as int, scale),
    )
}

/// Whether `device - origin` can be held in an `i32` on both axes.
pub open spec fn offset_fits(device: Point, origin: Point) -> bool {
    &&& i32::MIN <= device.x - origin.x <= i32::MAX
    &&& i32::MIN <= device.y - origin.y <= i32::MAX
}

/// Maps a device position to a logical one: the offset from the display's
/// on-page origin, divided by the display's scale factor and rounded toward
/// zero. A position left of or above the display maps to a negative one.
pub fn to_logical(device: Point, origin: Point, scale: i32) -> (p: Point)
    requires
        scale > 0,
        offset_fits(device, origin),
    ensures
        (p.x as int, p.y as int) == logical_point(device, origin, scale as int),
{
    Point { x: (device.x - origin.x) / scale, y: (device.y - origin.y) / scale }
}

/// At and beyond the origin, and wherever the offset is a multiple of the
/// scale, the mapping is the floor of the exact quotient.
pub proof fn lemma_logical_is_floor(device: int, origin: int, scale: int)
    requires
        scale > 0,
        device - origin >= 0 || (device - origin) % scale == 0,
    ensures
        logical_axis(device, origin, scale) == (device - origin) / scale,
{
    let a = device - origin;
    if a < 0 {
        assert(-((-a) / scale) == a / scale) by (nonlinear_arith)
            requires
                scale > 0,
                a % scale == 0,
        ;
    }
}

/// The mapping never reverses two device positions.
pub proof fn lemma_logical_monotonic(d1: int, d2: int, origin: int, scale: int)
    requires
        scale > 0,
        d1 <= d2,
    ensures
        logical_axis(d1, origin, scale) <= logical_axis(d2, origin, scale),
{
    let a = d1 - origin;
    let b = d2 - origin;
    assert(trunc_div(a, scale) <= trunc_div(b, scale)) by (nonlinear_arith)
        requires
            scale > 0,
            a <= b,
    ;
}

/// A device position on the magnified display maps into the logical display:
/// with `extent` logical pixels shown as `scale * extent` device pixels, an
/// offset inside the latter lands inside the former.
pub proof fn lemma_logical_in_extent(device: int, origin: int, scale: int, extent: int)
    requires
        scale > 0,
        0 <= device - origin < scale * extent,
    ensures
        0 <= logical_axis(device, origin, scale) < extent,
{
    let a = device - origin;
    assert(0 <= a / scale < extent) by (nonlinear_arith)
        requires
            scale > 0,
            0 <= a < scale * extent,
    ;
}

} // verus!
