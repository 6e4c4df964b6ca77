use vstd::prelude::*;

verus! {

/// A point in screen coordinates.
#[derive(Clone, Copy, Debug, PartialEq, Eq, Structural)]
pub struct Point {
    pub x: i32,
    pub y: i32,
}

/// A rectangle in screen coordinates, given by its edges.
#[derive(Clone, Copy, Debug, PartialEq, Eq, Structural)]
pub struct Rect {
    pub left: i32,
    pub top: i32,
    pub right: i32,
    pub bottom: i32,
}

/// A rectangle can be restored as a window's normal position when it has an area.
pub open spec fn restorable(rect: Rect) -> bool {
    rect.right > rect.left && rect.bottom > rect.top
}

/// Width and height of a rectangle fit in an `i32`.
pub open spec fn extent_fits(rect: Rect) -> bool {
    i32::MIN <= rect.right - rect.left <= i32::MAX
        && i32::MIN <= rect.bottom - rect.top <= i32::MAX
}

/// Whether a window with this normal position can be restored.
pub fn is_restorable_size(rect: &Rect) -> (r: bool)
    ensures
        r == restorable(*rect),
{
    rect.right > rect.left && rect.bottom > rect.top
}

/// Where a window stands on the screen, in each of its states: what the system
/// keeps for a window and what it is given back when the window is restored.
#[derive(Clone, Copy, Debug, PartialEq, Eq, Structural)]
pub struct WindowPlacement {
    pub flags: u32,
    pub show_cmd: u32,
    pub min_position: Point,
    pub max_position: Point,
    pub normal_position: Rect,
}

/// Truncating division by a positive divisor, as integer division of `i32` values does.
pub open spec fn trunc_div(a: int, d: int) -> int
    recommends
        d > 0,
{
    if a >= 0 {
        a / d
    } else {
        -((-a) / d)
    }
}

/// The value is an `i32`.
pub open spec fn fits_i32(v: int) -> bool {
    i32::MIN <= v <= i32::MAX
}

} // verus!
