//! Pointer geometry for the hold-to-unlock button.
//!
//! Coordinates are in main-screen logical points, origin at the top-left, counted in hundredths
//! of a point ([`UNITS_PER_POINT`]) so that hit tests are exact integer comparisons.
use vstd::prelude::*;

verus! {

/// Coordinate units per logical point.
pub const UNITS_PER_POINT: i32 = 100;

/// A position on the main screen, in hundredths of a logical point.
#[derive(Debug, Clone, Copy, PartialEq, Eq, Structural)]
pub struct Point {
    /// Horizontal position, growing to the right.
    pub x: i32,
    /// Vertical position, growing downwards.
    pub y: i32,
}

impl Point {
    /// Creates a point.
    pub fn new(x: i32, y: i32) -> (p: Point)
        ensures
            p == (Point { x, y }),
    {
        Point { x, y }
    }
}

/// Squared Euclidean distance between two points.
pub open spec fn dist2(a: Point, b: Point) -> int {
    (a.x - b.x) * (a.x - b.x) + (a.y - b.y) * (a.y - b.y)
}

/// Whether `p` lies within `radius` of `center` (on the circle counts as within).
pub open spec fn spec_within(center: Point, p: Point, radius: u32) -> bool {
    dist2(center, p) <= radius * radius
}

/// Whether `p` lies within `radius` of `center` (on the circle counts as within).
pub fn within(center: Point, p: Point, radius: u32) -> (b: bool)
    ensures
        b == spec_within(center, p, radius),
{
    let dx = (center.x as i128) - (p.x as i128);
    let dy = (center.y as i128) - (p.y as i128);
    assert(dx * dx <= 0x1_0000_0000i128 * 0x1_0000_0000i128) by (nonlinear_arith)
        requires -0x1_0000_0000i128 <= dx <= 0x1_0000_0000i128;
    assert(dy * dy <= 0x1_0000_0000i128 * 0x1_0000_0000i128) by (nonlinear_arith)
        requires -0x1_0000_0000i128 <= dy <= 0x1_0000_0000i128;
    assert(dx * dx >= 0 && dy * dy >= 0) by (nonlinear_arith);
    let r = radius as i128;
    assert(r * r <= 0x1_0000_0000i128 * 0x1_0000_0000i128) by (nonlinear_arith)
        requires 0 <= r <= 0x1_0000_0000i128;
    dx * dx + dy * dy <= r * r
}

} // verus!
