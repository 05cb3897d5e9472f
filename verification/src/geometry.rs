//! Integer plane geometry: points and the point-in-circle test.

use vstd::prelude::*;

verus! {

/// A position on the pixel grid.
#[derive(Clone, Copy, Debug, PartialEq, Eq, Structural)]
pub struct Point {
    pub x: i32,
    pub y: i32,
}

/// The square of the Euclidean distance between `(px, py)` and `(cx, cy)`.
pub open spec fn distance_squared(px: int, py: int, cx: int, cy: int) -> int {
    (px - cx) * (px - cx) + (py - cy) * (py - cy)
}

/// Whether `(px, py)` lies in the closed disc of the given radius around
/// `(cx, cy)`: a point at exactly the radius is inside.
pub open spec fn in_circle(px: int, py: int, cx: int, cy: int, radius: int) -> bool {
    distance_squared(px, py, cx, cy) <= radius * radius
}

proof fn lemma_square_bound(d: int, limit: int)
    requires
        -limit <= d <= limit,
    ensures
        0 <= d * d <= limit * limit,
{
    assert(0 <= d * d <= limit * limit) by (nonlinear_arith)
        requires
            -limit <= d <= limit,
    ;
}

/// Point-in-circle containment, boundary included.
pub fn point_in_circle(px: i32, py: i32, cx: i32, cy: i32, radius: i32) -> (hit: bool)
    ensures
        hit == in_circle(px as int, py as int, cx as int, cy as int, radius as int),
{
    let dx: i128 = px as i128 - cx as i128;
    let dy: i128 = py as i128 - cy as i128;
    let r: i128 = radius as i128;
    proof {
        lemma_square_bound(dx as int, 0x1_0000_0000);
        lemma_square_bound(dy as int, 0x1_0000_0000);
        lemma_square_bound(r as int, 0x1_0000_0000);
    }
    dx * dx + dy * dy <= r * r
}

} // verus!
