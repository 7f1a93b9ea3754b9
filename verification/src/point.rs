//! Positions in the drawing plane and the distance between them.

use vstd::prelude::*;

verus! {

/// A position in the drawing plane, in whole drawing units.
#[derive(Clone, Copy, Debug, PartialEq, Eq, Structural)]
pub struct Point {
    pub x: i32,
    pub y: i32,
}

/// The square of the Euclidean distance between `a` and `b`.
///
/// Distances are compared through their squares: for non-negative `d` and
/// `r`, `d <= r` holds exactly when `d * d <= r * r`, and no root is taken.
pub open spec fn distance_squared(a: Point, b: Point) -> int {
    (a.x - b.x) * (a.x - b.x) + (a.y - b.y) * (a.y - b.y)
}

/// Whether `a` lies within distance `radius` of `b`, the boundary included.
pub open spec fn within(a: Point, b: Point, radius: nat) -> bool {
    distance_squared(a, b) <= radius * radius
}

/// A square is never negative and grows with the magnitude of its root.
pub proof fn lemma_square_bounds(d: int, bound: int)
    by (nonlinear_arith)
    requires
        -bound <= d <= bound,
    ensures
        0 <= d * d <= bound * bound,
{
}

/// The squared distance is symmetric and never negative, and it is zero
/// exactly between a point and itself.
pub proof fn lemma_distance_squared_properties(a: Point, b: Point)
    ensures
        distance_squared(a, b) == distance_squared(b, a),
        distance_squared(a, b) >= 0,
        distance_squared(a, b) == 0 <==> a == b,
{
    let dx: int = a.x - b.x;
    let dy: int = a.y - b.y;
    assert(dx * dx == (-dx) * (-dx)) by (nonlinear_arith);
    assert(dy * dy == (-dy) * (-dy)) by (nonlinear_arith);
    assert(dx * dx >= 0 && (dx * dx == 0 <==> dx == 0)) by (nonlinear_arith);
    assert(dy * dy >= 0 && (dy * dy == 0 <==> dy == 0)) by (nonlinear_arith);
}

impl Point {
    /// Makes the point with the given coordinates.
    pub fn new(x: i32, y: i32) -> (p: Point)
        ensures
            p == (Point { x, y }),
    {
        Point { x, y }
    }

    /// Computes the squared distance to `other`.
    ///
    /// The result always fits: each coordinate difference is below `2^32` in
    /// magnitude, so the sum of the two squares is below `2^65`.
    pub fn distance_squared_to(&self, other: &Point) -> (d: u128)
        ensures
            d == distance_squared(*self, *other),
    {
        let dx: i128 = self.x as i128 - other.x as i128;
        let dy: i128 = self.y as i128 - other.y as i128;
        proof {
            lemma_square_bounds(dx as int, 0x1_0000_0000);
            lemma_square_bounds(dy as int, 0x1_0000_0000);
        }
        let sx: i128 = dx * dx;
        let sy: i128 = dy * dy;
        (sx + sy) as u128
    }
}

} // verus!
