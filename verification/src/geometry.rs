//! 2D points in integer world units and the squared Euclidean distance.
//!
//! The core never needs the distance itself, only comparisons of a
//! distance against a tower's range; comparing squared values keeps the
//! metric exact, with no rounding at the range boundary.

use vstd::prelude::*;

verus! {

/// A position on the map, in integer world units.
#[derive(Clone, Copy, PartialEq, Eq, Structural, Debug)]
pub struct Point {
    pub x: i32,
    pub y: i32,
}

/// The square of the Euclidean distance between `a` and `b`.
pub open spec fn dist_sq(a: Point, b: Point) -> int {
    (a.x - b.x) * (a.x - b.x) + (a.y - b.y) * (a.y - b.y)
}

/// A square of a value bounded by `m` in magnitude is bounded by `m * m`.
pub proof fn lemma_square_le(a: int, m: int)
    by (nonlinear_arith)
    requires
        -m <= a <= m,
        0 <= m,
    ensures
        0 <= a * a <= m * m,
{
}

impl Point {
    pub fn new(x: i32, y: i32) -> (p: Point)
        ensures
            p == (Point { x, y }),
    {
        Point { x, y }
    }

    /// The squared distance from `self` to `other`, computed exactly.
    pub fn distance_sq_to(&self, other: &Point) -> (d: i128)
        ensures
            d == dist_sq(*self, *other),
    {
        let dx: i64 = (self.x as i64) - (other.x as i64);
        let dy: i64 = (self.y as i64) - (other.y as i64);
        proof {
            lemma_square_le(dx as int, u32::MAX as int);
            lemma_square_le(dy as int, u32::MAX as int);
        }
        (dx as i128) * (dx as i128) + (dy as i128) * (dy as i128)
    }
}

} // verus!
