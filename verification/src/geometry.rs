use vstd::prelude::*;

verus! {

/// Fixed-point units per whole coordinate step.
pub const UNIT: i32 = 1_000_000;

/// A 2-D position in fixed-point units, used both for landmark coordinates
/// and for screen coordinates.
#[derive(Clone, Copy, Debug, PartialEq, Eq, Structural)]
pub struct Point {
    pub x: i32,
    pub y: i32,
}

/// Absolute value of a mathematical integer.
pub open spec fn magnitude(v: int) -> int {
    if v < 0 {
        -v
    } else {
        v
    }
}

/// Distance between two coordinates on one axis.
pub fn gap(a: i32, b: i32) -> (g: u64)
    ensures
        g == magnitude(a - b),
        g <= 0xFFFF_FFFF,
{
    if a >= b {
        (a as i64 - b as i64) as u64
    } else {
        (b as i64 - a as i64) as u64
    }
}

impl Point {
    /// Squared Euclidean distance between two points.
    pub open spec fn dist_sq_spec(self, other: Point) -> int {
        (self.x - other.x) * (self.x - other.x) + (self.y - other.y) * (self.y - other.y)
    }

    /// Whether the point lies in `[0, width] x [0, height]`.
    pub open spec fn within_closed(self, width: int, height: int) -> bool {
        0 <= self.x <= width && 0 <= self.y <= height
    }

    /// Whether the point lies in `[0, width) x [0, height)`.
    pub open spec fn within_half_open(self, width: int, height: int) -> bool {
        0 <= self.x < width && 0 <= self.y < height
    }

    pub fn new(x: i32, y: i32) -> (p: Point)
        ensures
            p == (Point { x, y }),
    {
        Point { x, y }
    }

    pub fn zero() -> (p: Point)
        ensures
            p == (Point { x: 0, y: 0 }),
    {
        Point { x: 0, y: 0 }
    }

    /// Squared Euclidean distance to `other`, in square units.
    pub fn dist_sq(&self, other: &Point) -> (d: u128)
        ensures
            d == self.dist_sq_spec(*other),
    {
        let gx: u64 = gap(self.x, other.x);
        let gy: u64 = gap(self.y, other.y);
        proof {
            lemma_square_of_magnitude(self.x - other.x);
            lemma_square_of_magnitude(self.y - other.y);
            lemma_square_bound(gx as int, 0xFFFF_FFFF);
            lemma_square_bound(gy as int, 0xFFFF_FFFF);
        }
        let sx: u128 = (gx as u128) * (gx as u128);
        let sy: u128 = (gy as u128) * (gy as u128);
        sx + sy
    }
}

/// A number and its magnitude have the same square.
pub proof fn lemma_square_of_magnitude(v: int)
    ensures
        magnitude(v) * magnitude(v) == v * v,
{
    assert((-v) * (-v) == v * v) by (nonlinear_arith);
}

/// Squaring is monotone on the naturals.
pub proof fn lemma_square_bound(v: int, limit: int)
    requires
        0 <= v <= limit,
    ensures
        0 <= v * v <= limit * limit,
{
    assert(0 <= v * v <= limit * limit) by (nonlinear_arith)
        requires
            0 <= v <= limit,
    ;
}

} // verus!
