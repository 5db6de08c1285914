//! Points and axis-aligned rectangles in ticks; `y` grows downwards.

use vstd::prelude::*;

verus! {

/// The largest magnitude of a coordinate that a host may hand to the layout:
/// ten thousand million ticks, a little over eight million pixels.
pub const COORD_LIMIT: i64 = 10_000_000_000;

#[derive(Debug, Clone, Copy, PartialEq, Eq, Structural)]
pub struct Point {
    pub x: i64,
    pub y: i64,
}

#[derive(Debug, Clone, Copy, PartialEq, Eq, Structural)]
pub struct Size {
    pub width: i64,
    pub height: i64,
}

/// A rectangle by its top-left and bottom-right corners. Nothing asks that
/// `min` lies before `max`: a bar that ends before it starts keeps its
/// negative width.
#[derive(Debug, Clone, Copy, PartialEq, Eq, Structural)]
pub struct Rect {
    pub min: Point,
    pub max: Point,
}

/// The midpoint of two coordinates, rounded down to a whole tick.
pub open spec fn midpoint(a: int, b: int) -> int {
    (a + b) / 2
}

impl Size {
    /// Neither side is negative, and both are within `COORD_LIMIT`.
    pub open spec fn within_limit(self) -> bool {
        0 <= self.width <= COORD_LIMIT && 0 <= self.height <= COORD_LIMIT
    }

    /// Whether the layout takes this size.
    pub fn is_within_limit(&self) -> (ok: bool)
        ensures
            ok == self.within_limit(),
    {
        0 <= self.width && self.width <= COORD_LIMIT && 0 <= self.height && self.height
            <= COORD_LIMIT
    }
}

impl Rect {
    /// Every coordinate is within `limit` of the origin.
    pub open spec fn within(self, limit: int) -> bool {
        &&& -limit <= self.min.x <= limit
        &&& -limit <= self.min.y <= limit
        &&& -limit <= self.max.x <= limit
        &&& -limit <= self.max.y <= limit
    }

    /// Every coordinate is within `COORD_LIMIT` of the origin.
    pub open spec fn within_limit(self) -> bool {
        self.within(COORD_LIMIT as int)
    }

    /// The two rectangles share a point, edges included.
    pub open spec fn meets(self, other: Rect) -> bool {
        &&& self.min.x <= other.max.x
        &&& other.min.x <= self.max.x
        &&& self.min.y <= other.max.y
        &&& other.min.y <= self.max.y
    }

    /// The centre, each coordinate rounded down to a whole tick.
    pub open spec fn center(self) -> Point {
        Point {
            x: midpoint(self.min.x as int, self.max.x as int) as i64,
            y: midpoint(self.min.y as int, self.max.y as int) as i64,
        }
    }

    /// Whether the layout takes this rectangle from a host.
    pub fn is_within_limit(&self) -> (ok: bool)
        ensures
            ok == self.within_limit(),
    {
        -COORD_LIMIT <= self.min.x && self.min.x <= COORD_LIMIT && -COORD_LIMIT <= self.min.y
            && self.min.y <= COORD_LIMIT && -COORD_LIMIT <= self.max.x && self.max.x
            <= COORD_LIMIT && -COORD_LIMIT <= self.max.y && self.max.y <= COORD_LIMIT
    }

    /// Whether the two rectangles share a point, edges included.
    pub fn intersects(self, other: Rect) -> (hit: bool)
        ensures
            hit == self.meets(other),
    {
        self.min.x <= other.max.x && other.min.x <= self.max.x && self.min.y <= other.max.y
            && other.min.y <= self.max.y
    }
}

/// The midpoint of two coordinates, rounded down to a whole tick.
pub fn midpoint_of(a: i64, b: i64) -> (mid: i64)
    ensures
        mid == midpoint(a as int, b as int),
{
    let sum: i128 = a as i128 + b as i128;
    if sum >= 0 {
        (sum / 2) as i64
    } else {
        (-((1 - sum) / 2)) as i64
    }
}

} // verus!
