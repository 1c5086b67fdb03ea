//! Integer geometry: positions, extents and axis-aligned rectangles.
//!
//! All coordinates are logical units. Arithmetic on rectangles is proved
//! free of overflow by keeping every coordinate inside `COORD_LIMIT`, a
//! bound far beyond any realistic screen size.

use vstd::prelude::*;

verus! {

/// Largest magnitude a logical coordinate may have.
pub const COORD_LIMIT: i64 = 1_073_741_824;

/// A point in logical screen coordinates.
#[derive(Clone, Copy, PartialEq, Eq, Structural, Debug)]
pub struct Pos {
    pub x: i64,
    pub y: i64,
}

/// A two-dimensional extent or offset in logical units.
#[derive(Clone, Copy, PartialEq, Eq, Structural, Debug)]
pub struct Vec2 {
    pub x: i64,
    pub y: i64,
}

/// An axis-aligned rectangle given by its two corners.
///
/// The rectangle is closed: both corners belong to it.
#[derive(Clone, Copy, PartialEq, Eq, Structural, Debug)]
pub struct Rect {
    pub min: Pos,
    pub max: Pos,
}

impl Pos {
    /// Both coordinates lie within `COORD_LIMIT`.
    pub open spec fn in_bounds(self) -> bool {
        -COORD_LIMIT <= self.x <= COORD_LIMIT && -COORD_LIMIT <= self.y <= COORD_LIMIT
    }

    pub fn new(x: i64, y: i64) -> (r: Pos)
        ensures
            r == (Pos { x, y }),
    {
        Pos { x, y }
    }
}

impl Vec2 {
    /// Both components lie within `COORD_LIMIT`.
    pub open spec fn in_bounds(self) -> bool {
        -COORD_LIMIT <= self.x <= COORD_LIMIT && -COORD_LIMIT <= self.y <= COORD_LIMIT
    }

    pub fn new(x: i64, y: i64) -> (r: Vec2)
        ensures
            r == (Vec2 { x, y }),
    {
        Vec2 { x, y }
    }
}

impl Rect {
    /// All four coordinates lie within `COORD_LIMIT`.
    pub open spec fn in_bounds(self) -> bool {
        self.min.in_bounds() && self.max.in_bounds()
    }

    /// The point lies inside the (closed) rectangle.
    pub open spec fn spec_contains(self, p: Pos) -> bool {
        self.min.x <= p.x <= self.max.x && self.min.y <= p.y <= self.max.y
    }

    /// `other` lies entirely inside `self`.
    pub open spec fn spec_contains_rect(self, other: Rect) -> bool {
        self.min.x <= other.min.x && other.max.x <= self.max.x && self.min.y <= other.min.y
            && other.max.y <= self.max.y
    }

    /// The rectangle has positive width and height.
    pub open spec fn spec_is_positive(self) -> bool {
        self.min.x < self.max.x && self.min.y < self.max.y
    }

    pub fn new(min: Pos, max: Pos) -> (r: Rect)
        ensures
            r == (Rect { min, max }),
    {
        Rect { min, max }
    }

    /// The rectangle spanning from the origin corner by the given size.
    pub fn from_min_size(min: Pos, size: Vec2) -> (r: Rect)
        requires
            min.in_bounds(),
            size.in_bounds(),
            0 <= size.x,
            0 <= size.y,
        ensures
            r.min == min,
            r.max.x == min.x + size.x,
            r.max.y == min.y + size.y,
    {
        Rect { min, max: Pos { x: min.x + size.x, y: min.y + size.y } }
    }

    /// Whether all four coordinates lie within `COORD_LIMIT`.
    pub fn bounds_ok(&self) -> (r: bool)
        ensures
            r == self.in_bounds(),
    {
        -COORD_LIMIT <= self.min.x && self.min.x <= COORD_LIMIT && -COORD_LIMIT <= self.min.y
            && self.min.y <= COORD_LIMIT && -COORD_LIMIT <= self.max.x && self.max.x <= COORD_LIMIT
            && -COORD_LIMIT <= self.max.y && self.max.y <= COORD_LIMIT
    }

    pub fn contains(&self, p: Pos) -> (r: bool)
        ensures
            r == self.spec_contains(p),
    {
        self.min.x <= p.x && p.x <= self.max.x && self.min.y <= p.y && p.y <= self.max.y
    }

    pub fn contains_rect(&self, other: &Rect) -> (r: bool)
        ensures
            r == self.spec_contains_rect(*other),
    {
        self.min.x <= other.min.x && other.max.x <= self.max.x && self.min.y <= other.min.y
            && other.max.y <= self.max.y
    }

    pub fn is_positive(&self) -> (r: bool)
        ensures
            r == self.spec_is_positive(),
    {
        self.min.x < self.max.x && self.min.y < self.max.y
    }

    /// Intersection: the largest rectangle contained in both inputs.
    ///
    /// If the inputs do not overlap the result is not positive.
    pub fn intersect(&self, other: &Rect) -> (r: Rect)
        ensures
            r.min.x == if self.min.x >= other.min.x {
                self.min.x
            } else {
                other.min.x
            },
            r.min.y == if self.min.y >= other.min.y {
                self.min.y
            } else {
                other.min.y
            },
            r.max.x == if self.max.x <= other.max.x {
                self.max.x
            } else {
                other.max.x
            },
            r.max.y == if self.max.y <= other.max.y {
                self.max.y
            } else {
                other.max.y
            },
            forall|p: Pos| r.spec_contains(p) <==> self.spec_contains(p) && other.spec_contains(p),
    {
        Rect {
            min: Pos {
                x: if self.min.x >= other.min.x {
                    self.min.x
                } else {
                    other.min.x
                },
                y: if self.min.y >= other.min.y {
                    self.min.y
                } else {
                    other.min.y
                },
            },
            max: Pos {
                x: if self.max.x <= other.max.x {
                    self.max.x
                } else {
                    other.max.x
                },
                y: if self.max.y <= other.max.y {
                    self.max.y
                } else {
                    other.max.y
                },
            },
        }
    }

    /// Smallest rectangle containing both inputs.
    pub fn union(&self, other: &Rect) -> (r: Rect)
        ensures
            r.min.x == if self.min.x <= other.min.x {
                self.min.x
            } else {
                other.min.x
            },
            r.min.y == if self.min.y <= other.min.y {
                self.min.y
            } else {
                other.min.y
            },
            r.max.x == if self.max.x >= other.max.x {
                self.max.x
            } else {
                other.max.x
            },
            r.max.y == if self.max.y >= other.max.y {
                self.max.y
            } else {
                other.max.y
            },
    {
        Rect {
            min: Pos {
                x: if self.min.x <= other.min.x {
                    self.min.x
                } else {
                    other.min.x
                },
                y: if self.min.y <= other.min.y {
                    self.min.y
                } else {
                    other.min.y
                },
            },
            max: Pos {
                x: if self.max.x >= other.max.x {
                    self.max.x
                } else {
                    other.max.x
                },
                y: if self.max.y >= other.max.y {
                    self.max.y
                } else {
                    other.max.y
                },
            },
        }
    }

    /// Grow the rectangle by `ax` horizontally and `ay` vertically on each side.
    pub fn expand2(&self, ax: i64, ay: i64) -> (r: Rect)
        requires
            self.in_bounds(),
            0 <= ax <= COORD_LIMIT,
            0 <= ay <= COORD_LIMIT,
        ensures
            r.min.x == self.min.x - ax,
            r.min.y == self.min.y - ay,
            r.max.x == self.max.x + ax,
            r.max.y == self.max.y + ay,
    {
        Rect {
            min: Pos { x: self.min.x - ax, y: self.min.y - ay },
            max: Pos { x: self.max.x + ax, y: self.max.y + ay },
        }
    }

    /// Grow the rectangle by the same amount on all four sides.
    pub fn expand(&self, amount: i64) -> (r: Rect)
        requires
            self.in_bounds(),
            0 <= amount <= COORD_LIMIT,
        ensures
            r.min.x == self.min.x - amount,
            r.min.y == self.min.y - amount,
            r.max.x == self.max.x + amount,
            r.max.y == self.max.y + amount,
    {
        self.expand2(amount, amount)
    }
}

} // verus!
