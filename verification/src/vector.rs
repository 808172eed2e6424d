//! Two-dimensional positions in whole display units.

use vstd::prelude::*;
use std::ops::{Add, AddAssign};
use vstd::std_specs::ops::AddSpecImpl;

verus! {

/// The sum of two coordinates, held at the ends of the `i64` range.
pub open spec fn clamped_sum(a: int, b: int) -> int {
    if a + b > i64::MAX {
        i64::MAX as int
    } else if a + b < i64::MIN {
        i64::MIN as int
    } else {
        a + b
    }
}

/// Adds two coordinates; a sum outside the `i64` range stays at the nearest end.
pub fn clamped_add(a: i64, b: i64) -> (r: i64)
    ensures
        r == clamped_sum(a as int, b as int),
{
    if b >= 0 {
        if a > i64::MAX - b {
            i64::MAX
        } else {
            a + b
        }
    } else {
        if a < i64::MIN - b {
            i64::MIN
        } else {
            a + b
        }
    }
}

/// A position, or an offset between positions.
#[derive(Debug, Clone, Copy, PartialEq, Eq, Structural)]
pub struct Point2D {
    pub x: i64,
    pub y: i64,
}

impl Point2D {
    pub fn new(x: i64, y: i64) -> (p: Self)
        ensures
            p == (Point2D { x, y }),
    {
        Self { x, y }
    }

    /// The coordinates as `[x, y]`.
    pub fn as_vec(&self) -> (v: [i64; 2])
        ensures
            v@ == seq![self.x, self.y],
    {
        [self.x, self.y]
    }

    /// This position moved by `rhs`, coordinate by coordinate.
    pub open spec fn translated(self, rhs: Point2D) -> Point2D {
        Point2D {
            x: clamped_sum(self.x as int, rhs.x as int) as i64,
            y: clamped_sum(self.y as int, rhs.y as int) as i64,
        }
    }
}

impl AddAssign for Point2D {
    fn add_assign(&mut self, rhs: Self)
        ensures
            *final(self) == old(self).translated(rhs),
    {
        self.x = clamped_add(self.x, rhs.x);
        self.y = clamped_add(self.y, rhs.y);
    }
}

impl Add for Point2D {
    type Output = Point2D;

    fn add(self, rhs: Self) -> (r: Point2D) {
        Self { x: clamped_add(self.x, rhs.x), y: clamped_add(self.y, rhs.y) }
    }
}

impl AddSpecImpl for Point2D {
    open spec fn obeys_add_spec() -> bool {
        true
    }

    open spec fn add_req(self, rhs: Point2D) -> bool {
        true
    }

    open spec fn add_spec(self, rhs: Point2D) -> Point2D {
        self.translated(rhs)
    }
}

} // verus!
