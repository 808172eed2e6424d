//! The edges that frame the screen.

use vstd::prelude::*;
use crate::vector::Point2D;

verus! {

/// The two ends of an edge.
pub type Margins = (Point2D, Point2D);

/// Something that runs from one point to another.
pub trait Vector {
    /// Where it starts.
    spec fn start(&self) -> Point2D;

    /// Where it ends.
    spec fn end(&self) -> Point2D;

    fn get_start(&self) -> (r: &Point2D)
        ensures
            *r == self.start(),
    ;

    fn get_end(&self) -> (r: &Point2D)
        ensures
            *r == self.end(),
    ;
}

/// Represents an edge of the gui screen
#[derive(Clone, Copy, Debug)]
pub struct Edge {
    margins: Margins,
}

impl Edge {
    /// The edge from `x` to `y`.
    pub fn new(x: Point2D, y: Point2D) -> (e: Edge)
        ensures
            e.start() == x,
            e.end() == y,
    {
        Self { margins: (x, y) }
    }
}

impl Vector for Edge {
    closed spec fn start(&self) -> Point2D {
        self.margins.0
    }

    closed spec fn end(&self) -> Point2D {
        self.margins.1
    }

    fn get_start(&self) -> (r: &Point2D) {
        &self.margins.0
    }

    fn get_end(&self) -> (r: &Point2D) {
        &self.margins.1
    }
}

} // verus!
