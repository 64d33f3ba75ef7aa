use vstd::prelude::*;

use super::point::{half_toward_zero, Point};

verus! {

/// A segment between two grid points.
#[derive(Clone, Copy, Debug, Default, PartialEq, Eq, Hash, Structural)]
pub struct Line {
    pub start: Point,
    pub end: Point,
}

impl Line {
    pub fn new(start: Point, end: Point) -> (r: Line)
        ensures
            r == (Line { start, end }),
    {
        Line { start, end }
    }

    pub fn from_coords(x1: i32, y1: i32, x2: i32, y2: i32) -> (r: Line)
        ensures
            r == (Line { start: Point { x: x1, y: y1 }, end: Point { x: x2, y: y2 } }),
    {
        Line { start: Point { x: x1, y: y1 }, end: Point { x: x2, y: y2 } }
    }

    /// Squared length, accumulated in 64 bits.
    pub fn length_squared(&self) -> (r: i64)
        requires
            self.start.dist2(self.end) <= i64::MAX,
        ensures
            r == self.start.dist2(self.end),
    {
        self.start.distance_squared(&self.end)
    }

    /// Horizontal extent, `end.x - start.x`.
    pub fn dx(&self) -> (r: i32)
        requires
            i32::MIN <= self.end.x - self.start.x <= i32::MAX,
        ensures
            r == self.end.x - self.start.x,
    {
        self.end.x - self.start.x
    }

    /// Vertical extent, `end.y - start.y`.
    pub fn dy(&self) -> (r: i32)
        requires
            i32::MIN <= self.end.y - self.start.y <= i32::MAX,
        ensures
            r == self.end.y - self.start.y,
    {
        self.end.y - self.start.y
    }

    pub fn midpoint(&self) -> (r: Point)
        ensures
            r.x == half_toward_zero(self.start.x + self.end.x),
            r.y == half_toward_zero(self.start.y + self.end.y),
    {
        self.start.midpoint(&self.end)
    }

    pub fn is_horizontal(&self) -> (r: bool)
        ensures
            r == (self.start.y == self.end.y),
    {
        self.start.y == self.end.y
    }

    pub fn is_vertical(&self) -> (r: bool)
        ensures
            r == (self.start.x == self.end.x),
    {
        self.start.x == self.end.x
    }

    /// Whether both ends coincide.
    pub fn is_point(&self) -> (r: bool)
        ensures
            r == (self.start == self.end),
    {
        self.start.x == self.end.x && self.start.y == self.end.y
    }

    /// The same segment, traversed the other way.
    pub fn reverse(&self) -> (r: Line)
        ensures
            r == (Line { start: self.end, end: self.start }),
    {
        Line { start: self.end, end: self.start }
    }
}

} // verus!
