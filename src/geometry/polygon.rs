use vstd::prelude::*;

verus! {

/// Capacity of a polygon stored inline.
pub const MAX_STATIC_POINTS: usize = 16;

/// A drawing command of a path outline.
#[derive(Clone, Copy, Debug, PartialEq, Eq, Hash, Structural)]
pub enum PathSegment {
    /// Start a new sub-path.
    MoveTo,
    /// A straight segment.
    LineTo,
    /// A quadratic curve.
    QuadTo,
    /// A cubic curve.
    CubicTo,
    /// Close the sub-path.
    Close,
}

impl PathSegment {
    /// Number of points the command carries.
    pub fn point_count(&self) -> (r: usize)
        ensures
            r == match *self {
                PathSegment::MoveTo | PathSegment::LineTo => 1usize,
                PathSegment::QuadTo => 2,
                PathSegment::CubicTo => 3,
                PathSegment::Close => 0,
            },
    {
        match self {
            PathSegment::MoveTo | PathSegment::LineTo => 1,
            PathSegment::QuadTo => 2,
            PathSegment::CubicTo => 3,
            PathSegment::Close => 0,
        }
    }
}

/// How the inside of a self-crossing path is decided.
#[derive(Clone, Copy, Debug, PartialEq, Eq, Default, Hash, Structural)]
pub enum FillRule {
    /// Inside where the winding number is non-zero.
    #[default]
    NonZero,
    /// Inside where a ray crosses the outline an odd number of times.
    EvenOdd,
}

} // verus!
