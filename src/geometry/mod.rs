//! Points, sizes, rectangles, insets and lines on the integer grid.
mod insets;
mod line;
mod point;
mod polygon;
mod rect;
mod size;

pub use insets::{EdgeInsets, Insets, Margin, Padding};
pub use line::Line;
pub use point::{half_toward_zero, Point};
pub use polygon::{FillRule, PathSegment, MAX_STATIC_POINTS};
pub use rect::{as_signed, clamp_i32, lemma_intersection_is_greatest, lemma_union_is_least, Rect};
pub use size::Size;
