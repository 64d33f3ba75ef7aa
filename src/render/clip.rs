use vstd::prelude::*;

use crate::geometry::{Point, Rect};

verus! {

/// A clip rectangle that can be switched off.
///
/// When disabled it clips nothing; when enabled, drawing is limited to `rect`.
#[derive(Clone, Copy, Debug, Default, PartialEq, Eq, Structural)]
pub struct ClipRect {
    pub rect: Rect,
    pub enabled: bool,
}

impl ClipRect {
    /// An enabled clip to `rect`.
    pub fn new(rect: Rect) -> (c: ClipRect)
        ensures
            c == (ClipRect { rect, enabled: true }),
    {
        ClipRect { rect, enabled: true }
    }

    /// No clipping.
    #[allow(non_snake_case)]
    pub fn NONE() -> (c: ClipRect)
        ensures
            c == (ClipRect { rect: Rect { x: 0, y: 0, width: 0, height: 0 }, enabled: false }),
    {
        ClipRect { rect: Rect::ZERO(), enabled: false }
    }

    /// Whether pixel `(x, y)` may be drawn.
    pub fn contains(&self, x: i32, y: i32) -> (b: bool)
        ensures
            b == (!self.enabled || self.rect.holds_point(Point { x, y })),
    {
        if !self.enabled {
            return true;
        }
        self.rect.contains_point(Point { x, y })
    }

    /// The clip that allows what both allow. Two enabled clips that do not
    /// overlap give an enabled, empty clip, which allows nothing.
    pub fn intersect(&self, other: &ClipRect) -> (c: ClipRect)
        ensures
            c == if !self.enabled {
                *other
            } else if !other.enabled {
                *self
            } else {
                match self.rect.intersection_spec(other.rect) {
                    Some(r) => ClipRect { rect: r, enabled: true },
                    None => ClipRect { rect: Rect { x: 0, y: 0, width: 0, height: 0 }, enabled: true },
                }
            },
    {
        if !self.enabled {
            return *other;
        }
        if !other.enabled {
            return *self;
        }
        match self.rect.intersection(&other.rect) {
            Some(r) => ClipRect::new(r),
            None => ClipRect { rect: Rect::ZERO(), enabled: true },
        }
    }

    /// Whether the clip allows nothing at all.
    pub fn is_empty(&self) -> (b: bool)
        ensures
            b == (self.enabled && self.rect.empty()),
    {
        self.enabled && self.rect.is_empty()
    }
}

impl core::convert::From<Rect> for ClipRect {
    fn from(rect: Rect) -> (c: ClipRect) {
        ClipRect::new(rect)
    }
}

impl vstd::std_specs::convert::FromSpecImpl<Rect> for ClipRect {
    open spec fn obeys_from_spec() -> bool {
        true
    }

    open spec fn from_spec(rect: Rect) -> ClipRect {
        ClipRect { rect, enabled: true }
    }
}

/// How a new clip combines with the current one.
#[derive(Clone, Copy, Debug, PartialEq, Eq, Hash, Default, Structural)]
pub enum ClipOp {
    #[default]
    Replace,
    Intersect,
    Union,
    Subtract,
}

impl ClipOp {
    /// The stable wire code of each variant.
    pub open spec fn code(self) -> u8 {
        match self {
            ClipOp::Replace => 0,
            ClipOp::Intersect => 1,
            ClipOp::Union => 2,
            ClipOp::Subtract => 3,
        }
    }

    /// The variant whose wire code is `value`, if any.
    pub fn from_u8(value: u8) -> (r: Option<ClipOp>)
        ensures
            r is Some <==> (value <= 3),
            r matches Some(v) ==> v.code() == value,
    {
        match value {
            0 => Some(ClipOp::Replace),
            1 => Some(ClipOp::Intersect),
            2 => Some(ClipOp::Union),
            3 => Some(ClipOp::Subtract),
            _ => None,
        }
    }
}

} // verus!
