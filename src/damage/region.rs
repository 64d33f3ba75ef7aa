use vstd::prelude::*;

use crate::geometry::{as_signed, Rect};

verus! {

/// A rectangle of a surface that must be composed again.
#[derive(Clone, Copy, Debug, Default, PartialEq, Eq, Structural)]
pub struct DamageRegion {
    pub rect: Rect,
}

impl DamageRegion {
    pub fn new(rect: Rect) -> (d: DamageRegion)
        ensures
            d.rect == rect,
    {
        DamageRegion { rect }
    }

    pub fn from_coords(x: i32, y: i32, width: u32, height: u32) -> (d: DamageRegion)
        ensures
            d.rect == (Rect { x, y, width, height }),
    {
        DamageRegion { rect: Rect { x, y, width, height } }
    }

    /// No damage.
    #[allow(non_snake_case)]
    pub fn EMPTY() -> (d: DamageRegion)
        ensures
            d.rect == (Rect { x: 0, y: 0, width: 0, height: 0 }),
    {
        DamageRegion { rect: Rect::ZERO() }
    }

    pub fn is_empty(&self) -> (b: bool)
        ensures
            b == self.rect.empty(),
    {
        self.rect.is_empty()
    }

    pub fn area(&self) -> (n: u64)
        ensures
            n == self.rect.width * self.rect.height,
    {
        self.rect.area()
    }

    /// The bounding box of both regions.
    pub fn union(&self, other: &DamageRegion) -> (d: DamageRegion)
        ensures
            d.rect == self.rect.union_spec(other.rect),
    {
        DamageRegion { rect: self.rect.union(&other.rect) }
    }

    /// The overlap of both regions, when it has area.
    pub fn intersection(&self, other: &DamageRegion) -> (d: Option<DamageRegion>)
        ensures
            d == match self.rect.intersection_spec(other.rect) {
                Some(r) => Some(DamageRegion { rect: r }),
                None => None,
            },
    {
        match self.rect.intersection(&other.rect) {
            Some(r) => Some(DamageRegion { rect: r }),
            None => None,
        }
    }

    /// Whether the regions share a pixel; an empty region intersects nothing.
    pub fn intersects(&self, other: &DamageRegion) -> (b: bool)
        ensures
            b == self.rect.meets(other.rect),
    {
        self.rect.intersects(&other.rect)
    }

    pub fn offset(&self, dx: i32, dy: i32) -> (d: DamageRegion)
        requires
            i32::MIN <= self.rect.x + dx <= i32::MAX,
            i32::MIN <= self.rect.y + dy <= i32::MAX,
        ensures
            d.rect == (Rect {
                x: (self.rect.x + dx) as i32,
                y: (self.rect.y + dy) as i32,
                width: self.rect.width,
                height: self.rect.height,
            }),
    {
        DamageRegion { rect: self.rect.offset(dx, dy) }
    }

    /// The region grown by `amount` on every side.
    pub fn expand(&self, amount: i32) -> (d: DamageRegion)
        requires
            i32::MIN <= self.rect.x - amount <= i32::MAX,
            i32::MIN <= self.rect.y - amount <= i32::MAX,
            i32::MIN <= 2 * amount <= i32::MAX,
            i32::MIN <= as_signed(self.rect.width) + 2 * amount <= i32::MAX,
            i32::MIN <= as_signed(self.rect.height) + 2 * amount <= i32::MAX,
        ensures
            d.rect.x == self.rect.x - amount,
            d.rect.y == self.rect.y - amount,
            d.rect.width == if as_signed(self.rect.width) + 2 * amount >= 0 {
                as_signed(self.rect.width) + 2 * amount
            } else {
                0
            },
            d.rect.height == if as_signed(self.rect.height) + 2 * amount >= 0 {
                as_signed(self.rect.height) + 2 * amount
            } else {
                0
            },
    {
        DamageRegion { rect: self.rect.expand(amount) }
    }
}

impl core::convert::From<Rect> for DamageRegion {
    fn from(rect: Rect) -> (d: DamageRegion) {
        DamageRegion { rect }
    }
}

impl vstd::std_specs::convert::FromSpecImpl<Rect> for DamageRegion {
    open spec fn obeys_from_spec() -> bool {
        true
    }

    open spec fn from_spec(rect: Rect) -> DamageRegion {
        DamageRegion { rect }
    }
}

impl core::convert::From<DamageRegion> for Rect {
    fn from(region: DamageRegion) -> (r: Rect) {
        region.rect
    }
}

impl vstd::std_specs::convert::FromSpecImpl<DamageRegion> for Rect {
    open spec fn obeys_from_spec() -> bool {
        true
    }

    open spec fn from_spec(region: DamageRegion) -> Rect {
        region.rect
    }
}

/// What changed on a surface since the last frame.
#[derive(Clone, Copy, Debug, PartialEq, Eq, Hash, Default, Structural)]
pub enum DamageHint {
    /// Recompose the whole surface.
    #[default]
    Full,
    /// Nothing changed.
    Unchanged,
    /// Only the damaged regions changed.
    Partial,
    /// The content scrolled.
    Scroll,
}

impl DamageHint {
    /// The stable wire code of each variant.
    pub open spec fn code(self) -> u8 {
        match self {
            DamageHint::Full => 0,
            DamageHint::Unchanged => 1,
            DamageHint::Partial => 2,
            DamageHint::Scroll => 3,
        }
    }

    /// The display name of each variant.
    pub open spec fn label(self) -> &'static str {
        match self {
            DamageHint::Full => "Full",
            DamageHint::Unchanged => "None",
            DamageHint::Partial => "Partial",
            DamageHint::Scroll => "Scroll",
        }
    }

    /// The variant whose wire code is `value`, if any.
    pub fn from_u8(value: u8) -> (r: Option<DamageHint>)
        ensures
            r is Some <==> (value <= 3),
            r matches Some(v) ==> v.code() == value,
    {
        match value {
            0 => Some(DamageHint::Full),
            1 => Some(DamageHint::Unchanged),
            2 => Some(DamageHint::Partial),
            3 => Some(DamageHint::Scroll),
            _ => None,
        }
    }

    /// The display name.
    pub fn name(&self) -> (r: &'static str)
        ensures
            r@ == self.label()@,
    {
        match self {
            DamageHint::Full => "Full",
            DamageHint::Unchanged => "None",
            DamageHint::Partial => "Partial",
            DamageHint::Scroll => "Scroll",
        }
    }

    /// Whether the surface must be composed again.
    pub fn needs_compose(&self) -> (r: bool)
        ensures
            r == !(*self == DamageHint::Unchanged),
    {
        !matches!(self, DamageHint::Unchanged)
    }
}

} // verus!
