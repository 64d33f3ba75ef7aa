use vstd::prelude::*;

use super::point::{half_toward_zero, Point};
use super::size::Size;

verus! {

/// `v` clamped into the range of `i32`.
pub open spec fn clamp_i32(v: int) -> int {
    if v > i32::MAX {
        i32::MAX as int
    } else if v < i32::MIN {
        i32::MIN as int
    } else {
        v
    }
}

/// The value of `w as i32`: the same 32 bits read as a signed number.
pub open spec fn as_signed(w: u32) -> int {
    if w <= i32::MAX {
        w as int
    } else {
        w - 0x1_0000_0000
    }
}

/// `w as i32`, widened to 64 bits.
fn signed(w: u32) -> (r: i64)
    ensures
        r == as_signed(w),
{
    if w <= 0x7fff_ffff {
        w as i64
    } else {
        w as i64 - 0x1_0000_0000
    }
}

/// `x.saturating_add(w as i32)`: the far edge of a span that starts at `x`.
fn far_edge(x: i32, w: u32) -> (r: i32)
    ensures
        r == clamp_i32(x + as_signed(w)),
{
    let s: i64 = x as i64 + signed(w);
    if s > 0x7fff_ffff {
        i32::MAX
    } else if s < -0x8000_0000 {
        i32::MIN
    } else {
        s as i32
    }
}

/// An axis-aligned rectangle: a signed origin and an unsigned size.
///
/// It covers the half-open area `[x, right) × [y, bottom)`, where the far
/// edges are computed with saturating addition.
#[derive(Clone, Copy, Debug, Default, PartialEq, Eq, Hash, Structural)]
pub struct Rect {
    pub x: i32,
    pub y: i32,
    pub width: u32,
    pub height: u32,
}

impl Rect {
    /// The exclusive right edge.
    pub open spec fn right_edge(self) -> int {
        clamp_i32(self.x + as_signed(self.width))
    }

    /// The exclusive bottom edge.
    pub open spec fn bottom_edge(self) -> int {
        clamp_i32(self.y + as_signed(self.height))
    }

    pub open spec fn empty(self) -> bool {
        self.width == 0 || self.height == 0
    }

    pub open spec fn holds_point(self, p: Point) -> bool {
        self.x <= p.x < self.right_edge() && self.y <= p.y < self.bottom_edge()
    }

    /// `o`'s edges lie within this rectangle's edges.
    pub open spec fn encloses(self, o: Rect) -> bool {
        &&& o.x >= self.x
        &&& o.y >= self.y
        &&& o.right_edge() <= self.right_edge()
        &&& o.bottom_edge() <= self.bottom_edge()
    }

    /// The two rectangles share a pixel: each extends past its own origin,
    /// and they overlap on both axes. An empty rectangle meets nothing.
    pub open spec fn meets(self, o: Rect) -> bool {
        &&& self.x < self.right_edge()
        &&& o.x < o.right_edge()
        &&& self.y < self.bottom_edge()
        &&& o.y < o.bottom_edge()
        &&& self.x < o.right_edge()
        &&& self.right_edge() > o.x
        &&& self.y < o.bottom_edge()
        &&& self.bottom_edge() > o.y
    }

    /// The largest rectangle inside both, when it has positive area.
    pub open spec fn intersection_spec(self, o: Rect) -> Option<Rect> {
        let x1 = if self.x >= o.x { self.x } else { o.x };
        let y1 = if self.y >= o.y { self.y } else { o.y };
        let x2 = if self.right_edge() <= o.right_edge() { self.right_edge() } else { o.right_edge() };
        let y2 = if self.bottom_edge() <= o.bottom_edge() { self.bottom_edge() } else { o.bottom_edge() };
        if x1 < x2 && y1 < y2 {
            Some(Rect { x: x1, y: y1, width: (x2 - x1) as u32, height: (y2 - y1) as u32 })
        } else {
            None
        }
    }

    /// The bounding box of both; an empty operand contributes nothing.
    pub open spec fn union_spec(self, o: Rect) -> Rect {
        if self.empty() {
            o
        } else if o.empty() {
            self
        } else {
            let x1 = if self.x <= o.x { self.x } else { o.x };
            let y1 = if self.y <= o.y { self.y } else { o.y };
            let x2 = if self.right_edge() >= o.right_edge() { self.right_edge() } else { o.right_edge() };
            let y2 = if self.bottom_edge() >= o.bottom_edge() { self.bottom_edge() } else { o.bottom_edge() };
            Rect { x: x1, y: y1, width: (x2 - x1) as u32, height: (y2 - y1) as u32 }
        }
    }

    pub fn new(x: i32, y: i32, width: u32, height: u32) -> (r: Rect)
        ensures
            r == (Rect { x, y, width, height }),
    {
        Rect { x, y, width, height }
    }

    /// The empty rectangle at the origin.
    #[allow(non_snake_case)]
    pub fn ZERO() -> (r: Rect)
        ensures
            r == (Rect { x: 0, y: 0, width: 0, height: 0 }),
    {
        Rect { x: 0, y: 0, width: 0, height: 0 }
    }

    /// A rectangle of the given size at the origin.
    pub fn from_size(size: Size) -> (r: Rect)
        ensures
            r == (Rect { x: 0, y: 0, width: size.width, height: size.height }),
    {
        Rect { x: 0, y: 0, width: size.width, height: size.height }
    }

    pub fn from_point_size(point: Point, size: Size) -> (r: Rect)
        ensures
            r == (Rect { x: point.x, y: point.y, width: size.width, height: size.height }),
    {
        Rect { x: point.x, y: point.y, width: size.width, height: size.height }
    }

    /// The rectangle spanned by two opposite corners.
    pub fn from_points(p1: Point, p2: Point) -> (r: Rect)
        ensures
            r.x == if p1.x <= p2.x { p1.x } else { p2.x },
            r.y == if p1.y <= p2.y { p1.y } else { p2.y },
            r.width == if p1.x <= p2.x { p2.x - p1.x } else { p1.x - p2.x },
            r.height == if p1.y <= p2.y { p2.y - p1.y } else { p1.y - p2.y },
    {
        let x1 = if p1.x <= p2.x { p1.x } else { p2.x };
        let y1 = if p1.y <= p2.y { p1.y } else { p2.y };
        let x2 = if p1.x <= p2.x { p2.x } else { p1.x };
        let y2 = if p1.y <= p2.y { p2.y } else { p1.y };
        Rect {
            x: x1,
            y: y1,
            width: (x2 as i64 - x1 as i64) as u32,
            height: (y2 as i64 - y1 as i64) as u32,
        }
    }

    pub fn origin(&self) -> (r: Point)
        ensures
            r == (Point { x: self.x, y: self.y }),
    {
        Point { x: self.x, y: self.y }
    }

    pub fn size(&self) -> (r: Size)
        ensures
            r == (Size { width: self.width, height: self.height }),
    {
        Size { width: self.width, height: self.height }
    }

    pub fn left(&self) -> (r: i32)
        ensures
            r == self.x,
    {
        self.x
    }

    pub fn top(&self) -> (r: i32)
        ensures
            r == self.y,
    {
        self.y
    }

    /// The exclusive right edge, `x + width` saturated to the `i32` range.
    pub fn right(&self) -> (r: i32)
        ensures
            r == self.right_edge(),
    {
        far_edge(self.x, self.width)
    }

    /// The exclusive bottom edge, `y + height` saturated to the `i32` range.
    pub fn bottom(&self) -> (r: i32)
        ensures
            r == self.bottom_edge(),
    {
        far_edge(self.y, self.height)
    }

    /// The centre, each half size rounded toward zero.
    pub fn center(&self) -> (r: Point)
        requires
            i32::MIN <= self.x + half_toward_zero(as_signed(self.width)) <= i32::MAX,
            i32::MIN <= self.y + half_toward_zero(as_signed(self.height)) <= i32::MAX,
        ensures
            r.x == self.x + half_toward_zero(as_signed(self.width)),
            r.y == self.y + half_toward_zero(as_signed(self.height)),
    {
        let hw = half_span(self.width);
        let hh = half_span(self.height);
        Point { x: (self.x as i64 + hw) as i32, y: (self.y as i64 + hh) as i32 }
    }

    pub fn is_empty(&self) -> (r: bool)
        ensures
            r == self.empty(),
    {
        self.width == 0 || self.height == 0
    }

    /// Number of pixels covered, in 64 bits.
    pub fn area(&self) -> (r: u64)
        ensures
            r == self.width * self.height,
    {
        assert(self.width * self.height <= u32::MAX * u32::MAX) by (nonlinear_arith);
        self.width as u64 * self.height as u64
    }

    /// Whether `p` lies in `[x, right) × [y, bottom)`.
    pub fn contains_point(&self, p: Point) -> (r: bool)
        ensures
            r == self.holds_point(p),
    {
        p.x >= self.x && p.x < self.right() && p.y >= self.y && p.y < self.bottom()
    }

    /// Whether `other` lies entirely within this rectangle.
    pub fn contains_rect(&self, other: &Rect) -> (r: bool)
        ensures
            r == self.encloses(*other),
    {
        other.x >= self.x && other.y >= self.y && other.right() <= self.right() && other.bottom()
            <= self.bottom()
    }

    /// Whether the two rectangles share a pixel.
    ///
    /// A rectangle whose far edge does not lie beyond its origin (an empty
    /// one, for instance) covers no pixel and so intersects nothing, even when
    /// it lies inside the other one; this keeps `intersects` false exactly
    /// when `intersection` is `None`. The plain edge comparison alone would
    /// report such a rectangle as intersecting.
    pub fn intersects(&self, other: &Rect) -> (r: bool)
        ensures
            r == self.meets(*other),
    {
        let (sr, sb, orr, ob) = (self.right(), self.bottom(), other.right(), other.bottom());
        self.x < sr && other.x < orr && self.y < sb && other.y < ob && self.x < orr && sr > other.x
            && self.y < ob && sb > other.y
    }

    /// The overlap of the two rectangles; `None` when it has no area.
    pub fn intersection(&self, other: &Rect) -> (r: Option<Rect>)
        ensures
            r == self.intersection_spec(*other),
    {
        let x1 = if self.x >= other.x { self.x } else { other.x };
        let y1 = if self.y >= other.y { self.y } else { other.y };
        let (sr, orr) = (self.right(), other.right());
        let (sb, ob) = (self.bottom(), other.bottom());
        let x2 = if sr <= orr { sr } else { orr };
        let y2 = if sb <= ob { sb } else { ob };
        if x1 < x2 && y1 < y2 {
            Some(Rect { x: x1, y: y1, width: (x2 as i64 - x1 as i64) as u32, height: (y2 as i64 - y1 as i64) as u32 })
        } else {
            None
        }
    }

    /// The bounding box of both rectangles; an empty operand yields the other one.
    pub fn union(&self, other: &Rect) -> (r: Rect)
        ensures
            r == self.union_spec(*other),
    {
        if self.is_empty() {
            return *other;
        }
        if other.is_empty() {
            return *self;
        }
        let x1 = if self.x <= other.x { self.x } else { other.x };
        let y1 = if self.y <= other.y { self.y } else { other.y };
        let (sr, orr) = (self.right(), other.right());
        let (sb, ob) = (self.bottom(), other.bottom());
        let x2 = if sr >= orr { sr } else { orr };
        let y2 = if sb >= ob { sb } else { ob };
        let w: i64 = x2 as i64 - x1 as i64;
        let h: i64 = y2 as i64 - y1 as i64;
        Rect { x: x1, y: y1, width: #[verifier::truncate] (w as u32), height: #[verifier::truncate] (h as u32) }
    }

    /// This rectangle moved by `(dx, dy)`.
    pub fn offset(&self, dx: i32, dy: i32) -> (r: Rect)
        requires
            i32::MIN <= self.x + dx <= i32::MAX,
            i32::MIN <= self.y + dy <= i32::MAX,
        ensures
            r == (
                Rect { x: (self.x + dx) as i32, y: (self.y + dy) as i32, width: self.width, height: self.height }
            ),
    {
        Rect { x: self.x + dx, y: self.y + dy, width: self.width, height: self.height }
    }

    /// The rectangle grown by `amount` on every side; a side that would turn
    /// negative becomes zero.
    pub fn expand(&self, amount: i32) -> (r: Rect)
        requires
            i32::MIN <= self.x - amount <= i32::MAX,
            i32::MIN <= self.y - amount <= i32::MAX,
            i32::MIN <= 2 * amount <= i32::MAX,
            i32::MIN <= as_signed(self.width) + 2 * amount <= i32::MAX,
            i32::MIN <= as_signed(self.height) + 2 * amount <= i32::MAX,
        ensures
            r.x == self.x - amount,
            r.y == self.y - amount,
            r.width == if as_signed(self.width) + 2 * amount >= 0 { as_signed(self.width) + 2 * amount } else { 0 },
            r.height == if as_signed(self.height) + 2 * amount >= 0 { as_signed(self.height) + 2 * amount } else { 0 },
    {
        let w: i64 = signed(self.width) + 2 * amount as i64;
        let h: i64 = signed(self.height) + 2 * amount as i64;
        Rect {
            x: self.x - amount,
            y: self.y - amount,
            width: if w >= 0 { w as u32 } else { 0 },
            height: if h >= 0 { h as u32 } else { 0 },
        }
    }

    /// The rectangle moved in by `amount` on every side.
    pub fn shrink(&self, amount: i32) -> (r: Rect)
        requires
            amount != i32::MIN,
            i32::MIN <= self.x + amount <= i32::MAX,
            i32::MIN <= self.y + amount <= i32::MAX,
            i32::MIN <= -2 * amount <= i32::MAX,
            i32::MIN <= as_signed(self.width) - 2 * amount <= i32::MAX,
            i32::MIN <= as_signed(self.height) - 2 * amount <= i32::MAX,
        ensures
            r.x == self.x + amount,
            r.y == self.y + amount,
            r.width == if as_signed(self.width) - 2 * amount >= 0 { as_signed(self.width) - 2 * amount } else { 0 },
            r.height == if as_signed(self.height) - 2 * amount >= 0 { as_signed(self.height) - 2 * amount } else { 0 },
    {
        self.expand(-amount)
    }

    /// Cuts the rectangle at `at` pixels from its left edge (at most its width).
    pub fn split_horizontal(&self, at: u32) -> (r: (Rect, Rect))
        requires
            i32::MIN <= self.x + as_signed(if at <= self.width { at } else { self.width }) <= i32::MAX,
        ensures
            ({
                let a = if at <= self.width { at } else { self.width };
                &&& r.0 == (Rect { x: self.x, y: self.y, width: a, height: self.height })
                &&& r.1 == (Rect {
                    x: (self.x + as_signed(a)) as i32,
                    y: self.y,
                    width: (self.width - a) as u32,
                    height: self.height,
                })
            }),
    {
        let a = if at <= self.width { at } else { self.width };
        (
            Rect { x: self.x, y: self.y, width: a, height: self.height },
            Rect { x: (self.x as i64 + signed(a)) as i32, y: self.y, width: self.width - a, height: self.height },
        )
    }

    /// Cuts the rectangle at `at` pixels from its top edge (at most its height).
    pub fn split_vertical(&self, at: u32) -> (r: (Rect, Rect))
        requires
            i32::MIN <= self.y + as_signed(if at <= self.height { at } else { self.height }) <= i32::MAX,
        ensures
            ({
                let a = if at <= self.height { at } else { self.height };
                &&& r.0 == (Rect { x: self.x, y: self.y, width: self.width, height: a })
                &&& r.1 == (Rect {
                    x: self.x,
                    y: (self.y + as_signed(a)) as i32,
                    width: self.width,
                    height: (self.height - a) as u32,
                })
            }),
    {
        let a = if at <= self.height { at } else { self.height };
        (
            Rect { x: self.x, y: self.y, width: self.width, height: a },
            Rect { x: self.x, y: (self.y as i64 + signed(a)) as i32, width: self.width, height: self.height - a },
        )
    }
}

/// `(w as i32) / 2` in Rust's rounding, widened to 64 bits.
fn half_span(w: u32) -> (r: i64)
    ensures
        r == half_toward_zero(as_signed(w)),
        -0x4000_0000 <= r <= 0x4000_0000,
{
    if w <= 0x7fff_ffff {
        (w / 2) as i64
    } else {
        let n: u32 = ((0x1_0000_0000u64 - w as u64) as u32);
        -((n / 2) as i64)
    }
}

/// A span between `-2^31` and `2^31`, truncated to 32 bits, reads back as itself.
proof fn lemma_span_round_trip(d: int)
    requires
        -0x8000_0000 <= d < 0x8000_0000,
    ensures
        as_signed(d as u32) == d,
{
    if d < 0 {
        let e = d as i64;
        assert((e as u32) as i64 == e + 0x1_0000_0000i64) by (bit_vector)
            requires
                -0x8000_0000i64 <= e < 0i64,
        ;
    }
}

/// Intersection law: for any two rectangles, the intersection exists exactly
/// when they intersect; it then lies inside both, and every rectangle that lies
/// inside both lies inside it.
pub proof fn lemma_intersection_is_greatest(r1: Rect, r2: Rect)
    ensures
        (r1.intersection_spec(r2) is None) == !r1.meets(r2),
        r1.intersection_spec(r2) matches Some(i) ==> {
            &&& r1.encloses(i)
            &&& r2.encloses(i)
            &&& forall|c: Rect| r1.encloses(c) && r2.encloses(c) ==> #[trigger] i.encloses(c)
        },
{
    if let Some(i) = r1.intersection_spec(r2) {
        assert(as_signed(r1.width) == r1.width);
        assert(as_signed(r2.width) == r2.width);
        assert(as_signed(r1.height) == r1.height);
        assert(as_signed(r2.height) == r2.height);
        assert(as_signed(i.width) == i.width);
        assert(as_signed(i.height) == i.height);
    }
}

/// Union law: the union of two rectangles encloses both and lies inside every
/// rectangle that encloses both. An empty operand is dropped, so it must lie
/// inside the other one; for two non-empty operands the bounding box must
/// span less than `2^31` on each axis, or its size cannot be held.
pub proof fn lemma_union_is_least(r1: Rect, r2: Rect)
    requires
        !(r1.empty() && r2.empty()),
        r1.empty() ==> r2.encloses(r1),
        r2.empty() ==> r1.encloses(r2),
        !r1.empty() && !r2.empty() ==> {
            let x1 = if r1.x <= r2.x { r1.x as int } else { r2.x as int };
            let y1 = if r1.y <= r2.y { r1.y as int } else { r2.y as int };
            let x2 = if r1.right_edge() >= r2.right_edge() { r1.right_edge() } else { r2.right_edge() };
            let y2 = if r1.bottom_edge() >= r2.bottom_edge() { r1.bottom_edge() } else { r2.bottom_edge() };
            &&& -0x8000_0000 <= x2 - x1 < 0x8000_0000
            &&& -0x8000_0000 <= y2 - y1 < 0x8000_0000
        },
    ensures
        r1.union_spec(r2).encloses(r1),
        r1.union_spec(r2).encloses(r2),
        forall|c: Rect| c.encloses(r1) && c.encloses(r2) ==> #[trigger] c.encloses(r1.union_spec(r2)),
{
    if !r1.empty() && !r2.empty() {
        let x1 = if r1.x <= r2.x { r1.x as int } else { r2.x as int };
        let y1 = if r1.y <= r2.y { r1.y as int } else { r2.y as int };
        let x2 = if r1.right_edge() >= r2.right_edge() { r1.right_edge() } else { r2.right_edge() };
        let y2 = if r1.bottom_edge() >= r2.bottom_edge() { r1.bottom_edge() } else { r2.bottom_edge() };
        lemma_span_round_trip(x2 - x1);
        lemma_span_round_trip(y2 - y1);
        let u = r1.union_spec(r2);
        assert(u.right_edge() == x2);
        assert(u.bottom_edge() == y2);
    }
}

} // verus!
