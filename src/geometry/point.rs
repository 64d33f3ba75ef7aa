use vstd::prelude::*;

verus! {

/// Rust's `/ 2` on an integer: the quotient rounded toward zero.
pub open spec fn half_toward_zero(v: int) -> int {
    if v >= 0 {
        v / 2
    } else {
        -((-v) / 2)
    }
}

/// A point on the integer grid; coordinates may be negative (off screen).
#[derive(Clone, Copy, Debug, Default, PartialEq, Eq, Hash, Structural)]
pub struct Point {
    pub x: i32,
    pub y: i32,
}

impl Point {
    /// Squared Euclidean distance between two points, over the integers.
    pub open spec fn dist2(self, other: Point) -> int {
        (self.x - other.x) * (self.x - other.x) + (self.y - other.y) * (self.y - other.y)
    }

    pub fn new(x: i32, y: i32) -> (r: Point)
        ensures
            r.x == x,
            r.y == y,
    {
        Point { x, y }
    }

    /// The origin `(0, 0)`.
    #[allow(non_snake_case)]
    pub fn ZERO() -> (r: Point)
        ensures
            r.x == 0,
            r.y == 0,
    {
        Point { x: 0, y: 0 }
    }

    /// This point moved by `(dx, dy)`.
    pub fn offset(&self, dx: i32, dy: i32) -> (r: Point)
        requires
            i32::MIN <= self.x + dx <= i32::MAX,
            i32::MIN <= self.y + dy <= i32::MAX,
        ensures
            r.x == self.x + dx,
            r.y == self.y + dy,
    {
        Point { x: self.x + dx, y: self.y + dy }
    }

    /// Squared distance to `other`, accumulated in 64 bits.
    pub fn distance_squared(&self, other: &Point) -> (r: i64)
        requires
            self.dist2(*other) <= i64::MAX,
        ensures
            r == self.dist2(*other),
    {
        let dx: i64 = self.x as i64 - other.x as i64;
        let dy: i64 = self.y as i64 - other.y as i64;
        assert(0 <= dx * dx && 0 <= dy * dy) by (nonlinear_arith);
        dx * dx + dy * dy
    }

    /// The point halfway to `other`, each coordinate rounded toward zero.
    pub fn midpoint(&self, other: &Point) -> (r: Point)
        ensures
            r.x == half_toward_zero(self.x + other.x),
            r.y == half_toward_zero(self.y + other.y),
    {
        Point { x: half_i64(self.x as i64 + other.x as i64), y: half_i64(self.y as i64 + other.y as i64) }
    }

    pub fn from_tuple(t: (i32, i32)) -> (r: Point)
        ensures
            r.x == t.0,
            r.y == t.1,
    {
        Point { x: t.0, y: t.1 }
    }

    pub fn to_tuple(&self) -> (r: (i32, i32))
        ensures
            r == (self.x, self.y),
    {
        (self.x, self.y)
    }
}

/// Half of a sum of two `i32` values, rounded toward zero; it always fits in `i32`.
fn half_i64(s: i64) -> (r: i32)
    requires
        2 * (i32::MIN as int) <= s <= 2 * (i32::MAX as int),
    ensures
        r == half_toward_zero(s as int),
{
    if s >= 0 {
        let q: i64 = s / 2;
        assert(0 <= q <= i32::MAX);
        q as i32
    } else {
        let n: i64 = -s;
        let q: i64 = n / 2;
        assert(0 <= q <= 0x8000_0000);
        (-q) as i32
    }
}

impl core::ops::Add for Point {
    type Output = Point;

    fn add(self, rhs: Point) -> (r: Point) {
        Point { x: self.x + rhs.x, y: self.y + rhs.y }
    }
}

impl vstd::std_specs::ops::AddSpecImpl for Point {
    open spec fn obeys_add_spec() -> bool {
        true
    }

    open spec fn add_req(self, rhs: Point) -> bool {
        &&& i32::MIN <= self.x + rhs.x <= i32::MAX
        &&& i32::MIN <= self.y + rhs.y <= i32::MAX
    }

    open spec fn add_spec(self, rhs: Point) -> Point {
        Point { x: (self.x + rhs.x) as i32, y: (self.y + rhs.y) as i32 }
    }
}

impl core::ops::Sub for Point {
    type Output = Point;

    fn sub(self, rhs: Point) -> (r: Point) {
        Point { x: self.x - rhs.x, y: self.y - rhs.y }
    }
}

impl vstd::std_specs::ops::SubSpecImpl for Point {
    open spec fn obeys_sub_spec() -> bool {
        true
    }

    open spec fn sub_req(self, rhs: Point) -> bool {
        &&& i32::MIN <= self.x - rhs.x <= i32::MAX
        &&& i32::MIN <= self.y - rhs.y <= i32::MAX
    }

    open spec fn sub_spec(self, rhs: Point) -> Point {
        Point { x: (self.x - rhs.x) as i32, y: (self.y - rhs.y) as i32 }
    }
}

impl core::ops::Neg for Point {
    type Output = Point;

    fn neg(self) -> (r: Point) {
        Point { x: -self.x, y: -self.y }
    }
}

impl vstd::std_specs::ops::NegSpecImpl for Point {
    open spec fn obeys_neg_spec() -> bool {
        true
    }

    open spec fn neg_req(self) -> bool {
        self.x != i32::MIN && self.y != i32::MIN
    }

    open spec fn neg_spec(self) -> Point {
        Point { x: (-self.x) as i32, y: (-self.y) as i32 }
    }
}

impl core::ops::Mul<i32> for Point {
    type Output = Point;

    fn mul(self, rhs: i32) -> (r: Point) {
        Point { x: self.x * rhs, y: self.y * rhs }
    }
}

impl vstd::std_specs::ops::MulSpecImpl<i32> for Point {
    open spec fn obeys_mul_spec() -> bool {
        true
    }

    open spec fn mul_req(self, rhs: i32) -> bool {
        &&& i32::MIN <= self.x * rhs <= i32::MAX
        &&& i32::MIN <= self.y * rhs <= i32::MAX
    }

    open spec fn mul_spec(self, rhs: i32) -> Point {
        Point { x: (self.x * rhs) as i32, y: (self.y * rhs) as i32 }
    }
}

impl core::convert::From<(i32, i32)> for Point {
    fn from(t: (i32, i32)) -> (r: Point) {
        Point::from_tuple(t)
    }
}

impl vstd::std_specs::convert::FromSpecImpl<(i32, i32)> for Point {
    open spec fn obeys_from_spec() -> bool {
        true
    }

    open spec fn from_spec(t: (i32, i32)) -> Point {
        Point { x: t.0, y: t.1 }
    }
}

} // verus!
