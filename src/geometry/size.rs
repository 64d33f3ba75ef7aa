use vstd::prelude::*;

verus! {

/// A width and a height in pixels.
#[derive(Clone, Copy, Debug, Default, PartialEq, Eq, Hash, Structural)]
pub struct Size {
    pub width: u32,
    pub height: u32,
}

impl Size {
    /// A size is empty when either side is zero.
    pub open spec fn empty(self) -> bool {
        self.width == 0 || self.height == 0
    }

    pub fn new(width: u32, height: u32) -> (r: Size)
        ensures
            r.width == width,
            r.height == height,
    {
        Size { width, height }
    }

    /// The zero size.
    #[allow(non_snake_case)]
    pub fn ZERO() -> (r: Size)
        ensures
            r.width == 0,
            r.height == 0,
    {
        Size { width: 0, height: 0 }
    }

    /// Number of pixels covered, computed in 64 bits so that it never overflows.
    pub fn area(&self) -> (r: u64)
        ensures
            r == self.width * self.height,
    {
        assert(self.width * self.height <= u32::MAX * u32::MAX) by (nonlinear_arith);
        self.width as u64 * self.height as u64
    }

    pub fn is_empty(&self) -> (r: bool)
        ensures
            r == self.empty(),
    {
        self.width == 0 || self.height == 0
    }

    /// The longer side.
    pub fn max_side(&self) -> (r: u32)
        ensures
            r == if self.width > self.height { self.width } else { self.height },
    {
        if self.width > self.height {
            self.width
        } else {
            self.height
        }
    }

    /// The shorter side.
    pub fn min_side(&self) -> (r: u32)
        ensures
            r == if self.width < self.height { self.width } else { self.height },
    {
        if self.width < self.height {
            self.width
        } else {
            self.height
        }
    }

    pub fn from_tuple(t: (u32, u32)) -> (r: Size)
        ensures
            r.width == t.0,
            r.height == t.1,
    {
        Size { width: t.0, height: t.1 }
    }

    pub fn to_tuple(&self) -> (r: (u32, u32))
        ensures
            r == (self.width, self.height),
    {
        (self.width, self.height)
    }
}

impl core::ops::Add for Size {
    type Output = Size;

    fn add(self, rhs: Size) -> (r: Size) {
        Size { width: self.width + rhs.width, height: self.height + rhs.height }
    }
}

impl vstd::std_specs::ops::AddSpecImpl for Size {
    open spec fn obeys_add_spec() -> bool {
        true
    }

    open spec fn add_req(self, rhs: Size) -> bool {
        self.width + rhs.width <= u32::MAX && self.height + rhs.height <= u32::MAX
    }

    open spec fn add_spec(self, rhs: Size) -> Size {
        Size { width: (self.width + rhs.width) as u32, height: (self.height + rhs.height) as u32 }
    }
}

/// Subtraction saturates at zero on each side.
impl core::ops::Sub for Size {
    type Output = Size;

    fn sub(self, rhs: Size) -> (r: Size) {
        Size {
            width: self.width.saturating_sub(rhs.width),
            height: self.height.saturating_sub(rhs.height),
        }
    }
}

impl vstd::std_specs::ops::SubSpecImpl for Size {
    open spec fn obeys_sub_spec() -> bool {
        true
    }

    open spec fn sub_req(self, rhs: Size) -> bool {
        true
    }

    open spec fn sub_spec(self, rhs: Size) -> Size {
        Size {
            width: if self.width >= rhs.width { (self.width - rhs.width) as u32 } else { 0 },
            height: if self.height >= rhs.height { (self.height - rhs.height) as u32 } else { 0 },
        }
    }
}

impl core::ops::Mul<u32> for Size {
    type Output = Size;

    fn mul(self, rhs: u32) -> (r: Size) {
        Size { width: self.width * rhs, height: self.height * rhs }
    }
}

impl vstd::std_specs::ops::MulSpecImpl<u32> for Size {
    open spec fn obeys_mul_spec() -> bool {
        true
    }

    open spec fn mul_req(self, rhs: u32) -> bool {
        self.width * rhs <= u32::MAX && self.height * rhs <= u32::MAX
    }

    open spec fn mul_spec(self, rhs: u32) -> Size {
        Size { width: (self.width * rhs) as u32, height: (self.height * rhs) as u32 }
    }
}

impl core::convert::From<(u32, u32)> for Size {
    fn from(t: (u32, u32)) -> (r: Size) {
        Size::from_tuple(t)
    }
}

impl vstd::std_specs::convert::FromSpecImpl<(u32, u32)> for Size {
    open spec fn obeys_from_spec() -> bool {
        true
    }

    open spec fn from_spec(t: (u32, u32)) -> Size {
        Size { width: t.0, height: t.1 }
    }
}

} // verus!
