use vstd::prelude::*;

use crate::geometry::{as_signed, Rect};

verus! {

/// A rectangle of pixels inside a buffer, with an unsigned origin.
#[derive(Clone, Copy, Debug, Default, PartialEq, Eq, Structural)]
pub struct BufferRegion {
    pub x: u32,
    pub y: u32,
    pub width: u32,
    pub height: u32,
}

impl BufferRegion {
    pub fn new(x: u32, y: u32, width: u32, height: u32) -> (r: BufferRegion)
        ensures
            r == (BufferRegion { x, y, width, height }),
    {
        BufferRegion { x, y, width, height }
    }

    /// The empty region at the origin.
    #[allow(non_snake_case)]
    pub fn ZERO() -> (r: BufferRegion)
        ensures
            r == (BufferRegion { x: 0, y: 0, width: 0, height: 0 }),
    {
        BufferRegion { x: 0, y: 0, width: 0, height: 0 }
    }

    /// The whole of a `width × height` buffer.
    pub fn full(width: u32, height: u32) -> (r: BufferRegion)
        ensures
            r == (BufferRegion { x: 0, y: 0, width, height }),
    {
        BufferRegion { x: 0, y: 0, width, height }
    }

    pub fn is_empty(&self) -> (b: bool)
        ensures
            b == (self.width == 0 || self.height == 0),
    {
        self.width == 0 || self.height == 0
    }

    /// Number of pixels, in 64 bits.
    pub fn area(&self) -> (n: u64)
        ensures
            n == self.width * self.height,
    {
        assert(self.width * self.height <= u32::MAX * u32::MAX) by (nonlinear_arith);
        self.width as u64 * self.height as u64
    }

    /// The region as a signed rectangle; an origin above `i32::MAX` wraps.
    pub fn to_rect(&self) -> (r: Rect)
        ensures
            r.x == as_signed(self.x),
            r.y == as_signed(self.y),
            r.width == self.width,
            r.height == self.height,
    {
        Rect { x: wrap_i32(self.x), y: wrap_i32(self.y), width: self.width, height: self.height }
    }

    /// The region of `rect`, with a negative origin coordinate moved to zero.
    /// The size is kept as it is, so the region may cover other pixels than
    /// `rect` does.
    pub fn from_rect(rect: Rect) -> (r: BufferRegion)
        ensures
            r.x == if rect.x > 0 { rect.x as int } else { 0 },
            r.y == if rect.y > 0 { rect.y as int } else { 0 },
            r.width == rect.width,
            r.height == rect.height,
    {
        BufferRegion {
            x: if rect.x > 0 { rect.x as u32 } else { 0 },
            y: if rect.y > 0 { rect.y as u32 } else { 0 },
            width: rect.width,
            height: rect.height,
        }
    }

    /// Whether pixel `(x, y)` lies in the region.
    pub fn contains(&self, x: u32, y: u32) -> (b: bool)
        ensures
            b == (self.x <= x < self.x + self.width && self.y <= y < self.y + self.height),
    {
        x >= self.x && (x as u64) < self.x as u64 + self.width as u64 && y >= self.y && (y as u64)
            < self.y as u64 + self.height as u64
    }
}

/// `v as i32`.
fn wrap_i32(v: u32) -> (r: i32)
    ensures
        r == as_signed(v),
{
    if v <= 0x7fff_ffff {
        v as i32
    } else {
        (v as i64 - 0x1_0000_0000) as i32
    }
}

impl core::convert::From<Rect> for BufferRegion {
    fn from(rect: Rect) -> (r: BufferRegion) {
        BufferRegion::from_rect(rect)
    }
}

impl vstd::std_specs::convert::FromSpecImpl<Rect> for BufferRegion {
    open spec fn obeys_from_spec() -> bool {
        true
    }

    open spec fn from_spec(rect: Rect) -> BufferRegion {
        BufferRegion {
            x: if rect.x > 0 { rect.x as u32 } else { 0 },
            y: if rect.y > 0 { rect.y as u32 } else { 0 },
            width: rect.width,
            height: rect.height,
        }
    }
}

impl core::convert::From<BufferRegion> for Rect {
    fn from(region: BufferRegion) -> (r: Rect) {
        region.to_rect()
    }
}

impl vstd::std_specs::convert::FromSpecImpl<BufferRegion> for Rect {
    open spec fn obeys_from_spec() -> bool {
        true
    }

    open spec fn from_spec(region: BufferRegion) -> Rect {
        Rect {
            x: as_signed(region.x) as i32,
            y: as_signed(region.y) as i32,
            width: region.width,
            height: region.height,
        }
    }
}

} // verus!
