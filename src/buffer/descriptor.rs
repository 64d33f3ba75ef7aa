use vstd::prelude::*;

use crate::color::PixelFormat;
use crate::geometry::{Rect, Size};

verus! {

/// Dimensions, row pitch and pixel format of a pixel buffer.
///
/// `stride` is the number of bytes from the start of one row to the start of
/// the next; it may exceed `width × bytes_per_pixel` to pad rows for alignment.
#[derive(Clone, Copy, Debug, Default, PartialEq, Eq, Structural)]
pub struct BufferDescriptor {
    pub width: u32,
    pub height: u32,
    pub stride: u32,
    pub format: PixelFormat,
}

impl BufferDescriptor {
    /// The descriptor of an unpadded buffer.
    pub open spec fn packed(width: u32, height: u32, format: PixelFormat) -> BufferDescriptor {
        BufferDescriptor { width, height, stride: (width * format.bpp()) as u32, format }
    }

    /// Byte offset of pixel `(x, y)`: `y · stride + x · bytes_per_pixel`.
    pub open spec fn offset_of(self, x: int, y: int) -> int {
        y * self.stride + x * self.format.bpp()
    }

    /// Bytes in a row without its padding.
    pub open spec fn row_bytes(self) -> int {
        self.width * self.format.bpp()
    }

    /// Whether `rect` lies within the buffer's pixels.
    pub open spec fn fits(self, rect: Rect) -> bool {
        &&& rect.x >= 0
        &&& rect.y >= 0
        &&& rect.x + rect.width <= self.width
        &&& rect.y + rect.height <= self.height
    }

    /// A descriptor whose stride is `width × bytes_per_pixel` (no padding).
    pub fn new(width: u32, height: u32, format: PixelFormat) -> (d: BufferDescriptor)
        requires
            width * format.bpp() <= u32::MAX,
        ensures
            d == BufferDescriptor::packed(width, height, format),
    {
        let stride = width * format.bytes_per_pixel();
        BufferDescriptor { width, height, stride, format }
    }

    /// A descriptor with an explicit stride.
    pub fn with_stride(width: u32, height: u32, stride: u32, format: PixelFormat) -> (d: BufferDescriptor)
        ensures
            d == (BufferDescriptor { width, height, stride, format }),
    {
        BufferDescriptor { width, height, stride, format }
    }

    pub fn from_size(size: Size, format: PixelFormat) -> (d: BufferDescriptor)
        requires
            size.width * format.bpp() <= u32::MAX,
        ensures
            d == BufferDescriptor::packed(size.width, size.height, format),
    {
        BufferDescriptor::new(size.width, size.height, format)
    }

    pub fn size(&self) -> (s: Size)
        ensures
            s == (Size { width: self.width, height: self.height }),
    {
        Size { width: self.width, height: self.height }
    }

    /// The buffer's pixels as a rectangle at the origin.
    pub fn rect(&self) -> (r: Rect)
        ensures
            r == (Rect { x: 0, y: 0, width: self.width, height: self.height }),
    {
        Rect { x: 0, y: 0, width: self.width, height: self.height }
    }

    /// Total bytes: `stride × height`.
    pub fn size_bytes(&self) -> (n: usize)
        requires
            self.stride * self.height <= usize::MAX,
        ensures
            n == self.stride * self.height,
    {
        self.stride as usize * self.height as usize
    }

    /// Total pixels: `width × height`.
    pub fn pixel_count(&self) -> (n: usize)
        requires
            self.width * self.height <= usize::MAX,
        ensures
            n == self.width * self.height,
    {
        self.width as usize * self.height as usize
    }

    /// Byte offset of pixel `(x, y)`.
    pub fn pixel_offset(&self, x: u32, y: u32) -> (n: usize)
        requires
            self.offset_of(x as int, y as int) <= usize::MAX,
        ensures
            n == self.offset_of(x as int, y as int),
    {
        let bpp = self.format.bytes_per_pixel();
        proof {
            assert(0 <= y * self.stride && 0 <= x * bpp) by (nonlinear_arith);
        }
        y as usize * self.stride as usize + x as usize * bpp as usize
    }

    /// Byte offset of the first pixel of row `y`.
    pub fn row_offset(&self, y: u32) -> (n: usize)
        requires
            y * self.stride <= usize::MAX,
        ensures
            n == y * self.stride,
    {
        y as usize * self.stride as usize
    }

    /// Whether `(x, y)` names a pixel of the buffer.
    pub fn contains(&self, x: u32, y: u32) -> (b: bool)
        ensures
            b == (x < self.width && y < self.height),
    {
        x < self.width && y < self.height
    }

    pub fn is_empty(&self) -> (b: bool)
        ensures
            b == (self.width == 0 || self.height == 0),
    {
        self.width == 0 || self.height == 0
    }

    /// Bytes of pixel data in one row, padding excluded.
    pub fn bytes_per_row(&self) -> (n: u32)
        requires
            self.row_bytes() <= u32::MAX,
        ensures
            n == self.row_bytes(),
    {
        self.width * self.format.bytes_per_pixel()
    }

    /// Bytes of padding at the end of each row.
    pub fn row_padding(&self) -> (n: u32)
        requires
            self.row_bytes() <= self.stride,
        ensures
            n == self.stride - self.row_bytes(),
    {
        self.stride - self.bytes_per_row()
    }

    /// The descriptor of the part of this buffer covered by `rect`, and the
    /// byte offset of its first pixel; `None` when `rect` does not lie wholly
    /// inside the buffer. The part keeps this buffer's stride and format.
    pub fn sub_region(&self, rect: Rect) -> (r: Option<(BufferDescriptor, usize)>)
        requires
            self.fits(rect) ==> self.offset_of(rect.x as int, rect.y as int) <= usize::MAX,
        ensures
            r is Some <==> self.fits(rect),
            r matches Some((d, off)) ==> {
                &&& d == (BufferDescriptor {
                    width: rect.width,
                    height: rect.height,
                    stride: self.stride,
                    format: self.format,
                })
                &&& off == self.offset_of(rect.x as int, rect.y as int)
            },
    {
        if rect.x < 0 || rect.y < 0 {
            return None;
        }
        let x = rect.x as u32;
        let y = rect.y as u32;
        if x as u64 + rect.width as u64 > self.width as u64 || y as u64 + rect.height as u64
            > self.height as u64 {
            return None;
        }
        let offset = self.pixel_offset(x, y);
        let desc = BufferDescriptor {
            width: rect.width,
            height: rect.height,
            stride: self.stride,
            format: self.format,
        };
        Some((desc, offset))
    }
}

/// Offset law: in an unpadded 32-bit ARGB buffer of width `w`, pixel `(x, y)`
/// starts at byte `4·w·y + 4·x`, and its four bytes lie within the buffer's
/// `4·w·h` bytes (so `pixel_offset` may be called whenever that size fits in
/// `usize`).
pub proof fn lemma_packed_argb_offset(w: u32, h: u32, x: u32, y: u32)
    requires
        w * 4 <= u32::MAX,
        x < w,
        y < h,
    ensures
        BufferDescriptor::packed(w, h, PixelFormat::ARGB8888).offset_of(x as int, y as int) == y * w * 4
            + x * 4,
        y * w * 4 + x * 4 + 4 <= w * 4 * h,
{
    assert(y * ((w * 4) as u32) == y * w * 4) by (nonlinear_arith)
        requires
            w * 4 <= u32::MAX,
    ;
    assert(y * w * 4 + x * 4 + 4 <= w * 4 * h) by (nonlinear_arith)
        requires
            x < w,
            y < h,
    ;
}

} // verus!
