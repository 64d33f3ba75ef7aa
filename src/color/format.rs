use vstd::prelude::*;

verus! {

/// How the bytes of one pixel are laid out in memory.
#[derive(Clone, Copy, Debug, PartialEq, Eq, Hash, Default, Structural)]
pub enum PixelFormat {
    /// Alpha, red, green, blue; 32 bits.
    #[default]
    ARGB8888,
    /// Unused byte, red, green, blue; 32 bits.
    XRGB8888,
    /// 5-6-5 bit red, green, blue; 16 bits.
    RGB565,
    /// Blue, green, red, alpha; 32 bits.
    BGRA8888,
    /// Red, green, blue, alpha; 32 bits.
    RGBA8888,
    /// Red, green, blue; 24 bits.
    RGB888,
    /// Blue, green, red; 24 bits.
    BGR888,
    /// 8-bit luminance.
    Gray8,
    /// 16-bit luminance.
    Gray16,
    /// 8-bit alpha mask.
    Alpha8,
}

impl PixelFormat {
    /// The stable wire code of each variant.
    pub open spec fn code(self) -> u32 {
        match self {
            PixelFormat::ARGB8888 => 0,
            PixelFormat::XRGB8888 => 1,
            PixelFormat::RGB565 => 2,
            PixelFormat::BGRA8888 => 3,
            PixelFormat::RGBA8888 => 4,
            PixelFormat::RGB888 => 5,
            PixelFormat::BGR888 => 6,
            PixelFormat::Gray8 => 7,
            PixelFormat::Gray16 => 8,
            PixelFormat::Alpha8 => 9,
        }
    }

    /// The display name of each variant.
    pub open spec fn label(self) -> &'static str {
        match self {
            PixelFormat::ARGB8888 => "ARGB8888",
            PixelFormat::XRGB8888 => "XRGB8888",
            PixelFormat::RGB565 => "RGB565",
            PixelFormat::BGRA8888 => "BGRA8888",
            PixelFormat::RGBA8888 => "RGBA8888",
            PixelFormat::RGB888 => "RGB888",
            PixelFormat::BGR888 => "BGR888",
            PixelFormat::Gray8 => "Gray8",
            PixelFormat::Gray16 => "Gray16",
            PixelFormat::Alpha8 => "Alpha8",
        }
    }

    /// The variant whose wire code is `value`, if any.
    pub fn from_u32(value: u32) -> (r: Option<PixelFormat>)
        ensures
            r is Some <==> (value <= 9),
            r matches Some(v) ==> v.code() == value,
    {
        match value {
            0 => Some(PixelFormat::ARGB8888),
            1 => Some(PixelFormat::XRGB8888),
            2 => Some(PixelFormat::RGB565),
            3 => Some(PixelFormat::BGRA8888),
            4 => Some(PixelFormat::RGBA8888),
            5 => Some(PixelFormat::RGB888),
            6 => Some(PixelFormat::BGR888),
            7 => Some(PixelFormat::Gray8),
            8 => Some(PixelFormat::Gray16),
            9 => Some(PixelFormat::Alpha8),
            _ => None,
        }
    }

    /// The wire code.
    pub fn as_u32(&self) -> (r: u32)
        ensures
            r == self.code(),
    {
        match self {
            PixelFormat::ARGB8888 => 0,
            PixelFormat::XRGB8888 => 1,
            PixelFormat::RGB565 => 2,
            PixelFormat::BGRA8888 => 3,
            PixelFormat::RGBA8888 => 4,
            PixelFormat::RGB888 => 5,
            PixelFormat::BGR888 => 6,
            PixelFormat::Gray8 => 7,
            PixelFormat::Gray16 => 8,
            PixelFormat::Alpha8 => 9,
        }
    }

    /// The display name.
    pub fn name(&self) -> (r: &'static str)
        ensures
            r@ == self.label()@,
    {
        match self {
            PixelFormat::ARGB8888 => "ARGB8888",
            PixelFormat::XRGB8888 => "XRGB8888",
            PixelFormat::RGB565 => "RGB565",
            PixelFormat::BGRA8888 => "BGRA8888",
            PixelFormat::RGBA8888 => "RGBA8888",
            PixelFormat::RGB888 => "RGB888",
            PixelFormat::BGR888 => "BGR888",
            PixelFormat::Gray8 => "Gray8",
            PixelFormat::Gray16 => "Gray16",
            PixelFormat::Alpha8 => "Alpha8",
        }
    }

    /// Whether the format stores an alpha channel.
    pub fn has_alpha(&self) -> (r: bool)
        ensures
            r == (
                *self == PixelFormat::ARGB8888
                || *self == PixelFormat::BGRA8888
                || *self == PixelFormat::RGBA8888
                || *self == PixelFormat::Alpha8
            ),
    {
        matches!(
            self,
            PixelFormat::ARGB8888
            | PixelFormat::BGRA8888
            | PixelFormat::RGBA8888
            | PixelFormat::Alpha8,
        )
    }

    /// Whether the format stores a single channel.
    pub fn is_grayscale(&self) -> (r: bool)
        ensures
            r == (
                *self == PixelFormat::Gray8
                || *self == PixelFormat::Gray16
                || *self == PixelFormat::Alpha8
            ),
    {
        matches!(self, PixelFormat::Gray8 | PixelFormat::Gray16 | PixelFormat::Alpha8)
    }
    /// Bytes taken by one pixel.
    pub open spec fn bpp(self) -> u32 {
        match self {
            PixelFormat::ARGB8888 | PixelFormat::XRGB8888 | PixelFormat::BGRA8888 | PixelFormat::RGBA8888 => 4,
            PixelFormat::RGB888 | PixelFormat::BGR888 => 3,
            PixelFormat::RGB565 | PixelFormat::Gray16 => 2,
            PixelFormat::Gray8 | PixelFormat::Alpha8 => 1,
        }
    }

    /// Bytes taken by one pixel.
    pub fn bytes_per_pixel(&self) -> (r: u32)
        ensures
            r == self.bpp(),
            1 <= r <= 4,
    {
        match self {
            PixelFormat::ARGB8888 | PixelFormat::XRGB8888 | PixelFormat::BGRA8888 | PixelFormat::RGBA8888 => 4,
            PixelFormat::RGB888 | PixelFormat::BGR888 => 3,
            PixelFormat::RGB565 | PixelFormat::Gray16 => 2,
            PixelFormat::Gray8 | PixelFormat::Alpha8 => 1,
        }
    }

    /// Bits taken by one pixel.
    pub fn bits_per_pixel(&self) -> (r: u32)
        ensures
            r == 8 * self.bpp(),
    {
        self.bytes_per_pixel() * 8
    }

    /// No format here stores premultiplied colour.
    pub fn is_premultiplied(&self) -> (r: bool)
        ensures
            !r,
    {
        false
    }

    /// Bytes in an unpadded row of `width` pixels.
    pub fn min_stride(&self, width: u32) -> (r: u32)
        requires
            width * self.bpp() <= u32::MAX,
        ensures
            r == width * self.bpp(),
    {
        width * self.bytes_per_pixel()
    }

    /// The unpadded row size rounded up to a multiple of `alignment`.
    pub fn aligned_stride(&self, width: u32, alignment: u32) -> (r: u32)
        requires
            alignment > 0,
            width * self.bpp() + alignment - 1 <= u32::MAX,
        ensures
            r == (width * self.bpp() + alignment - 1) / (alignment as int) * alignment,
            r >= width * self.bpp(),
            r % alignment == 0,
    {
        let min = self.min_stride(width);
        let q = (min + (alignment - 1)) / alignment;
        proof {
            let m = min as int;
            let a = alignment as int;
            assert(q * a <= m + a - 1) by (nonlinear_arith)
                requires
                    q == (m + a - 1) / a,
                    a > 0,
                    m >= 0,
            ;
            assert(q * a >= m && (q * a) % a == 0) by (nonlinear_arith)
                requires
                    q == (m + a - 1) / a,
                    a > 0,
                    m >= 0,
            ;
        }
        q * alignment
    }

    /// Bytes of an unpadded buffer of `width × height` pixels.
    pub fn buffer_size(&self, width: u32, height: u32) -> (r: usize)
        requires
            width * self.bpp() <= u32::MAX,
            width * self.bpp() * height <= usize::MAX,
        ensures
            r == width * self.bpp() * height,
    {
        let s = self.min_stride(width);
        s as usize * height as usize
    }
}

/// Wire-code law: every variant's code is one that the lookup accepts, and no
/// two variants share a code, so `from_u32(f.as_u32())` is `Some(f)`.
pub proof fn lemma_pixel_format_codes(f: PixelFormat, g: PixelFormat)
    ensures
        (f.code() <= 9),
        f.code() == g.code() ==> f == g,
{
}

} // verus!
