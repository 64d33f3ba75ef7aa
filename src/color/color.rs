use vstd::prelude::*;

verus! {

/// Alpha channel of a word laid out as `0xAARRGGBB`.
pub open spec fn alpha_of(v: u32) -> u8 {
    (v / 0x100_0000) as u8
}

/// Red channel of a word laid out as `0xAARRGGBB`.
pub open spec fn red_of(v: u32) -> u8 {
    ((v / 0x1_0000) % 0x100) as u8
}

/// Green channel of a word laid out as `0xAARRGGBB`.
pub open spec fn green_of(v: u32) -> u8 {
    ((v / 0x100) % 0x100) as u8
}

/// Blue channel of a word laid out as `0xAARRGGBB`.
pub open spec fn blue_of(v: u32) -> u8 {
    (v % 0x100) as u8
}

/// The word `0xAARRGGBB` with the given channels.
pub open spec fn pack(a: u8, r: u8, g: u8, b: u8) -> u32 {
    (a * 0x100_0000 + r * 0x1_0000 + g * 0x100 + b) as u32
}

/// Packs four channels into `0xAARRGGBB` with shifts and ors.
fn pack_bits(a: u8, r: u8, g: u8, b: u8) -> (v: u32)
    ensures
        v == pack(a, r, g, b),
        alpha_of(v) == a,
        red_of(v) == r,
        green_of(v) == g,
        blue_of(v) == b,
{
    let (a32, r32, g32, b32) = (a as u32, r as u32, g as u32, b as u32);
    let v = (a32 << 24) | (r32 << 16) | (g32 << 8) | b32;
    assert(v == a32 * 0x100_0000 + r32 * 0x1_0000 + g32 * 0x100 + b32
        && v / 0x100_0000 == a32 && (v / 0x1_0000) % 0x100 == r32
        && (v / 0x100) % 0x100 == g32 && v % 0x100 == b32) by (bit_vector)
        requires
            v == (a32 << 24) | (r32 << 16) | (g32 << 8) | b32,
            a32 <= 255,
            r32 <= 255,
            g32 <= 255,
            b32 <= 255,
    ;
    v
}

/// A colour packed in one 32-bit word as `0xAARRGGBB`.
///
/// Every word is a valid colour; the channels are read with shifts and masks.
#[derive(Clone, Copy, Debug, Default, PartialEq, Eq, Hash, Structural)]
pub struct Color(pub u32);

impl Color {
    pub open spec fn a(self) -> u8 {
        alpha_of(self.0)
    }

    pub open spec fn r(self) -> u8 {
        red_of(self.0)
    }

    pub open spec fn g(self) -> u8 {
        green_of(self.0)
    }

    pub open spec fn b(self) -> u8 {
        blue_of(self.0)
    }

    /// Fully transparent black.
    #[allow(non_snake_case)]
    pub fn TRANSPARENT() -> (r: Color)
        ensures
            r.0 == 0x0000_0000,
    {
        Color(0x0000_0000)
    }

    #[allow(non_snake_case)]
    pub fn BLACK() -> (r: Color)
        ensures
            r.0 == 0xFF00_0000,
    {
        Color(0xFF00_0000)
    }

    #[allow(non_snake_case)]
    pub fn WHITE() -> (r: Color)
        ensures
            r.0 == 0xFFFF_FFFF,
    {
        Color(0xFFFF_FFFF)
    }

    #[allow(non_snake_case)]
    pub fn RED() -> (r: Color)
        ensures
            r.0 == 0xFFFF_0000,
    {
        Color(0xFFFF_0000)
    }

    #[allow(non_snake_case)]
    pub fn GREEN() -> (r: Color)
        ensures
            r.0 == 0xFF00_FF00,
    {
        Color(0xFF00_FF00)
    }

    #[allow(non_snake_case)]
    pub fn BLUE() -> (r: Color)
        ensures
            r.0 == 0xFF00_00FF,
    {
        Color(0xFF00_00FF)
    }

    #[allow(non_snake_case)]
    pub fn YELLOW() -> (r: Color)
        ensures
            r.0 == 0xFFFF_FF00,
    {
        Color(0xFFFF_FF00)
    }

    #[allow(non_snake_case)]
    pub fn CYAN() -> (r: Color)
        ensures
            r.0 == 0xFF00_FFFF,
    {
        Color(0xFF00_FFFF)
    }

    #[allow(non_snake_case)]
    pub fn MAGENTA() -> (r: Color)
        ensures
            r.0 == 0xFFFF_00FF,
    {
        Color(0xFFFF_00FF)
    }

    #[allow(non_snake_case)]
    pub fn ORANGE() -> (r: Color)
        ensures
            r.0 == 0xFFFF_8000,
    {
        Color(0xFFFF_8000)
    }

    #[allow(non_snake_case)]
    pub fn PURPLE() -> (r: Color)
        ensures
            r.0 == 0xFF80_0080,
    {
        Color(0xFF80_0080)
    }

    #[allow(non_snake_case)]
    pub fn PINK() -> (r: Color)
        ensures
            r.0 == 0xFFFF_69B4,
    {
        Color(0xFFFF_69B4)
    }

    #[allow(non_snake_case)]
    pub fn BROWN() -> (r: Color)
        ensures
            r.0 == 0xFF8B_4513,
    {
        Color(0xFF8B_4513)
    }

    #[allow(non_snake_case)]
    pub fn GRAY() -> (r: Color)
        ensures
            r.0 == 0xFF80_8080,
    {
        Color(0xFF80_8080)
    }

    #[allow(non_snake_case)]
    pub fn DARK_GRAY() -> (r: Color)
        ensures
            r.0 == 0xFF40_4040,
    {
        Color(0xFF40_4040)
    }

    #[allow(non_snake_case)]
    pub fn LIGHT_GRAY() -> (r: Color)
        ensures
            r.0 == 0xFFC0_C0C0,
    {
        Color(0xFFC0_C0C0)
    }

    /// Theme primary (orange).
    #[allow(non_snake_case)]
    pub fn REDSTONE_PRIMARY() -> (r: Color)
        ensures
            r.0 == 0xFFEE_6A50,
    {
        Color(0xFFEE_6A50)
    }

    /// Theme secondary (dark grey).
    #[allow(non_snake_case)]
    pub fn REDSTONE_SECONDARY() -> (r: Color)
        ensures
            r.0 == 0xFF2D_2D2D,
    {
        Color(0xFF2D_2D2D)
    }

    /// Theme accent (blue).
    #[allow(non_snake_case)]
    pub fn REDSTONE_ACCENT() -> (r: Color)
        ensures
            r.0 == 0xFF89_B4FA,
    {
        Color(0xFF89_B4FA)
    }

    /// Theme surface.
    #[allow(non_snake_case)]
    pub fn REDSTONE_SURFACE() -> (r: Color)
        ensures
            r.0 == 0xFF1E_1E2E,
    {
        Color(0xFF1E_1E2E)
    }

    /// Theme text.
    #[allow(non_snake_case)]
    pub fn REDSTONE_TEXT() -> (r: Color)
        ensures
            r.0 == 0xFFCD_D6F4,
    {
        Color(0xFFCD_D6F4)
    }

    pub fn from_raw(raw: u32) -> (r: Color)
        ensures
            r.0 == raw,
    {
        Color(raw)
    }

    /// An opaque colour.
    pub fn rgb(r: u8, g: u8, b: u8) -> (c: Color)
        ensures
            c.0 == pack(255, r, g, b),
            c.a() == 255 && c.r() == r && c.g() == g && c.b() == b,
    {
        Color::argb(255, r, g, b)
    }

    pub fn argb(a: u8, r: u8, g: u8, b: u8) -> (c: Color)
        ensures
            c.0 == pack(a, r, g, b),
            c.a() == a && c.r() == r && c.g() == g && c.b() == b,
    {
        Color(pack_bits(a, r, g, b))
    }

    pub fn rgba(r: u8, g: u8, b: u8, a: u8) -> (c: Color)
        ensures
            c.0 == pack(a, r, g, b),
            c.a() == a && c.r() == r && c.g() == g && c.b() == b,
    {
        Color::argb(a, r, g, b)
    }

    /// An opaque grey with all three colour channels at `level`.
    pub fn gray(level: u8) -> (c: Color)
        ensures
            c.0 == pack(255, level, level, level),
    {
        Color::rgb(level, level, level)
    }

    /// An opaque colour from `0xRRGGBB`; the top byte of `hex` is ignored.
    pub fn from_hex(hex: u32) -> (c: Color)
        ensures
            c.0 == 0xFF00_0000 + hex % 0x100_0000,
    {
        let v = 0xFF00_0000u32 | (hex & 0x00FF_FFFF);
        assert(v == 0xFF00_0000u32 + hex % 0x100_0000u32) by (bit_vector)
            requires
                v == 0xFF00_0000u32 | (hex & 0x00FF_FFFFu32),
        ;
        Color(v)
    }

    pub fn alpha(&self) -> (r: u8)
        ensures
            r == self.a(),
    {
        let v = self.0;
        let c = (v >> 24) & 0xFF;
        assert(c == v / 0x100_0000) by (bit_vector)
            requires
                c == (v >> 24u32) & 0xFFu32,
        ;
        c as u8
    }

    pub fn red(&self) -> (r: u8)
        ensures
            r == self.r(),
    {
        let v = self.0;
        let c = (v >> 16) & 0xFF;
        assert(c == (v / 0x1_0000) % 0x100) by (bit_vector)
            requires
                c == (v >> 16u32) & 0xFFu32,
        ;
        c as u8
    }

    pub fn green(&self) -> (r: u8)
        ensures
            r == self.g(),
    {
        let v = self.0;
        let c = (v >> 8) & 0xFF;
        assert(c == (v / 0x100) % 0x100) by (bit_vector)
            requires
                c == (v >> 8u32) & 0xFFu32,
        ;
        c as u8
    }

    pub fn blue(&self) -> (r: u8)
        ensures
            r == self.b(),
    {
        let v = self.0;
        let c = v & 0xFF;
        assert(c == v % 0x100) by (bit_vector)
            requires
                c == v & 0xFFu32,
        ;
        c as u8
    }

    pub fn to_rgb(&self) -> (r: (u8, u8, u8))
        ensures
            r == (self.r(), self.g(), self.b()),
    {
        (self.red(), self.green(), self.blue())
    }

    pub fn to_argb(&self) -> (r: (u8, u8, u8, u8))
        ensures
            r == (self.a(), self.r(), self.g(), self.b()),
    {
        (self.alpha(), self.red(), self.green(), self.blue())
    }

    pub fn to_rgba(&self) -> (r: (u8, u8, u8, u8))
        ensures
            r == (self.r(), self.g(), self.b(), self.a()),
    {
        (self.red(), self.green(), self.blue(), self.alpha())
    }

    pub fn as_u32(&self) -> (r: u32)
        ensures
            r == self.0,
    {
        self.0
    }

    pub fn is_transparent(&self) -> (r: bool)
        ensures
            r == (self.a() == 0),
    {
        self.alpha() == 0
    }

    pub fn is_opaque(&self) -> (r: bool)
        ensures
            r == (self.a() == 255),
    {
        self.alpha() == 255
    }

    /// The same colour with alpha replaced.
    pub fn with_alpha(&self, a: u8) -> (c: Color)
        ensures
            c.0 == pack(a, self.r(), self.g(), self.b()),
    {
        Color::argb(a, self.red(), self.green(), self.blue())
    }

    /// The same colour with red replaced.
    pub fn with_red(&self, r: u8) -> (c: Color)
        ensures
            c.0 == pack(self.a(), r, self.g(), self.b()),
    {
        Color::argb(self.alpha(), r, self.green(), self.blue())
    }

    /// The same colour with green replaced.
    pub fn with_green(&self, g: u8) -> (c: Color)
        ensures
            c.0 == pack(self.a(), self.r(), g, self.b()),
    {
        Color::argb(self.alpha(), self.red(), g, self.blue())
    }

    /// The same colour with blue replaced.
    pub fn with_blue(&self, b: u8) -> (c: Color)
        ensures
            c.0 == pack(self.a(), self.r(), self.g(), b),
    {
        Color::argb(self.alpha(), self.red(), self.green(), b)
    }

    /// Each colour channel replaced by `255 - channel`; alpha is kept.
    pub fn invert(&self) -> (c: Color)
        ensures
            c.0 == pack(self.a(), (255 - self.r()) as u8, (255 - self.g()) as u8, (255 - self.b()) as u8),
    {
        Color::argb(self.alpha(), 255 - self.red(), 255 - self.green(), 255 - self.blue())
    }
}

impl core::convert::From<u32> for Color {
    fn from(raw: u32) -> (c: Color) {
        Color(raw)
    }
}

impl vstd::std_specs::convert::FromSpecImpl<u32> for Color {
    open spec fn obeys_from_spec() -> bool {
        true
    }

    open spec fn from_spec(raw: u32) -> Color {
        Color(raw)
    }
}

impl core::convert::From<Color> for u32 {
    fn from(c: Color) -> (r: u32) {
        c.0
    }
}

impl vstd::std_specs::convert::FromSpecImpl<Color> for u32 {
    open spec fn obeys_from_spec() -> bool {
        true
    }

    open spec fn from_spec(c: Color) -> u32 {
        c.0
    }
}

} // verus!
