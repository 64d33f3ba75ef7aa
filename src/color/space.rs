use vstd::prelude::*;

verus! {

/// The colour space that component values are expressed in.
#[derive(Clone, Copy, Debug, PartialEq, Eq, Hash, Default, Structural)]
pub enum ColorSpace {
    /// Standard sRGB.
    #[default]
    SRGB,
    /// sRGB primaries without transfer curve.
    LinearRGB,
    DisplayP3,
    AdobeRGB,
    Rec709,
    Rec2020,
}

impl ColorSpace {
    /// The stable wire code of each variant.
    pub open spec fn code(self) -> u8 {
        match self {
            ColorSpace::SRGB => 0,
            ColorSpace::LinearRGB => 1,
            ColorSpace::DisplayP3 => 2,
            ColorSpace::AdobeRGB => 3,
            ColorSpace::Rec709 => 4,
            ColorSpace::Rec2020 => 5,
        }
    }

    /// The display name of each variant.
    pub open spec fn label(self) -> &'static str {
        match self {
            ColorSpace::SRGB => "sRGB",
            ColorSpace::LinearRGB => "Linear RGB",
            ColorSpace::DisplayP3 => "Display P3",
            ColorSpace::AdobeRGB => "Adobe RGB",
            ColorSpace::Rec709 => "Rec. 709",
            ColorSpace::Rec2020 => "Rec. 2020",
        }
    }

    /// The variant whose wire code is `value`, if any.
    pub fn from_u8(value: u8) -> (r: Option<ColorSpace>)
        ensures
            r is Some <==> (value <= 5),
            r matches Some(v) ==> v.code() == value,
    {
        match value {
            0 => Some(ColorSpace::SRGB),
            1 => Some(ColorSpace::LinearRGB),
            2 => Some(ColorSpace::DisplayP3),
            3 => Some(ColorSpace::AdobeRGB),
            4 => Some(ColorSpace::Rec709),
            5 => Some(ColorSpace::Rec2020),
            _ => None,
        }
    }

    /// The display name.
    pub fn name(&self) -> (r: &'static str)
        ensures
            r@ == self.label()@,
    {
        match self {
            ColorSpace::SRGB => "sRGB",
            ColorSpace::LinearRGB => "Linear RGB",
            ColorSpace::DisplayP3 => "Display P3",
            ColorSpace::AdobeRGB => "Adobe RGB",
            ColorSpace::Rec709 => "Rec. 709",
            ColorSpace::Rec2020 => "Rec. 2020",
        }
    }

    /// Whether values are stored with a transfer curve.
    pub fn is_gamma_corrected(&self) -> (r: bool)
        ensures
            r == !(*self == ColorSpace::LinearRGB),
    {
        !matches!(self, ColorSpace::LinearRGB)
    }

    /// Whether the gamut is wider than sRGB.
    pub fn is_wide_gamut(&self) -> (r: bool)
        ensures
            r == (
                *self == ColorSpace::DisplayP3
                || *self == ColorSpace::AdobeRGB
                || *self == ColorSpace::Rec2020
            ),
    {
        matches!(self, ColorSpace::DisplayP3 | ColorSpace::AdobeRGB | ColorSpace::Rec2020)
    }

    /// Whether the space can carry high dynamic range.
    pub fn is_hdr_capable(&self) -> (r: bool)
        ensures
            r == (*self == ColorSpace::Rec2020),
    {
        matches!(self, ColorSpace::Rec2020)
    }
}

} // verus!
