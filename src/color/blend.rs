use vstd::prelude::*;

verus! {

/// How a source colour is combined with the destination.
///
/// The wire codes fall in bands: Porter-Duff operators in `1..=10`,
/// separable blend modes in `20..=30`, additive operators in `40..=41`.
#[derive(Clone, Copy, Debug, PartialEq, Eq, Hash, Default, Structural)]
pub enum BlendMode {
    /// Plain source-over drawing.
    #[default]
    Normal,
    SourceOver,
    SourceIn,
    SourceOut,
    SourceAtop,
    DestOver,
    DestIn,
    DestOut,
    DestAtop,
    Xor,
    Clear,
    Multiply,
    Screen,
    Overlay,
    Darken,
    Lighten,
    ColorDodge,
    ColorBurn,
    HardLight,
    SoftLight,
    Difference,
    Exclusion,
    Add,
    Subtract,
}

impl BlendMode {
    /// The stable wire code of each variant.
    pub open spec fn code(self) -> u8 {
        match self {
            BlendMode::Normal => 0,
            BlendMode::SourceOver => 1,
            BlendMode::SourceIn => 2,
            BlendMode::SourceOut => 3,
            BlendMode::SourceAtop => 4,
            BlendMode::DestOver => 5,
            BlendMode::DestIn => 6,
            BlendMode::DestOut => 7,
            BlendMode::DestAtop => 8,
            BlendMode::Xor => 9,
            BlendMode::Clear => 10,
            BlendMode::Multiply => 20,
            BlendMode::Screen => 21,
            BlendMode::Overlay => 22,
            BlendMode::Darken => 23,
            BlendMode::Lighten => 24,
            BlendMode::ColorDodge => 25,
            BlendMode::ColorBurn => 26,
            BlendMode::HardLight => 27,
            BlendMode::SoftLight => 28,
            BlendMode::Difference => 29,
            BlendMode::Exclusion => 30,
            BlendMode::Add => 40,
            BlendMode::Subtract => 41,
        }
    }

    /// The display name of each variant.
    pub open spec fn label(self) -> &'static str {
        match self {
            BlendMode::Normal => "Normal",
            BlendMode::SourceOver => "SourceOver",
            BlendMode::SourceIn => "SourceIn",
            BlendMode::SourceOut => "SourceOut",
            BlendMode::SourceAtop => "SourceAtop",
            BlendMode::DestOver => "DestOver",
            BlendMode::DestIn => "DestIn",
            BlendMode::DestOut => "DestOut",
            BlendMode::DestAtop => "DestAtop",
            BlendMode::Xor => "Xor",
            BlendMode::Clear => "Clear",
            BlendMode::Multiply => "Multiply",
            BlendMode::Screen => "Screen",
            BlendMode::Overlay => "Overlay",
            BlendMode::Darken => "Darken",
            BlendMode::Lighten => "Lighten",
            BlendMode::ColorDodge => "ColorDodge",
            BlendMode::ColorBurn => "ColorBurn",
            BlendMode::HardLight => "HardLight",
            BlendMode::SoftLight => "SoftLight",
            BlendMode::Difference => "Difference",
            BlendMode::Exclusion => "Exclusion",
            BlendMode::Add => "Add",
            BlendMode::Subtract => "Subtract",
        }
    }

    /// The variant whose wire code is `value`, if any.
    pub fn from_u8(value: u8) -> (r: Option<BlendMode>)
        ensures
            r is Some <==> (value <= 10 || (20 <= value <= 30) || (40 <= value <= 41)),
            r matches Some(v) ==> v.code() == value,
    {
        match value {
            0 => Some(BlendMode::Normal),
            1 => Some(BlendMode::SourceOver),
            2 => Some(BlendMode::SourceIn),
            3 => Some(BlendMode::SourceOut),
            4 => Some(BlendMode::SourceAtop),
            5 => Some(BlendMode::DestOver),
            6 => Some(BlendMode::DestIn),
            7 => Some(BlendMode::DestOut),
            8 => Some(BlendMode::DestAtop),
            9 => Some(BlendMode::Xor),
            10 => Some(BlendMode::Clear),
            20 => Some(BlendMode::Multiply),
            21 => Some(BlendMode::Screen),
            22 => Some(BlendMode::Overlay),
            23 => Some(BlendMode::Darken),
            24 => Some(BlendMode::Lighten),
            25 => Some(BlendMode::ColorDodge),
            26 => Some(BlendMode::ColorBurn),
            27 => Some(BlendMode::HardLight),
            28 => Some(BlendMode::SoftLight),
            29 => Some(BlendMode::Difference),
            30 => Some(BlendMode::Exclusion),
            40 => Some(BlendMode::Add),
            41 => Some(BlendMode::Subtract),
            _ => None,
        }
    }

    /// The wire code.
    pub fn as_u8(&self) -> (r: u8)
        ensures
            r == self.code(),
    {
        match self {
            BlendMode::Normal => 0,
            BlendMode::SourceOver => 1,
            BlendMode::SourceIn => 2,
            BlendMode::SourceOut => 3,
            BlendMode::SourceAtop => 4,
            BlendMode::DestOver => 5,
            BlendMode::DestIn => 6,
            BlendMode::DestOut => 7,
            BlendMode::DestAtop => 8,
            BlendMode::Xor => 9,
            BlendMode::Clear => 10,
            BlendMode::Multiply => 20,
            BlendMode::Screen => 21,
            BlendMode::Overlay => 22,
            BlendMode::Darken => 23,
            BlendMode::Lighten => 24,
            BlendMode::ColorDodge => 25,
            BlendMode::ColorBurn => 26,
            BlendMode::HardLight => 27,
            BlendMode::SoftLight => 28,
            BlendMode::Difference => 29,
            BlendMode::Exclusion => 30,
            BlendMode::Add => 40,
            BlendMode::Subtract => 41,
        }
    }

    /// The display name.
    pub fn name(&self) -> (r: &'static str)
        ensures
            r@ == self.label()@,
    {
        match self {
            BlendMode::Normal => "Normal",
            BlendMode::SourceOver => "SourceOver",
            BlendMode::SourceIn => "SourceIn",
            BlendMode::SourceOut => "SourceOut",
            BlendMode::SourceAtop => "SourceAtop",
            BlendMode::DestOver => "DestOver",
            BlendMode::DestIn => "DestIn",
            BlendMode::DestOut => "DestOut",
            BlendMode::DestAtop => "DestAtop",
            BlendMode::Xor => "Xor",
            BlendMode::Clear => "Clear",
            BlendMode::Multiply => "Multiply",
            BlendMode::Screen => "Screen",
            BlendMode::Overlay => "Overlay",
            BlendMode::Darken => "Darken",
            BlendMode::Lighten => "Lighten",
            BlendMode::ColorDodge => "ColorDodge",
            BlendMode::ColorBurn => "ColorBurn",
            BlendMode::HardLight => "HardLight",
            BlendMode::SoftLight => "SoftLight",
            BlendMode::Difference => "Difference",
            BlendMode::Exclusion => "Exclusion",
            BlendMode::Add => "Add",
            BlendMode::Subtract => "Subtract",
        }
    }

    /// Whether the result depends on alpha.
    pub fn needs_alpha(&self) -> (r: bool)
        ensures
            r == !(*self == BlendMode::Normal || *self == BlendMode::Clear),
    {
        !matches!(self, BlendMode::Normal | BlendMode::Clear)
    }
    /// A Porter-Duff compositing operator: its code lies in the first band.
    pub fn is_porter_duff(&self) -> (r: bool)
        ensures
            r == (1 <= self.code() <= 10),
    {
        let c = self.as_u8();
        c >= 1 && c <= 10
    }

    /// A separable blend mode: its code lies in the second band.
    pub fn is_photoshop_style(&self) -> (r: bool)
        ensures
            r == (20 <= self.code() <= 30),
    {
        let c = self.as_u8();
        c >= 20 && c <= 30
    }
}

/// How alpha relates to the colour channels.
#[derive(Clone, Copy, Debug, PartialEq, Eq, Hash, Default, Structural)]
pub enum AlphaMode {
    /// Colour channels are independent of alpha.
    #[default]
    Straight,
    /// Colour channels are scaled by alpha.
    Premultiplied,
    /// Alpha is ignored.
    Opaque,
}

impl AlphaMode {
    /// The stable wire code of each variant.
    pub open spec fn code(self) -> u8 {
        match self {
            AlphaMode::Straight => 0,
            AlphaMode::Premultiplied => 1,
            AlphaMode::Opaque => 2,
        }
    }

    /// The display name of each variant.
    pub open spec fn label(self) -> &'static str {
        match self {
            AlphaMode::Straight => "Straight",
            AlphaMode::Premultiplied => "Premultiplied",
            AlphaMode::Opaque => "Opaque",
        }
    }

    /// The variant whose wire code is `value`, if any.
    pub fn from_u8(value: u8) -> (r: Option<AlphaMode>)
        ensures
            r is Some <==> (value <= 2),
            r matches Some(v) ==> v.code() == value,
    {
        match value {
            0 => Some(AlphaMode::Straight),
            1 => Some(AlphaMode::Premultiplied),
            2 => Some(AlphaMode::Opaque),
            _ => None,
        }
    }

    /// The display name.
    pub fn name(&self) -> (r: &'static str)
        ensures
            r@ == self.label()@,
    {
        match self {
            AlphaMode::Straight => "Straight",
            AlphaMode::Premultiplied => "Premultiplied",
            AlphaMode::Opaque => "Opaque",
        }
    }
}

/// Wire-code law: every variant's code is one that the lookup accepts, and no
/// two variants share a code, so `from_u8(m.as_u8())` is `Some(m)`.
pub proof fn lemma_blend_mode_codes(f: BlendMode, g: BlendMode)
    ensures
        (f.code() <= 10 || (20 <= f.code() <= 30) || (40 <= f.code() <= 41)),
        f.code() == g.code() ==> f == g,
{
}

} // verus!
