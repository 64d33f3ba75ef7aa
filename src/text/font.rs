use vstd::prelude::*;

verus! {

/// The weight (stroke thickness) of a font, on the CSS scale.
#[derive(Clone, Copy, Debug, PartialEq, Eq, Hash, Default, PartialOrd, Ord, Structural)]
pub enum FontWeight {
    Thin,
    ExtraLight,
    Light,
    #[default]
    Normal,
    Medium,
    SemiBold,
    Bold,
    ExtraBold,
    Black,
}

impl FontWeight {
    /// The stable wire code of each variant.
    pub open spec fn code(self) -> u16 {
        match self {
            FontWeight::Thin => 100,
            FontWeight::ExtraLight => 200,
            FontWeight::Light => 300,
            FontWeight::Normal => 400,
            FontWeight::Medium => 500,
            FontWeight::SemiBold => 600,
            FontWeight::Bold => 700,
            FontWeight::ExtraBold => 800,
            FontWeight::Black => 900,
        }
    }

    /// The display name of each variant.
    pub open spec fn label(self) -> &'static str {
        match self {
            FontWeight::Thin => "Thin",
            FontWeight::ExtraLight => "ExtraLight",
            FontWeight::Light => "Light",
            FontWeight::Normal => "Normal",
            FontWeight::Medium => "Medium",
            FontWeight::SemiBold => "SemiBold",
            FontWeight::Bold => "Bold",
            FontWeight::ExtraBold => "ExtraBold",
            FontWeight::Black => "Black",
        }
    }

    /// The numeric weight.
    pub fn value(&self) -> (r: u16)
        ensures
            r == self.code(),
    {
        match self {
            FontWeight::Thin => 100,
            FontWeight::ExtraLight => 200,
            FontWeight::Light => 300,
            FontWeight::Normal => 400,
            FontWeight::Medium => 500,
            FontWeight::SemiBold => 600,
            FontWeight::Bold => 700,
            FontWeight::ExtraBold => 800,
            FontWeight::Black => 900,
        }
    }

    /// The display name.
    pub fn name(&self) -> (r: &'static str)
        ensures
            r@ == self.label()@,
    {
        match self {
            FontWeight::Thin => "Thin",
            FontWeight::ExtraLight => "ExtraLight",
            FontWeight::Light => "Light",
            FontWeight::Normal => "Normal",
            FontWeight::Medium => "Medium",
            FontWeight::SemiBold => "SemiBold",
            FontWeight::Bold => "Bold",
            FontWeight::ExtraBold => "ExtraBold",
            FontWeight::Black => "Black",
        }
    }
    /// The named weight nearest to `value`; ties go to the lighter one.
    pub open spec fn nearest(value: u16) -> FontWeight {
        if value <= 150 {
            FontWeight::Thin
        } else if value <= 250 {
            FontWeight::ExtraLight
        } else if value <= 350 {
            FontWeight::Light
        } else if value <= 450 {
            FontWeight::Normal
        } else if value <= 550 {
            FontWeight::Medium
        } else if value <= 650 {
            FontWeight::SemiBold
        } else if value <= 750 {
            FontWeight::Bold
        } else if value <= 850 {
            FontWeight::ExtraBold
        } else {
            FontWeight::Black
        }
    }

    /// The named weight nearest to `value`.
    pub fn from_u16(value: u16) -> (w: FontWeight)
        ensures
            w == FontWeight::nearest(value),
    {
        if value <= 150 {
            FontWeight::Thin
        } else if value <= 250 {
            FontWeight::ExtraLight
        } else if value <= 350 {
            FontWeight::Light
        } else if value <= 450 {
            FontWeight::Normal
        } else if value <= 550 {
            FontWeight::Medium
        } else if value <= 650 {
            FontWeight::SemiBold
        } else if value <= 750 {
            FontWeight::Bold
        } else if value <= 850 {
            FontWeight::ExtraBold
        } else {
            FontWeight::Black
        }
    }

    /// Semi-bold and heavier.
    pub fn is_bold(&self) -> (b: bool)
        ensures
            b == (self.code() >= 600),
    {
        self.value() >= 600
    }
}

/// The slant of a font.
#[derive(Clone, Copy, Debug, PartialEq, Eq, Hash, Default, Structural)]
pub enum FontStyle {
    #[default]
    Normal,
    Italic,
    Oblique,
}

impl FontStyle {
    /// The stable wire code of each variant.
    pub open spec fn code(self) -> u8 {
        match self {
            FontStyle::Normal => 0,
            FontStyle::Italic => 1,
            FontStyle::Oblique => 2,
        }
    }

    /// The display name of each variant.
    pub open spec fn label(self) -> &'static str {
        match self {
            FontStyle::Normal => "Normal",
            FontStyle::Italic => "Italic",
            FontStyle::Oblique => "Oblique",
        }
    }

    /// The variant whose wire code is `value`, if any.
    pub fn from_u8(value: u8) -> (r: Option<FontStyle>)
        ensures
            r is Some <==> (value <= 2),
            r matches Some(v) ==> v.code() == value,
    {
        match value {
            0 => Some(FontStyle::Normal),
            1 => Some(FontStyle::Italic),
            2 => Some(FontStyle::Oblique),
            _ => None,
        }
    }

    /// The display name.
    pub fn name(&self) -> (r: &'static str)
        ensures
            r@ == self.label()@,
    {
        match self {
            FontStyle::Normal => "Normal",
            FontStyle::Italic => "Italic",
            FontStyle::Oblique => "Oblique",
        }
    }

    /// Whether the glyphs lean.
    pub fn is_slanted(&self) -> (r: bool)
        ensures
            r == !(*self == FontStyle::Normal),
    {
        !matches!(self, FontStyle::Normal)
    }
}

/// Horizontal alignment of text in its box.
#[derive(Clone, Copy, Debug, PartialEq, Eq, Hash, Default, Structural)]
pub enum TextAlign {
    #[default]
    Left,
    Center,
    Right,
    Justify,
}

impl TextAlign {
    /// The stable wire code of each variant.
    pub open spec fn code(self) -> u8 {
        match self {
            TextAlign::Left => 0,
            TextAlign::Center => 1,
            TextAlign::Right => 2,
            TextAlign::Justify => 3,
        }
    }

    /// The display name of each variant.
    pub open spec fn label(self) -> &'static str {
        match self {
            TextAlign::Left => "Left",
            TextAlign::Center => "Center",
            TextAlign::Right => "Right",
            TextAlign::Justify => "Justify",
        }
    }

    /// The variant whose wire code is `value`, if any.
    pub fn from_u8(value: u8) -> (r: Option<TextAlign>)
        ensures
            r is Some <==> (value <= 3),
            r matches Some(v) ==> v.code() == value,
    {
        match value {
            0 => Some(TextAlign::Left),
            1 => Some(TextAlign::Center),
            2 => Some(TextAlign::Right),
            3 => Some(TextAlign::Justify),
            _ => None,
        }
    }

    /// The display name.
    pub fn name(&self) -> (r: &'static str)
        ensures
            r@ == self.label()@,
    {
        match self {
            TextAlign::Left => "Left",
            TextAlign::Center => "Center",
            TextAlign::Right => "Right",
            TextAlign::Justify => "Justify",
        }
    }
}

/// Which line of the text sits at the given y coordinate.
#[derive(Clone, Copy, Debug, PartialEq, Eq, Hash, Default, Structural)]
pub enum TextBaseline {
    Top,
    Middle,
    #[default]
    Alphabetic,
    Bottom,
    Hanging,
    Ideographic,
}

impl TextBaseline {
    /// The stable wire code of each variant.
    pub open spec fn code(self) -> u8 {
        match self {
            TextBaseline::Top => 0,
            TextBaseline::Middle => 1,
            TextBaseline::Alphabetic => 2,
            TextBaseline::Bottom => 3,
            TextBaseline::Hanging => 4,
            TextBaseline::Ideographic => 5,
        }
    }

    /// The display name of each variant.
    pub open spec fn label(self) -> &'static str {
        match self {
            TextBaseline::Top => "Top",
            TextBaseline::Middle => "Middle",
            TextBaseline::Alphabetic => "Alphabetic",
            TextBaseline::Bottom => "Bottom",
            TextBaseline::Hanging => "Hanging",
            TextBaseline::Ideographic => "Ideographic",
        }
    }

    /// The variant whose wire code is `value`, if any.
    pub fn from_u8(value: u8) -> (r: Option<TextBaseline>)
        ensures
            r is Some <==> (value <= 5),
            r matches Some(v) ==> v.code() == value,
    {
        match value {
            0 => Some(TextBaseline::Top),
            1 => Some(TextBaseline::Middle),
            2 => Some(TextBaseline::Alphabetic),
            3 => Some(TextBaseline::Bottom),
            4 => Some(TextBaseline::Hanging),
            5 => Some(TextBaseline::Ideographic),
            _ => None,
        }
    }

    /// The display name.
    pub fn name(&self) -> (r: &'static str)
        ensures
            r@ == self.label()@,
    {
        match self {
            TextBaseline::Top => "Top",
            TextBaseline::Middle => "Middle",
            TextBaseline::Alphabetic => "Alphabetic",
            TextBaseline::Bottom => "Bottom",
            TextBaseline::Hanging => "Hanging",
            TextBaseline::Ideographic => "Ideographic",
        }
    }
}

/// Lines drawn with text, one bit each.
#[derive(Clone, Copy, Debug, Default, PartialEq, Eq, Hash, Structural)]
pub struct TextDecoration(pub u8);

impl TextDecoration {
    /// No decoration.
    #[allow(non_snake_case)]
    pub fn NONE() -> (f: TextDecoration)
        ensures
            f.0 == 0,
    {
        TextDecoration(0)
    }

    /// A line under the text.
    #[allow(non_snake_case)]
    pub fn UNDERLINE() -> (f: TextDecoration)
        ensures
            f.0 == 1,
    {
        TextDecoration(1)
    }

    /// A line over the text.
    #[allow(non_snake_case)]
    pub fn OVERLINE() -> (f: TextDecoration)
        ensures
            f.0 == 2,
    {
        TextDecoration(2)
    }

    /// A line through the text.
    #[allow(non_snake_case)]
    pub fn LINE_THROUGH() -> (f: TextDecoration)
        ensures
            f.0 == 4,
    {
        TextDecoration(4)
    }

    /// Whether any bit of `flag` is set.
    pub fn has(&self, flag: TextDecoration) -> (b: bool)
        ensures
            b == (self.0 & flag.0 != 0),
    {
        (self.0 & flag.0) != 0
    }

    /// The set with the bits of `flag` added.
    pub fn with(&self, flag: TextDecoration) -> (f: TextDecoration)
        ensures
            f.0 == self.0 | flag.0,
    {
        TextDecoration(self.0 | flag.0)
    }
}

} // verus!
