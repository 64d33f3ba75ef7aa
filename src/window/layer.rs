use vstd::prelude::*;

verus! {

/// A compositor layer; layers are drawn in increasing order.
#[derive(Clone, Copy, Debug, PartialEq, Eq, Hash, Default, PartialOrd, Ord, Structural)]
pub enum LayerType {
    /// Wallpaper, below everything.
    #[default]
    Background,
    /// Application windows.
    Normal,
    /// Windows kept above normal ones.
    Top,
    /// Taskbars and docks.
    Panel,
    /// Notifications and pop-up menus.
    Overlay,
    /// The lock screen.
    Lock,
    /// The mouse cursor, above everything.
    Cursor,
}

impl LayerType {
    /// The stable wire code of each variant.
    pub open spec fn code(self) -> u32 {
        match self {
            LayerType::Background => 0,
            LayerType::Normal => 1,
            LayerType::Top => 2,
            LayerType::Panel => 3,
            LayerType::Overlay => 4,
            LayerType::Lock => 5,
            LayerType::Cursor => 6,
        }
    }

    /// The display name of each variant.
    pub open spec fn label(self) -> &'static str {
        match self {
            LayerType::Background => "Background",
            LayerType::Normal => "Normal",
            LayerType::Top => "Top",
            LayerType::Panel => "Panel",
            LayerType::Overlay => "Overlay",
            LayerType::Lock => "Lock",
            LayerType::Cursor => "Cursor",
        }
    }

    /// The variant whose wire code is `value`, if any.
    pub fn from_u32(value: u32) -> (r: Option<LayerType>)
        ensures
            r is Some <==> (value <= 6),
            r matches Some(v) ==> v.code() == value,
    {
        match value {
            0 => Some(LayerType::Background),
            1 => Some(LayerType::Normal),
            2 => Some(LayerType::Top),
            3 => Some(LayerType::Panel),
            4 => Some(LayerType::Overlay),
            5 => Some(LayerType::Lock),
            6 => Some(LayerType::Cursor),
            _ => None,
        }
    }

    /// The wire code, which is also the drawing order.
    pub fn as_u32(&self) -> (r: u32)
        ensures
            r == self.code(),
    {
        match self {
            LayerType::Background => 0,
            LayerType::Normal => 1,
            LayerType::Top => 2,
            LayerType::Panel => 3,
            LayerType::Overlay => 4,
            LayerType::Lock => 5,
            LayerType::Cursor => 6,
        }
    }

    /// The display name.
    pub fn name(&self) -> (r: &'static str)
        ensures
            r@ == self.label()@,
    {
        match self {
            LayerType::Background => "Background",
            LayerType::Normal => "Normal",
            LayerType::Top => "Top",
            LayerType::Panel => "Panel",
            LayerType::Overlay => "Overlay",
            LayerType::Lock => "Lock",
            LayerType::Cursor => "Cursor",
        }
    }

    /// Whether surfaces on this layer get input.
    pub fn receives_input(&self) -> (r: bool)
        ensures
            r == (
                *self == LayerType::Normal
                || *self == LayerType::Top
                || *self == LayerType::Panel
                || *self == LayerType::Overlay
            ),
    {
        matches!(self, LayerType::Normal | LayerType::Top | LayerType::Panel | LayerType::Overlay)
    }

    /// Whether the layer hides every layer below it from input.
    pub fn blocks_below(&self) -> (r: bool)
        ensures
            r == (*self == LayerType::Lock),
    {
        matches!(self, LayerType::Lock)
    }
}

} // verus!
