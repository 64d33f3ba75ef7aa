use vstd::prelude::*;

verus! {

/// The physical connector of a display output.
#[derive(Clone, Copy, Debug, PartialEq, Eq, Hash, Default, Structural)]
pub enum ConnectorType {
    #[default]
    Unknown,
    VGA,
    DVII,
    DVID,
    DVIA,
    Composite,
    SVideo,
    LVDS,
    Component,
    DisplayPort,
    HDMIA,
    HDMIB,
    TV,
    EDP,
    Virtual,
    DSI,
    USBC,
}

impl ConnectorType {
    /// The stable wire code of each variant.
    pub open spec fn code(self) -> u8 {
        match self {
            ConnectorType::Unknown => 0,
            ConnectorType::VGA => 1,
            ConnectorType::DVII => 2,
            ConnectorType::DVID => 3,
            ConnectorType::DVIA => 4,
            ConnectorType::Composite => 5,
            ConnectorType::SVideo => 6,
            ConnectorType::LVDS => 7,
            ConnectorType::Component => 8,
            ConnectorType::DisplayPort => 9,
            ConnectorType::HDMIA => 10,
            ConnectorType::HDMIB => 11,
            ConnectorType::TV => 12,
            ConnectorType::EDP => 13,
            ConnectorType::Virtual => 14,
            ConnectorType::DSI => 15,
            ConnectorType::USBC => 16,
        }
    }

    /// The display name of each variant.
    pub open spec fn label(self) -> &'static str {
        match self {
            ConnectorType::Unknown => "Unknown",
            ConnectorType::VGA => "VGA",
            ConnectorType::DVII => "DVI-I",
            ConnectorType::DVID => "DVI-D",
            ConnectorType::DVIA => "DVI-A",
            ConnectorType::Composite => "Composite",
            ConnectorType::SVideo => "S-Video",
            ConnectorType::LVDS => "LVDS",
            ConnectorType::Component => "Component",
            ConnectorType::DisplayPort => "DisplayPort",
            ConnectorType::HDMIA => "HDMI-A",
            ConnectorType::HDMIB => "HDMI-B",
            ConnectorType::TV => "TV",
            ConnectorType::EDP => "eDP",
            ConnectorType::Virtual => "Virtual",
            ConnectorType::DSI => "DSI",
            ConnectorType::USBC => "USB-C",
        }
    }

    /// The variant whose wire code is `value`, if any.
    pub fn from_u8(value: u8) -> (r: Option<ConnectorType>)
        ensures
            r is Some <==> (value <= 16),
            r matches Some(v) ==> v.code() == value,
    {
        match value {
            0 => Some(ConnectorType::Unknown),
            1 => Some(ConnectorType::VGA),
            2 => Some(ConnectorType::DVII),
            3 => Some(ConnectorType::DVID),
            4 => Some(ConnectorType::DVIA),
            5 => Some(ConnectorType::Composite),
            6 => Some(ConnectorType::SVideo),
            7 => Some(ConnectorType::LVDS),
            8 => Some(ConnectorType::Component),
            9 => Some(ConnectorType::DisplayPort),
            10 => Some(ConnectorType::HDMIA),
            11 => Some(ConnectorType::HDMIB),
            12 => Some(ConnectorType::TV),
            13 => Some(ConnectorType::EDP),
            14 => Some(ConnectorType::Virtual),
            15 => Some(ConnectorType::DSI),
            16 => Some(ConnectorType::USBC),
            _ => None,
        }
    }

    /// The display name.
    pub fn name(&self) -> (r: &'static str)
        ensures
            r@ == self.label()@,
    {
        match self {
            ConnectorType::Unknown => "Unknown",
            ConnectorType::VGA => "VGA",
            ConnectorType::DVII => "DVI-I",
            ConnectorType::DVID => "DVI-D",
            ConnectorType::DVIA => "DVI-A",
            ConnectorType::Composite => "Composite",
            ConnectorType::SVideo => "S-Video",
            ConnectorType::LVDS => "LVDS",
            ConnectorType::Component => "Component",
            ConnectorType::DisplayPort => "DisplayPort",
            ConnectorType::HDMIA => "HDMI-A",
            ConnectorType::HDMIB => "HDMI-B",
            ConnectorType::TV => "TV",
            ConnectorType::EDP => "eDP",
            ConnectorType::Virtual => "Virtual",
            ConnectorType::DSI => "DSI",
            ConnectorType::USBC => "USB-C",
        }
    }

    /// Whether the link is digital.
    pub fn is_digital(&self) -> (r: bool)
        ensures
            r == (
                *self == ConnectorType::DVID
                || *self == ConnectorType::DisplayPort
                || *self == ConnectorType::HDMIA
                || *self == ConnectorType::HDMIB
                || *self == ConnectorType::EDP
                || *self == ConnectorType::DSI
                || *self == ConnectorType::USBC
            ),
    {
        matches!(
            self,
            ConnectorType::DVID
            | ConnectorType::DisplayPort
            | ConnectorType::HDMIA
            | ConnectorType::HDMIB
            | ConnectorType::EDP
            | ConnectorType::DSI
            | ConnectorType::USBC,
        )
    }

    /// Whether the link can carry audio.
    pub fn supports_audio(&self) -> (r: bool)
        ensures
            r == (
                *self == ConnectorType::HDMIA
                || *self == ConnectorType::HDMIB
                || *self == ConnectorType::DisplayPort
                || *self == ConnectorType::EDP
                || *self == ConnectorType::USBC
            ),
    {
        matches!(
            self,
            ConnectorType::HDMIA
            | ConnectorType::HDMIB
            | ConnectorType::DisplayPort
            | ConnectorType::EDP
            | ConnectorType::USBC,
        )
    }
}

/// A display output (connector) and the panel behind it.
#[derive(Clone, Copy, Debug, Default, PartialEq, Eq, Structural)]
pub struct OutputInfo {
    pub id: u32,
    pub connector: ConnectorType,
    pub connected: bool,
    /// Physical width in millimetres (0 when unknown).
    pub width_mm: u32,
    /// Physical height in millimetres (0 when unknown).
    pub height_mm: u32,
}

} // verus!
