use vstd::prelude::*;

verus! {

/// How a window is placed on screen.
#[derive(Clone, Copy, Debug, PartialEq, Eq, Hash, Default, Structural)]
pub enum WindowState {
    #[default]
    Normal,
    Minimized,
    Maximized,
    Fullscreen,
    TiledLeft,
    TiledRight,
    TiledTop,
    TiledBottom,
    Hidden,
}

impl WindowState {
    /// The stable wire code of each variant.
    pub open spec fn code(self) -> u8 {
        match self {
            WindowState::Normal => 0,
            WindowState::Minimized => 1,
            WindowState::Maximized => 2,
            WindowState::Fullscreen => 3,
            WindowState::TiledLeft => 4,
            WindowState::TiledRight => 5,
            WindowState::TiledTop => 6,
            WindowState::TiledBottom => 7,
            WindowState::Hidden => 8,
        }
    }

    /// The display name of each variant.
    pub open spec fn label(self) -> &'static str {
        match self {
            WindowState::Normal => "Normal",
            WindowState::Minimized => "Minimized",
            WindowState::Maximized => "Maximized",
            WindowState::Fullscreen => "Fullscreen",
            WindowState::TiledLeft => "Tiled Left",
            WindowState::TiledRight => "Tiled Right",
            WindowState::TiledTop => "Tiled Top",
            WindowState::TiledBottom => "Tiled Bottom",
            WindowState::Hidden => "Hidden",
        }
    }

    /// The variant whose wire code is `value`, if any.
    pub fn from_u8(value: u8) -> (r: Option<WindowState>)
        ensures
            r is Some <==> (value <= 8),
            r matches Some(v) ==> v.code() == value,
    {
        match value {
            0 => Some(WindowState::Normal),
            1 => Some(WindowState::Minimized),
            2 => Some(WindowState::Maximized),
            3 => Some(WindowState::Fullscreen),
            4 => Some(WindowState::TiledLeft),
            5 => Some(WindowState::TiledRight),
            6 => Some(WindowState::TiledTop),
            7 => Some(WindowState::TiledBottom),
            8 => Some(WindowState::Hidden),
            _ => None,
        }
    }

    /// The display name.
    pub fn name(&self) -> (r: &'static str)
        ensures
            r@ == self.label()@,
    {
        match self {
            WindowState::Normal => "Normal",
            WindowState::Minimized => "Minimized",
            WindowState::Maximized => "Maximized",
            WindowState::Fullscreen => "Fullscreen",
            WindowState::TiledLeft => "Tiled Left",
            WindowState::TiledRight => "Tiled Right",
            WindowState::TiledTop => "Tiled Top",
            WindowState::TiledBottom => "Tiled Bottom",
            WindowState::Hidden => "Hidden",
        }
    }

    /// Whether the window is drawn.
    pub fn is_visible(&self) -> (r: bool)
        ensures
            r == !(*self == WindowState::Minimized || *self == WindowState::Hidden),
    {
        !matches!(self, WindowState::Minimized | WindowState::Hidden)
    }

    /// Whether the window fills half of the screen.
    pub fn is_tiled(&self) -> (r: bool)
        ensures
            r == (
                *self == WindowState::TiledLeft
                || *self == WindowState::TiledRight
                || *self == WindowState::TiledTop
                || *self == WindowState::TiledBottom
            ),
    {
        matches!(
            self,
            WindowState::TiledLeft
            | WindowState::TiledRight
            | WindowState::TiledTop
            | WindowState::TiledBottom,
        )
    }
}

/// The role of a window.
#[derive(Clone, Copy, Debug, PartialEq, Eq, Hash, Default, Structural)]
pub enum WindowType {
    #[default]
    Normal,
    Dialog,
    Menu,
    Tooltip,
    Notification,
    Splash,
    Desktop,
    Dock,
    Dropdown,
    Popup,
    Dnd,
}

impl WindowType {
    /// The stable wire code of each variant.
    pub open spec fn code(self) -> u8 {
        match self {
            WindowType::Normal => 0,
            WindowType::Dialog => 1,
            WindowType::Menu => 2,
            WindowType::Tooltip => 3,
            WindowType::Notification => 4,
            WindowType::Splash => 5,
            WindowType::Desktop => 6,
            WindowType::Dock => 7,
            WindowType::Dropdown => 8,
            WindowType::Popup => 9,
            WindowType::Dnd => 10,
        }
    }

    /// The display name of each variant.
    pub open spec fn label(self) -> &'static str {
        match self {
            WindowType::Normal => "Normal",
            WindowType::Dialog => "Dialog",
            WindowType::Menu => "Menu",
            WindowType::Tooltip => "Tooltip",
            WindowType::Notification => "Notification",
            WindowType::Splash => "Splash",
            WindowType::Desktop => "Desktop",
            WindowType::Dock => "Dock",
            WindowType::Dropdown => "Dropdown",
            WindowType::Popup => "Popup",
            WindowType::Dnd => "Dnd",
        }
    }

    /// The variant whose wire code is `value`, if any.
    pub fn from_u8(value: u8) -> (r: Option<WindowType>)
        ensures
            r is Some <==> (value <= 10),
            r matches Some(v) ==> v.code() == value,
    {
        match value {
            0 => Some(WindowType::Normal),
            1 => Some(WindowType::Dialog),
            2 => Some(WindowType::Menu),
            3 => Some(WindowType::Tooltip),
            4 => Some(WindowType::Notification),
            5 => Some(WindowType::Splash),
            6 => Some(WindowType::Desktop),
            7 => Some(WindowType::Dock),
            8 => Some(WindowType::Dropdown),
            9 => Some(WindowType::Popup),
            10 => Some(WindowType::Dnd),
            _ => None,
        }
    }

    /// The display name.
    pub fn name(&self) -> (r: &'static str)
        ensures
            r@ == self.label()@,
    {
        match self {
            WindowType::Normal => "Normal",
            WindowType::Dialog => "Dialog",
            WindowType::Menu => "Menu",
            WindowType::Tooltip => "Tooltip",
            WindowType::Notification => "Notification",
            WindowType::Splash => "Splash",
            WindowType::Desktop => "Desktop",
            WindowType::Dock => "Dock",
            WindowType::Dropdown => "Dropdown",
            WindowType::Popup => "Popup",
            WindowType::Dnd => "Dnd",
        }
    }

    /// Whether the window can take keyboard focus.
    pub fn is_focusable(&self) -> (r: bool)
        ensures
            r == (*self == WindowType::Normal || *self == WindowType::Dialog),
    {
        matches!(self, WindowType::Normal | WindowType::Dialog)
    }

    /// Whether the window lives only briefly.
    pub fn is_transient(&self) -> (r: bool)
        ensures
            r == (
                *self == WindowType::Menu
                || *self == WindowType::Tooltip
                || *self == WindowType::Dropdown
                || *self == WindowType::Popup
                || *self == WindowType::Dnd
            ),
    {
        matches!(
            self,
            WindowType::Menu
            | WindowType::Tooltip
            | WindowType::Dropdown
            | WindowType::Popup
            | WindowType::Dnd,
        )
    }
}

/// The edge or corner a window is resized by.
///
/// The code is a bit set: top `1`, bottom `2`, left `4`, right `8`.
#[derive(Clone, Copy, Debug, PartialEq, Eq, Hash, Structural)]
pub enum ResizeEdge {
    Top,
    Bottom,
    Left,
    Right,
    TopLeft,
    TopRight,
    BottomLeft,
    BottomRight,
}

impl ResizeEdge {
    /// The stable wire code of each variant.
    pub open spec fn code(self) -> u8 {
        match self {
            ResizeEdge::Top => 1,
            ResizeEdge::Bottom => 2,
            ResizeEdge::Left => 4,
            ResizeEdge::Right => 8,
            ResizeEdge::TopLeft => 5,
            ResizeEdge::TopRight => 9,
            ResizeEdge::BottomLeft => 6,
            ResizeEdge::BottomRight => 10,
        }
    }

    /// The variant whose wire code is `value`, if any.
    pub fn from_u8(value: u8) -> (r: Option<ResizeEdge>)
        ensures
            r is Some <==> (value == 1 || value == 2 || value == 4 || value == 5 || value == 6 || value == 8
                || value == 9 || value == 10),
            r matches Some(v) ==> v.code() == value,
    {
        match value {
            1 => Some(ResizeEdge::Top),
            2 => Some(ResizeEdge::Bottom),
            4 => Some(ResizeEdge::Left),
            8 => Some(ResizeEdge::Right),
            5 => Some(ResizeEdge::TopLeft),
            9 => Some(ResizeEdge::TopRight),
            6 => Some(ResizeEdge::BottomLeft),
            10 => Some(ResizeEdge::BottomRight),
            _ => None,
        }
    }

    /// The wire code.
    pub fn as_u8(&self) -> (r: u8)
        ensures
            r == self.code(),
    {
        match self {
            ResizeEdge::Top => 1,
            ResizeEdge::Bottom => 2,
            ResizeEdge::Left => 4,
            ResizeEdge::Right => 8,
            ResizeEdge::TopLeft => 5,
            ResizeEdge::TopRight => 9,
            ResizeEdge::BottomLeft => 6,
            ResizeEdge::BottomRight => 10,
        }
    }
    pub fn has_top(&self) -> (b: bool)
        ensures
            b == (self.code() & 1 != 0),
    {
        self.as_u8() & 1 != 0
    }

    pub fn has_bottom(&self) -> (b: bool)
        ensures
            b == (self.code() & 2 != 0),
    {
        self.as_u8() & 2 != 0
    }

    pub fn has_left(&self) -> (b: bool)
        ensures
            b == (self.code() & 4 != 0),
    {
        self.as_u8() & 4 != 0
    }

    pub fn has_right(&self) -> (b: bool)
        ensures
            b == (self.code() & 8 != 0),
    {
        self.as_u8() & 8 != 0
    }
}

} // verus!
