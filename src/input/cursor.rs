use vstd::prelude::*;

use crate::geometry::Point;

verus! {

/// The shape of the mouse cursor.
///
/// Resize cursors have the codes `10..=21`.
#[derive(Clone, Copy, Debug, PartialEq, Eq, Hash, Default, Structural)]
pub enum CursorType {
    #[default]
    Default,
    Pointer,
    Text,
    Wait,
    Progress,
    Crosshair,
    Move,
    NotAllowed,
    ResizeN,
    ResizeNE,
    ResizeE,
    ResizeSE,
    ResizeS,
    ResizeSW,
    ResizeW,
    ResizeNW,
    ResizeNS,
    ResizeEW,
    ResizeNESW,
    ResizeNWSE,
    Grab,
    Grabbing,
    ZoomIn,
    ZoomOut,
    Help,
    ContextMenu,
    Cell,
    Copy,
    Alias,
    /// No cursor is drawn.
    Hidden,
}

impl CursorType {
    /// The stable wire code of each variant.
    pub open spec fn code(self) -> u8 {
        match self {
            CursorType::Default => 0,
            CursorType::Pointer => 1,
            CursorType::Text => 2,
            CursorType::Wait => 3,
            CursorType::Progress => 4,
            CursorType::Crosshair => 5,
            CursorType::Move => 6,
            CursorType::NotAllowed => 7,
            CursorType::ResizeN => 10,
            CursorType::ResizeNE => 11,
            CursorType::ResizeE => 12,
            CursorType::ResizeSE => 13,
            CursorType::ResizeS => 14,
            CursorType::ResizeSW => 15,
            CursorType::ResizeW => 16,
            CursorType::ResizeNW => 17,
            CursorType::ResizeNS => 18,
            CursorType::ResizeEW => 19,
            CursorType::ResizeNESW => 20,
            CursorType::ResizeNWSE => 21,
            CursorType::Grab => 30,
            CursorType::Grabbing => 31,
            CursorType::ZoomIn => 32,
            CursorType::ZoomOut => 33,
            CursorType::Help => 40,
            CursorType::ContextMenu => 41,
            CursorType::Cell => 42,
            CursorType::Copy => 43,
            CursorType::Alias => 44,
            CursorType::Hidden => 255,
        }
    }

    /// The display name of each variant.
    pub open spec fn label(self) -> &'static str {
        match self {
            CursorType::Default => "default",
            CursorType::Pointer => "pointer",
            CursorType::Text => "text",
            CursorType::Wait => "wait",
            CursorType::Progress => "progress",
            CursorType::Crosshair => "crosshair",
            CursorType::Move => "move",
            CursorType::NotAllowed => "not-allowed",
            CursorType::ResizeN => "n-resize",
            CursorType::ResizeNE => "ne-resize",
            CursorType::ResizeE => "e-resize",
            CursorType::ResizeSE => "se-resize",
            CursorType::ResizeS => "s-resize",
            CursorType::ResizeSW => "sw-resize",
            CursorType::ResizeW => "w-resize",
            CursorType::ResizeNW => "nw-resize",
            CursorType::ResizeNS => "ns-resize",
            CursorType::ResizeEW => "ew-resize",
            CursorType::ResizeNESW => "nesw-resize",
            CursorType::ResizeNWSE => "nwse-resize",
            CursorType::Grab => "grab",
            CursorType::Grabbing => "grabbing",
            CursorType::ZoomIn => "zoom-in",
            CursorType::ZoomOut => "zoom-out",
            CursorType::Help => "help",
            CursorType::ContextMenu => "context-menu",
            CursorType::Cell => "cell",
            CursorType::Copy => "copy",
            CursorType::Alias => "alias",
            CursorType::Hidden => "none",
        }
    }

    /// The variant whose wire code is `value`, if any.
    pub fn from_u8(value: u8) -> (r: Option<CursorType>)
        ensures
            r is Some <==> (value <= 7 || (10 <= value <= 21) || (30 <= value <= 33) || (40 <= value
                <= 44) || value == 255),
            r matches Some(v) ==> v.code() == value,
    {
        match value {
            0 => Some(CursorType::Default),
            1 => Some(CursorType::Pointer),
            2 => Some(CursorType::Text),
            3 => Some(CursorType::Wait),
            4 => Some(CursorType::Progress),
            5 => Some(CursorType::Crosshair),
            6 => Some(CursorType::Move),
            7 => Some(CursorType::NotAllowed),
            10 => Some(CursorType::ResizeN),
            11 => Some(CursorType::ResizeNE),
            12 => Some(CursorType::ResizeE),
            13 => Some(CursorType::ResizeSE),
            14 => Some(CursorType::ResizeS),
            15 => Some(CursorType::ResizeSW),
            16 => Some(CursorType::ResizeW),
            17 => Some(CursorType::ResizeNW),
            18 => Some(CursorType::ResizeNS),
            19 => Some(CursorType::ResizeEW),
            20 => Some(CursorType::ResizeNESW),
            21 => Some(CursorType::ResizeNWSE),
            30 => Some(CursorType::Grab),
            31 => Some(CursorType::Grabbing),
            32 => Some(CursorType::ZoomIn),
            33 => Some(CursorType::ZoomOut),
            40 => Some(CursorType::Help),
            41 => Some(CursorType::ContextMenu),
            42 => Some(CursorType::Cell),
            43 => Some(CursorType::Copy),
            44 => Some(CursorType::Alias),
            255 => Some(CursorType::Hidden),
            _ => None,
        }
    }

    /// The wire code.
    pub fn as_u8(&self) -> (r: u8)
        ensures
            r == self.code(),
    {
        match self {
            CursorType::Default => 0,
            CursorType::Pointer => 1,
            CursorType::Text => 2,
            CursorType::Wait => 3,
            CursorType::Progress => 4,
            CursorType::Crosshair => 5,
            CursorType::Move => 6,
            CursorType::NotAllowed => 7,
            CursorType::ResizeN => 10,
            CursorType::ResizeNE => 11,
            CursorType::ResizeE => 12,
            CursorType::ResizeSE => 13,
            CursorType::ResizeS => 14,
            CursorType::ResizeSW => 15,
            CursorType::ResizeW => 16,
            CursorType::ResizeNW => 17,
            CursorType::ResizeNS => 18,
            CursorType::ResizeEW => 19,
            CursorType::ResizeNESW => 20,
            CursorType::ResizeNWSE => 21,
            CursorType::Grab => 30,
            CursorType::Grabbing => 31,
            CursorType::ZoomIn => 32,
            CursorType::ZoomOut => 33,
            CursorType::Help => 40,
            CursorType::ContextMenu => 41,
            CursorType::Cell => 42,
            CursorType::Copy => 43,
            CursorType::Alias => 44,
            CursorType::Hidden => 255,
        }
    }

    /// The display name.
    pub fn name(&self) -> (r: &'static str)
        ensures
            r@ == self.label()@,
    {
        match self {
            CursorType::Default => "default",
            CursorType::Pointer => "pointer",
            CursorType::Text => "text",
            CursorType::Wait => "wait",
            CursorType::Progress => "progress",
            CursorType::Crosshair => "crosshair",
            CursorType::Move => "move",
            CursorType::NotAllowed => "not-allowed",
            CursorType::ResizeN => "n-resize",
            CursorType::ResizeNE => "ne-resize",
            CursorType::ResizeE => "e-resize",
            CursorType::ResizeSE => "se-resize",
            CursorType::ResizeS => "s-resize",
            CursorType::ResizeSW => "sw-resize",
            CursorType::ResizeW => "w-resize",
            CursorType::ResizeNW => "nw-resize",
            CursorType::ResizeNS => "ns-resize",
            CursorType::ResizeEW => "ew-resize",
            CursorType::ResizeNESW => "nesw-resize",
            CursorType::ResizeNWSE => "nwse-resize",
            CursorType::Grab => "grab",
            CursorType::Grabbing => "grabbing",
            CursorType::ZoomIn => "zoom-in",
            CursorType::ZoomOut => "zoom-out",
            CursorType::Help => "help",
            CursorType::ContextMenu => "context-menu",
            CursorType::Cell => "cell",
            CursorType::Copy => "copy",
            CursorType::Alias => "alias",
            CursorType::Hidden => "none",
        }
    }
    /// Whether this is one of the resize cursors.
    pub fn is_resize(&self) -> (b: bool)
        ensures
            b == (10 <= self.code() <= 21),
    {
        let c = self.as_u8();
        c >= 10 && c <= 21
    }

    /// Where the cursor image's active pixel is: the top-left corner for
    /// arrow-like shapes, `(8, 8)` for all others.
    pub fn default_hotspot(&self) -> (h: CursorHotspot)
        ensures
            h == if *self == CursorType::Default || *self == CursorType::Pointer || *self
                == CursorType::Help || *self == CursorType::ContextMenu {
                CursorHotspot { x: 0, y: 0 }
            } else {
                CursorHotspot { x: 8, y: 8 }
            },
    {
        match self {
            CursorType::Default | CursorType::Pointer | CursorType::Help | CursorType::ContextMenu => {
                CursorHotspot { x: 0, y: 0 }
            },
            _ => CursorHotspot { x: 8, y: 8 },
        }
    }
}

/// The active pixel of a cursor image, relative to its top-left corner.
#[derive(Clone, Copy, Debug, Default, PartialEq, Eq, Hash, Structural)]
pub struct CursorHotspot {
    pub x: i32,
    pub y: i32,
}

impl CursorHotspot {
    pub fn new(x: i32, y: i32) -> (h: CursorHotspot)
        ensures
            h == (CursorHotspot { x, y }),
    {
        CursorHotspot { x, y }
    }

    /// The top-left corner.
    #[allow(non_snake_case)]
    pub fn ZERO() -> (h: CursorHotspot)
        ensures
            h == (CursorHotspot { x: 0, y: 0 }),
    {
        CursorHotspot { x: 0, y: 0 }
    }

    pub fn to_point(&self) -> (p: Point)
        ensures
            p == (Point { x: self.x, y: self.y }),
    {
        Point { x: self.x, y: self.y }
    }
}

impl core::convert::From<Point> for CursorHotspot {
    fn from(p: Point) -> (h: CursorHotspot) {
        CursorHotspot { x: p.x, y: p.y }
    }
}

impl vstd::std_specs::convert::FromSpecImpl<Point> for CursorHotspot {
    open spec fn obeys_from_spec() -> bool {
        true
    }

    open spec fn from_spec(p: Point) -> CursorHotspot {
        CursorHotspot { x: p.x, y: p.y }
    }
}

impl core::convert::From<CursorHotspot> for Point {
    fn from(h: CursorHotspot) -> (p: Point) {
        h.to_point()
    }
}

impl vstd::std_specs::convert::FromSpecImpl<CursorHotspot> for Point {
    open spec fn obeys_from_spec() -> bool {
        true
    }

    open spec fn from_spec(h: CursorHotspot) -> Point {
        Point { x: h.x, y: h.y }
    }
}

} // verus!
