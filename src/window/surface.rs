use vstd::prelude::*;

use crate::buffer::BufferHandle;
use crate::geometry::Size;

verus! {

/// Identifies a surface; `0` is the invalid id.
#[derive(Clone, Copy, Debug, PartialEq, Eq, Hash, Default, Structural)]
pub struct SurfaceId(pub u32);

impl SurfaceId {
    pub fn new(id: u32) -> (s: SurfaceId)
        ensures
            s.0 == id,
    {
        SurfaceId(id)
    }

    /// The reserved invalid id.
    #[allow(non_snake_case)]
    pub fn INVALID() -> (s: SurfaceId)
        ensures
            s.0 == 0,
    {
        SurfaceId(0)
    }

    pub fn is_valid(&self) -> (b: bool)
        ensures
            b == (self.0 != 0),
    {
        self.0 != 0
    }
}

/// The role of a surface.
#[derive(Clone, Copy, Debug, PartialEq, Eq, Hash, Default, Structural)]
pub enum SurfaceType {
    #[default]
    Toplevel,
    Popup,
    Subsurface,
    Dnd,
}

impl SurfaceType {
    /// The stable wire code of each variant.
    pub open spec fn code(self) -> u8 {
        match self {
            SurfaceType::Toplevel => 0,
            SurfaceType::Popup => 1,
            SurfaceType::Subsurface => 2,
            SurfaceType::Dnd => 3,
        }
    }

    /// The display name of each variant.
    pub open spec fn label(self) -> &'static str {
        match self {
            SurfaceType::Toplevel => "Toplevel",
            SurfaceType::Popup => "Popup",
            SurfaceType::Subsurface => "Subsurface",
            SurfaceType::Dnd => "Dnd",
        }
    }

    /// The variant whose wire code is `value`, if any.
    pub fn from_u8(value: u8) -> (r: Option<SurfaceType>)
        ensures
            r is Some <==> (value <= 3),
            r matches Some(v) ==> v.code() == value,
    {
        match value {
            0 => Some(SurfaceType::Toplevel),
            1 => Some(SurfaceType::Popup),
            2 => Some(SurfaceType::Subsurface),
            3 => Some(SurfaceType::Dnd),
            _ => None,
        }
    }

    /// The display name.
    pub fn name(&self) -> (r: &'static str)
        ensures
            r@ == self.label()@,
    {
        match self {
            SurfaceType::Toplevel => "Toplevel",
            SurfaceType::Popup => "Popup",
            SurfaceType::Subsurface => "Subsurface",
            SurfaceType::Dnd => "Dnd",
        }
    }
}

/// How many buffers a surface cycles through.
#[derive(Clone, Copy, Debug, PartialEq, Eq, Hash, Default, Structural)]
pub enum BufferMode {
    Single,
    #[default]
    Double,
    Triple,
}

impl BufferMode {
    /// The stable wire code of each variant.
    pub open spec fn code(self) -> u8 {
        match self {
            BufferMode::Single => 1,
            BufferMode::Double => 2,
            BufferMode::Triple => 3,
        }
    }

    /// The variant whose wire code is `value`, if any.
    pub fn from_u8(value: u8) -> (r: Option<BufferMode>)
        ensures
            r is Some <==> (1 <= value <= 3),
            r matches Some(v) ==> v.code() == value,
    {
        match value {
            1 => Some(BufferMode::Single),
            2 => Some(BufferMode::Double),
            3 => Some(BufferMode::Triple),
            _ => None,
        }
    }
    /// Number of buffers, which is also the wire code.
    pub fn buffer_count(&self) -> (n: usize)
        ensures
            n == self.code(),
    {
        match self {
            BufferMode::Single => 1,
            BufferMode::Double => 2,
            BufferMode::Triple => 3,
        }
    }
}

/// How a surface is to be created.
#[derive(Clone, Copy, Debug, Default, PartialEq, Eq, Structural)]
pub struct SurfaceConfig {
    pub size: Size,
    pub surface_type: SurfaceType,
    pub buffer_mode: BufferMode,
    pub parent: SurfaceId,
}

impl SurfaceConfig {
    /// A double-buffered top-level surface without a parent.
    pub fn new(width: u32, height: u32) -> (c: SurfaceConfig)
        ensures
            c == (SurfaceConfig {
                size: Size { width, height },
                surface_type: SurfaceType::Toplevel,
                buffer_mode: BufferMode::Double,
                parent: SurfaceId(0),
            }),
    {
        SurfaceConfig {
            size: Size { width, height },
            surface_type: SurfaceType::Toplevel,
            buffer_mode: BufferMode::Double,
            parent: SurfaceId::INVALID(),
        }
    }

    pub fn with_type(self, stype: SurfaceType) -> (c: SurfaceConfig)
        ensures
            c == (SurfaceConfig { surface_type: stype, ..self }),
    {
        SurfaceConfig { surface_type: stype, ..self }
    }

    pub fn with_parent(self, parent: SurfaceId) -> (c: SurfaceConfig)
        ensures
            c == (SurfaceConfig { parent, ..self }),
    {
        SurfaceConfig { parent, ..self }
    }

    pub fn with_buffer_mode(self, mode: BufferMode) -> (c: SurfaceConfig)
        ensures
            c == (SurfaceConfig { buffer_mode: mode, ..self }),
    {
        SurfaceConfig { buffer_mode: mode, ..self }
    }
}

/// A buffer handed to the compositor as a surface's new content.
#[derive(Clone, Copy, Debug, Default, PartialEq, Eq, Structural)]
pub struct SurfaceCommit {
    pub buffer: BufferHandle,
    pub scale: u32,
    pub offset_x: i32,
    pub offset_y: i32,
}

impl SurfaceCommit {
    /// A commit at scale 1 without offset.
    pub fn new(buffer: BufferHandle) -> (c: SurfaceCommit)
        ensures
            c == (SurfaceCommit { buffer, scale: 1, offset_x: 0, offset_y: 0 }),
    {
        SurfaceCommit { buffer, scale: 1, offset_x: 0, offset_y: 0 }
    }

    pub fn with_scale(self, scale: u32) -> (c: SurfaceCommit)
        ensures
            c == (SurfaceCommit { scale, ..self }),
    {
        SurfaceCommit { scale, ..self }
    }

    pub fn with_offset(self, x: i32, y: i32) -> (c: SurfaceCommit)
        ensures
            c == (SurfaceCommit { offset_x: x, offset_y: y, ..self }),
    {
        SurfaceCommit { offset_x: x, offset_y: y, ..self }
    }
}

} // verus!
