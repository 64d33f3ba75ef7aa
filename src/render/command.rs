use vstd::prelude::*;

use crate::buffer::BufferHandle;
use crate::color::{BlendMode, Color};
use crate::geometry::Rect;

verus! {

/// A render command's opcode.
#[derive(Clone, Copy, Debug, PartialEq, Eq, Hash, Structural)]
pub enum RenderOp {
    Nop,
    Clear,
    FillRect,
    StrokeRect,
    DrawLine,
    Blit,
    BlitScaled,
    SetClip,
    ClearClip,
    Save,
    Restore,
}

impl RenderOp {
    /// The stable wire code of each variant.
    pub open spec fn code(self) -> u8 {
        match self {
            RenderOp::Nop => 0,
            RenderOp::Clear => 1,
            RenderOp::FillRect => 2,
            RenderOp::StrokeRect => 3,
            RenderOp::DrawLine => 4,
            RenderOp::Blit => 5,
            RenderOp::BlitScaled => 6,
            RenderOp::SetClip => 7,
            RenderOp::ClearClip => 8,
            RenderOp::Save => 9,
            RenderOp::Restore => 10,
        }
    }

    /// The display name of each variant.
    pub open spec fn label(self) -> &'static str {
        match self {
            RenderOp::Nop => "Nop",
            RenderOp::Clear => "Clear",
            RenderOp::FillRect => "FillRect",
            RenderOp::StrokeRect => "StrokeRect",
            RenderOp::DrawLine => "DrawLine",
            RenderOp::Blit => "Blit",
            RenderOp::BlitScaled => "BlitScaled",
            RenderOp::SetClip => "SetClip",
            RenderOp::ClearClip => "ClearClip",
            RenderOp::Save => "Save",
            RenderOp::Restore => "Restore",
        }
    }

    /// The variant whose wire code is `value`, if any.
    pub fn from_u8(value: u8) -> (r: Option<RenderOp>)
        ensures
            r is Some <==> (value <= 10),
            r matches Some(v) ==> v.code() == value,
    {
        match value {
            0 => Some(RenderOp::Nop),
            1 => Some(RenderOp::Clear),
            2 => Some(RenderOp::FillRect),
            3 => Some(RenderOp::StrokeRect),
            4 => Some(RenderOp::DrawLine),
            5 => Some(RenderOp::Blit),
            6 => Some(RenderOp::BlitScaled),
            7 => Some(RenderOp::SetClip),
            8 => Some(RenderOp::ClearClip),
            9 => Some(RenderOp::Save),
            10 => Some(RenderOp::Restore),
            _ => None,
        }
    }

    /// The display name.
    pub fn name(&self) -> (r: &'static str)
        ensures
            r@ == self.label()@,
    {
        match self {
            RenderOp::Nop => "Nop",
            RenderOp::Clear => "Clear",
            RenderOp::FillRect => "FillRect",
            RenderOp::StrokeRect => "StrokeRect",
            RenderOp::DrawLine => "DrawLine",
            RenderOp::Blit => "Blit",
            RenderOp::BlitScaled => "BlitScaled",
            RenderOp::SetClip => "SetClip",
            RenderOp::ClearClip => "ClearClip",
            RenderOp::Save => "Save",
            RenderOp::Restore => "Restore",
        }
    }
}

/// The arguments of a rectangle fill.
#[derive(Clone, Copy, Debug, Default, PartialEq, Eq, Structural)]
pub struct FillParams {
    pub rect: Rect,
    pub color: Color,
    pub blend: BlendMode,
}

impl FillParams {
    /// A fill with the normal blend mode.
    pub fn new(rect: Rect, color: Color) -> (p: FillParams)
        ensures
            p == (FillParams { rect, color, blend: BlendMode::Normal }),
    {
        FillParams { rect, color, blend: BlendMode::Normal }
    }

    pub fn with_blend(self, blend: BlendMode) -> (p: FillParams)
        ensures
            p == (FillParams { blend, ..self }),
    {
        FillParams { blend, ..self }
    }
}

/// The arguments of a copy from one buffer into another.
#[derive(Clone, Copy, Debug, Default, PartialEq, Eq, Structural)]
pub struct BlitParams {
    pub src: BufferHandle,
    pub src_rect: Rect,
    pub dst_x: i32,
    pub dst_y: i32,
    pub blend: BlendMode,
    pub alpha: u8,
}

impl BlitParams {
    /// An opaque source-over copy of `src_rect` to `(dst_x, dst_y)`.
    pub fn new(src: BufferHandle, src_rect: Rect, dst_x: i32, dst_y: i32) -> (p: BlitParams)
        ensures
            p == (BlitParams { src, src_rect, dst_x, dst_y, blend: BlendMode::SourceOver, alpha: 255 }),
    {
        BlitParams { src, src_rect, dst_x, dst_y, blend: BlendMode::SourceOver, alpha: 255 }
    }

    pub fn with_blend(self, blend: BlendMode) -> (p: BlitParams)
        ensures
            p == (BlitParams { blend, ..self }),
    {
        BlitParams { blend, ..self }
    }

    pub fn with_alpha(self, alpha: u8) -> (p: BlitParams)
        ensures
            p == (BlitParams { alpha, ..self }),
    {
        BlitParams { alpha, ..self }
    }

    /// Where the copy lands: the source size at the destination point.
    pub fn dst_rect(&self) -> (r: Rect)
        ensures
            r == (
                Rect { x: self.dst_x, y: self.dst_y, width: self.src_rect.width, height: self.src_rect.height }
            ),
    {
        Rect { x: self.dst_x, y: self.dst_y, width: self.src_rect.width, height: self.src_rect.height }
    }
}

} // verus!
