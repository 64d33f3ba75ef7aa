use vstd::prelude::*;

use crate::color::BlendMode;

verus! {

/// A bitwise raster operation between source and destination.
#[derive(Clone, Copy, Debug, PartialEq, Eq, Hash, Default, Structural)]
pub enum RasterOp {
    #[default]
    Copy,
    And,
    Or,
    Xor,
    NotSrc,
    NotDst,
    Clear,
    SetAll,
    Nand,
    Nor,
}

impl RasterOp {
    /// The stable wire code of each variant.
    pub open spec fn code(self) -> u8 {
        match self {
            RasterOp::Copy => 0,
            RasterOp::And => 1,
            RasterOp::Or => 2,
            RasterOp::Xor => 3,
            RasterOp::NotSrc => 4,
            RasterOp::NotDst => 5,
            RasterOp::Clear => 6,
            RasterOp::SetAll => 7,
            RasterOp::Nand => 8,
            RasterOp::Nor => 9,
        }
    }

    /// The display name of each variant.
    pub open spec fn label(self) -> &'static str {
        match self {
            RasterOp::Copy => "Copy",
            RasterOp::And => "And",
            RasterOp::Or => "Or",
            RasterOp::Xor => "Xor",
            RasterOp::NotSrc => "Not Src",
            RasterOp::NotDst => "Not Dst",
            RasterOp::Clear => "Clear",
            RasterOp::SetAll => "Set",
            RasterOp::Nand => "Nand",
            RasterOp::Nor => "Nor",
        }
    }

    /// The variant whose wire code is `value`, if any.
    pub fn from_u8(value: u8) -> (r: Option<RasterOp>)
        ensures
            r is Some <==> (value <= 9),
            r matches Some(v) ==> v.code() == value,
    {
        match value {
            0 => Some(RasterOp::Copy),
            1 => Some(RasterOp::And),
            2 => Some(RasterOp::Or),
            3 => Some(RasterOp::Xor),
            4 => Some(RasterOp::NotSrc),
            5 => Some(RasterOp::NotDst),
            6 => Some(RasterOp::Clear),
            7 => Some(RasterOp::SetAll),
            8 => Some(RasterOp::Nand),
            9 => Some(RasterOp::Nor),
            _ => None,
        }
    }

    /// The display name.
    pub fn name(&self) -> (r: &'static str)
        ensures
            r@ == self.label()@,
    {
        match self {
            RasterOp::Copy => "Copy",
            RasterOp::And => "And",
            RasterOp::Or => "Or",
            RasterOp::Xor => "Xor",
            RasterOp::NotSrc => "Not Src",
            RasterOp::NotDst => "Not Dst",
            RasterOp::Clear => "Clear",
            RasterOp::SetAll => "Set",
            RasterOp::Nand => "Nand",
            RasterOp::Nor => "Nor",
        }
    }
}

/// The state that drawing commands are executed in.
#[derive(Clone, Copy, Debug, Default, PartialEq, Eq, Structural)]
pub struct PipelineState {
    pub blend_mode: BlendMode,
    pub raster_op: RasterOp,
    pub global_alpha: u8,
    pub antialias: bool,
    pub dither: bool,
}

impl PipelineState {
    /// Normal blending, plain copy, opaque, no antialiasing or dithering.
    #[allow(non_snake_case)]
    pub fn DEFAULT() -> (s: PipelineState)
        ensures
            s == (PipelineState {
                blend_mode: BlendMode::Normal,
                raster_op: RasterOp::Copy,
                global_alpha: 255,
                antialias: false,
                dither: false,
            }),
    {
        PipelineState {
            blend_mode: BlendMode::Normal,
            raster_op: RasterOp::Copy,
            global_alpha: 255,
            antialias: false,
            dither: false,
        }
    }

    /// The default state.
    pub fn new() -> (s: PipelineState)
        ensures
            s == (PipelineState {
                blend_mode: BlendMode::Normal,
                raster_op: RasterOp::Copy,
                global_alpha: 255,
                antialias: false,
                dither: false,
            }),
    {
        PipelineState::DEFAULT()
    }

    pub fn with_blend(self, blend: BlendMode) -> (s: PipelineState)
        ensures
            s == (PipelineState { blend_mode: blend, ..self }),
    {
        PipelineState { blend_mode: blend, ..self }
    }

    pub fn with_alpha(self, alpha: u8) -> (s: PipelineState)
        ensures
            s == (PipelineState { global_alpha: alpha, ..self }),
    {
        PipelineState { global_alpha: alpha, ..self }
    }

    pub fn with_antialias(self, aa: bool) -> (s: PipelineState)
        ensures
            s == (PipelineState { antialias: aa, ..self }),
    {
        PipelineState { antialias: aa, ..self }
    }
}

/// The filter used when an image is scaled.
#[derive(Clone, Copy, Debug, PartialEq, Eq, Hash, Default, Structural)]
pub enum InterpolationQuality {
    #[default]
    Nearest,
    Bilinear,
    Bicubic,
    Lanczos,
}

impl InterpolationQuality {
    /// The stable wire code of each variant.
    pub open spec fn code(self) -> u8 {
        match self {
            InterpolationQuality::Nearest => 0,
            InterpolationQuality::Bilinear => 1,
            InterpolationQuality::Bicubic => 2,
            InterpolationQuality::Lanczos => 3,
        }
    }

    /// The display name of each variant.
    pub open spec fn label(self) -> &'static str {
        match self {
            InterpolationQuality::Nearest => "Nearest",
            InterpolationQuality::Bilinear => "Bilinear",
            InterpolationQuality::Bicubic => "Bicubic",
            InterpolationQuality::Lanczos => "Lanczos",
        }
    }

    /// The variant whose wire code is `value`, if any.
    pub fn from_u8(value: u8) -> (r: Option<InterpolationQuality>)
        ensures
            r is Some <==> (value <= 3),
            r matches Some(v) ==> v.code() == value,
    {
        match value {
            0 => Some(InterpolationQuality::Nearest),
            1 => Some(InterpolationQuality::Bilinear),
            2 => Some(InterpolationQuality::Bicubic),
            3 => Some(InterpolationQuality::Lanczos),
            _ => None,
        }
    }

    /// The display name.
    pub fn name(&self) -> (r: &'static str)
        ensures
            r@ == self.label()@,
    {
        match self {
            InterpolationQuality::Nearest => "Nearest",
            InterpolationQuality::Bilinear => "Bilinear",
            InterpolationQuality::Bicubic => "Bicubic",
            InterpolationQuality::Lanczos => "Lanczos",
        }
    }
}

} // verus!
