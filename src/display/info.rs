use vstd::prelude::*;

use crate::buffer::BufferDescriptor;
use crate::color::PixelFormat;
use crate::geometry::Size;

verus! {

/// A display (monitor) as the kernel reports it.
#[derive(Clone, Copy, Debug, Default, PartialEq, Eq, Structural)]
pub struct DisplayInfo {
    /// Unique display id.
    pub id: u32,
    /// Width in pixels.
    pub width: u32,
    /// Height in pixels.
    pub height: u32,
    /// Refresh rate in millihertz (60000 is 60 Hz).
    pub refresh_rate_mhz: u32,
    /// Pixel format of the framebuffer.
    pub format: PixelFormat,
    /// Bytes per framebuffer row.
    pub stride: u32,
}

impl DisplayInfo {
    pub fn new(id: u32, width: u32, height: u32, refresh_rate_mhz: u32, format: PixelFormat, stride: u32) -> (d: DisplayInfo)
        ensures
            d == (DisplayInfo { id, width, height, refresh_rate_mhz, format, stride }),
    {
        DisplayInfo { id, width, height, refresh_rate_mhz, format, stride }
    }

    pub fn size(&self) -> (s: Size)
        ensures
            s == (Size { width: self.width, height: self.height }),
    {
        Size { width: self.width, height: self.height }
    }

    /// The framebuffer's layout.
    pub fn as_buffer_descriptor(&self) -> (d: BufferDescriptor)
        ensures
            d == (BufferDescriptor {
                width: self.width,
                height: self.height,
                stride: self.stride,
                format: self.format,
            }),
    {
        BufferDescriptor { width: self.width, height: self.height, stride: self.stride, format: self.format }
    }

    /// Refresh rate in whole hertz, rounded down.
    pub fn refresh_rate_hz(&self) -> (hz: u32)
        ensures
            hz == self.refresh_rate_mhz / 1000,
    {
        self.refresh_rate_mhz / 1000
    }

    /// Number of pixels, in 64 bits.
    pub fn area(&self) -> (n: u64)
        ensures
            n == self.width * self.height,
    {
        assert(self.width * self.height <= u32::MAX * u32::MAX) by (nonlinear_arith);
        self.width as u64 * self.height as u64
    }

    /// Bytes of the framebuffer: `stride × height`.
    pub fn framebuffer_size(&self) -> (n: usize)
        requires
            self.stride * self.height <= usize::MAX,
        ensures
            n == self.stride * self.height,
    {
        self.stride as usize * self.height as usize
    }
}

/// A mode that a display can be driven in.
#[derive(Clone, Copy, Debug, Default, PartialEq, Eq, Structural)]
pub struct DisplayMode {
    pub width: u32,
    pub height: u32,
    pub refresh_rate_mhz: u32,
    pub flags: u32,
}

impl DisplayMode {
    /// The display's preferred mode.
    pub const FLAG_PREFERRED: u32 = 1;

    /// The mode in use.
    pub const FLAG_CURRENT: u32 = 2;

    /// An interlaced mode.
    pub const FLAG_INTERLACED: u32 = 4;

    /// A mode with no flags set.
    pub fn new(width: u32, height: u32, refresh_rate_mhz: u32) -> (m: DisplayMode)
        ensures
            m == (DisplayMode { width, height, refresh_rate_mhz, flags: 0 }),
    {
        DisplayMode { width, height, refresh_rate_mhz, flags: 0 }
    }

    pub fn size(&self) -> (s: Size)
        ensures
            s == (Size { width: self.width, height: self.height }),
    {
        Size { width: self.width, height: self.height }
    }

    pub fn is_preferred(&self) -> (b: bool)
        ensures
            b == (self.flags & 1 != 0),
    {
        (self.flags & DisplayMode::FLAG_PREFERRED) != 0
    }

    pub fn is_current(&self) -> (b: bool)
        ensures
            b == (self.flags & 2 != 0),
    {
        (self.flags & DisplayMode::FLAG_CURRENT) != 0
    }

    pub fn is_interlaced(&self) -> (b: bool)
        ensures
            b == (self.flags & 4 != 0),
    {
        (self.flags & DisplayMode::FLAG_INTERLACED) != 0
    }
}

/// When a finished frame is shown.
#[derive(Clone, Copy, Debug, PartialEq, Eq, Hash, Default, Structural)]
pub enum VsyncMode {
    /// Present immediately; tearing is possible.
    Off,
    /// Wait for vertical blank.
    #[default]
    On,
    /// Wait unless the frame is late.
    Adaptive,
    /// Replace the queued frame.
    Mailbox,
}

impl VsyncMode {
    /// The stable wire code of each variant.
    pub open spec fn code(self) -> u8 {
        match self {
            VsyncMode::Off => 0,
            VsyncMode::On => 1,
            VsyncMode::Adaptive => 2,
            VsyncMode::Mailbox => 3,
        }
    }

    /// The display name of each variant.
    pub open spec fn label(self) -> &'static str {
        match self {
            VsyncMode::Off => "Off",
            VsyncMode::On => "On",
            VsyncMode::Adaptive => "Adaptive",
            VsyncMode::Mailbox => "Mailbox",
        }
    }

    /// The variant whose wire code is `value`, if any.
    pub fn from_u8(value: u8) -> (r: Option<VsyncMode>)
        ensures
            r is Some <==> (value <= 3),
            r matches Some(v) ==> v.code() == value,
    {
        match value {
            0 => Some(VsyncMode::Off),
            1 => Some(VsyncMode::On),
            2 => Some(VsyncMode::Adaptive),
            3 => Some(VsyncMode::Mailbox),
            _ => None,
        }
    }

    /// The display name.
    pub fn name(&self) -> (r: &'static str)
        ensures
            r@ == self.label()@,
    {
        match self {
            VsyncMode::Off => "Off",
            VsyncMode::On => "On",
            VsyncMode::Adaptive => "Adaptive",
            VsyncMode::Mailbox => "Mailbox",
        }
    }
}

} // verus!
