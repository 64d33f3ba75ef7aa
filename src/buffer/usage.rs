use vstd::prelude::*;

verus! {

/// The expected access pattern of a buffer.
#[derive(Clone, Copy, Debug, PartialEq, Eq, Hash, Default, Structural)]
pub enum BufferUsage {
    /// No particular access pattern.
    #[default]
    Default,
    /// Written once, read many times.
    Static,
    /// Rewritten often.
    Dynamic,
    /// Rewritten every frame.
    Streaming,
    /// Only read by the CPU.
    ReadOnly,
    /// Only written by the CPU.
    WriteOnly,
}

impl BufferUsage {
    /// The stable wire code of each variant.
    pub open spec fn code(self) -> u32 {
        match self {
            BufferUsage::Default => 0,
            BufferUsage::Static => 1,
            BufferUsage::Dynamic => 2,
            BufferUsage::Streaming => 3,
            BufferUsage::ReadOnly => 4,
            BufferUsage::WriteOnly => 5,
        }
    }

    /// The display name of each variant.
    pub open spec fn label(self) -> &'static str {
        match self {
            BufferUsage::Default => "Default",
            BufferUsage::Static => "Static",
            BufferUsage::Dynamic => "Dynamic",
            BufferUsage::Streaming => "Streaming",
            BufferUsage::ReadOnly => "ReadOnly",
            BufferUsage::WriteOnly => "WriteOnly",
        }
    }

    /// The variant whose wire code is `value`, if any.
    pub fn from_u32(value: u32) -> (r: Option<BufferUsage>)
        ensures
            r is Some <==> (value <= 5),
            r matches Some(v) ==> v.code() == value,
    {
        match value {
            0 => Some(BufferUsage::Default),
            1 => Some(BufferUsage::Static),
            2 => Some(BufferUsage::Dynamic),
            3 => Some(BufferUsage::Streaming),
            4 => Some(BufferUsage::ReadOnly),
            5 => Some(BufferUsage::WriteOnly),
            _ => None,
        }
    }

    /// The display name.
    pub fn name(&self) -> (r: &'static str)
        ensures
            r@ == self.label()@,
    {
        match self {
            BufferUsage::Default => "Default",
            BufferUsage::Static => "Static",
            BufferUsage::Dynamic => "Dynamic",
            BufferUsage::Streaming => "Streaming",
            BufferUsage::ReadOnly => "ReadOnly",
            BufferUsage::WriteOnly => "WriteOnly",
        }
    }
}

/// A set of buffer capabilities, one bit each.
#[derive(Clone, Copy, Debug, Default, PartialEq, Eq, Hash, Structural)]
pub struct BufferCapabilities(pub u32);

impl BufferCapabilities {
    /// No capability.
    #[allow(non_snake_case)]
    pub fn NONE() -> (f: BufferCapabilities)
        ensures
            f.0 == 0,
    {
        BufferCapabilities(0)
    }

    /// The CPU can map it.
    #[allow(non_snake_case)]
    pub fn CPU_ACCESSIBLE() -> (f: BufferCapabilities)
        ensures
            f.0 == 1,
    {
        BufferCapabilities(1)
    }

    /// The GPU can use it.
    #[allow(non_snake_case)]
    pub fn GPU_ACCESSIBLE() -> (f: BufferCapabilities)
        ensures
            f.0 == 2,
    {
        BufferCapabilities(2)
    }

    /// Devices can reach it by DMA.
    #[allow(non_snake_case)]
    pub fn DMA_CAPABLE() -> (f: BufferCapabilities)
        ensures
            f.0 == 4,
    {
        BufferCapabilities(4)
    }

    /// Physically contiguous.
    #[allow(non_snake_case)]
    pub fn CONTIGUOUS() -> (f: BufferCapabilities)
        ensures
            f.0 == 8,
    {
        BufferCapabilities(8)
    }

    /// Lives in video memory.
    #[allow(non_snake_case)]
    pub fn VIDEO_MEMORY() -> (f: BufferCapabilities)
        ensures
            f.0 == 16,
    {
        BufferCapabilities(16)
    }

    /// Can be shared between processes.
    #[allow(non_snake_case)]
    pub fn SHAREABLE() -> (f: BufferCapabilities)
        ensures
            f.0 == 32,
    {
        BufferCapabilities(32)
    }

    /// Can be resized.
    #[allow(non_snake_case)]
    pub fn RESIZABLE() -> (f: BufferCapabilities)
        ensures
            f.0 == 64,
    {
        BufferCapabilities(64)
    }

    /// Can be read.
    #[allow(non_snake_case)]
    pub fn READABLE() -> (f: BufferCapabilities)
        ensures
            f.0 == 128,
    {
        BufferCapabilities(128)
    }

    /// Can be written.
    #[allow(non_snake_case)]
    pub fn WRITABLE() -> (f: BufferCapabilities)
        ensures
            f.0 == 256,
    {
        BufferCapabilities(256)
    }

    /// Whether any bit of `flag` is set.
    pub fn has(&self, flag: BufferCapabilities) -> (b: bool)
        ensures
            b == (self.0 & flag.0 != 0),
    {
        (self.0 & flag.0) != 0
    }

    /// The set with the bits of `flag` added.
    pub fn with(&self, flag: BufferCapabilities) -> (f: BufferCapabilities)
        ensures
            f.0 == self.0 | flag.0,
    {
        BufferCapabilities(self.0 | flag.0)
    }

    /// The set with the bits of `flag` removed.
    pub fn without(&self, flag: BufferCapabilities) -> (f: BufferCapabilities)
        ensures
            f.0 == self.0 & !flag.0,
    {
        BufferCapabilities(self.0 & !flag.0)
    }

    pub fn bits(&self) -> (v: u32)
        ensures
            v == self.0,
    {
        self.0
    }
}

impl core::ops::BitOr for BufferCapabilities {
    type Output = BufferCapabilities;

    fn bitor(self, rhs: BufferCapabilities) -> (f: BufferCapabilities) {
        BufferCapabilities(self.0 | rhs.0)
    }
}

impl vstd::std_specs::ops::BitOrSpecImpl for BufferCapabilities {
    open spec fn obeys_bitor_spec() -> bool {
        true
    }

    open spec fn bitor_req(self, rhs: BufferCapabilities) -> bool {
        true
    }

    open spec fn bitor_spec(self, rhs: BufferCapabilities) -> BufferCapabilities {
        BufferCapabilities(self.0 | rhs.0)
    }
}

impl core::ops::BitAnd for BufferCapabilities {
    type Output = BufferCapabilities;

    fn bitand(self, rhs: BufferCapabilities) -> (f: BufferCapabilities) {
        BufferCapabilities(self.0 & rhs.0)
    }
}

impl vstd::std_specs::ops::BitAndSpecImpl for BufferCapabilities {
    open spec fn obeys_bitand_spec() -> bool {
        true
    }

    open spec fn bitand_req(self, rhs: BufferCapabilities) -> bool {
        true
    }

    open spec fn bitand_spec(self, rhs: BufferCapabilities) -> BufferCapabilities {
        BufferCapabilities(self.0 & rhs.0)
    }
}

impl core::ops::BitOrAssign for BufferCapabilities {
    fn bitor_assign(&mut self, rhs: BufferCapabilities) {
        self.0 = self.0 | rhs.0;
    }
}

} // verus!
