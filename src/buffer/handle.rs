use vstd::prelude::*;

verus! {

/// An opaque reference to a buffer owned by the kernel.
///
/// The low 32 bits hold the slot id and the high 32 bits a generation
/// counter, so that a handle to a reused slot can be told from a stale one.
/// The value `0` is reserved as the invalid handle.
#[derive(Clone, Copy, Debug, PartialEq, Eq, Default, Hash, Structural)]
pub struct BufferHandle(pub u64);

impl BufferHandle {
    /// The reserved invalid handle.
    #[allow(non_snake_case)]
    pub fn INVALID() -> (h: BufferHandle)
        ensures
            h.0 == 0,
    {
        BufferHandle(0)
    }

    pub fn from_raw(raw: u64) -> (h: BufferHandle)
        ensures
            h.0 == raw,
    {
        BufferHandle(raw)
    }

    pub fn is_valid(&self) -> (b: bool)
        ensures
            b == (self.0 != 0),
    {
        self.0 != 0
    }

    pub fn is_invalid(&self) -> (b: bool)
        ensures
            b == (self.0 == 0),
    {
        self.0 == 0
    }

    pub fn as_u64(&self) -> (v: u64)
        ensures
            v == self.0,
    {
        self.0
    }

    pub fn raw(&self) -> (v: u64)
        ensures
            v == self.0,
    {
        self.0
    }

    /// The raw value as a `usize` (truncated where `usize` is narrower).
    pub fn as_usize(&self) -> (v: usize)
        ensures
            v == self.0 as usize,
    {
        #[verifier::truncate]
        (self.0 as usize)
    }

    /// The slot id: the low 32 bits.
    pub fn id(&self) -> (v: u32)
        ensures
            v == self.0 % 0x1_0000_0000,
    {
        let raw = self.0;
        let v = #[verifier::truncate] (raw as u32);
        assert(v == raw % 0x1_0000_0000) by (bit_vector)
            requires
                v == raw as u32,
        ;
        v
    }

    /// The generation counter: the high 32 bits.
    pub fn generation(&self) -> (v: u32)
        ensures
            v == self.0 / 0x1_0000_0000,
    {
        let raw = self.0;
        let g = raw >> 32;
        assert(g == raw / 0x1_0000_0000) by (bit_vector)
            requires
                g == raw >> 32u64,
        ;
        g as u32
    }

    /// The handle for slot `id` at `generation`.
    pub fn new(id: u32, generation: u32) -> (h: BufferHandle)
        ensures
            h.0 == generation * 0x1_0000_0000 + id,
            h.0 % 0x1_0000_0000 == id,
            h.0 / 0x1_0000_0000 == generation,
    {
        BufferHandle::from_id_gen(id, generation)
    }

    /// The handle for slot `id` at `generation`: `id | (generation << 32)`.
    pub fn from_id_gen(id: u32, generation: u32) -> (h: BufferHandle)
        ensures
            h.0 == generation * 0x1_0000_0000 + id,
            h.0 % 0x1_0000_0000 == id,
            h.0 / 0x1_0000_0000 == generation,
    {
        let (g, i) = (generation as u64, id as u64);
        let v = (g << 32) | i;
        assert(v == g * 0x1_0000_0000 + i && v % 0x1_0000_0000 == i && v / 0x1_0000_0000 == g)
            by (bit_vector)
            requires
                v == (g << 32u64) | i,
                g <= 0xFFFF_FFFF,
                i <= 0xFFFF_FFFF,
        ;
        BufferHandle(v)
    }
}

impl core::convert::From<u64> for BufferHandle {
    fn from(raw: u64) -> (h: BufferHandle) {
        BufferHandle(raw)
    }
}

impl vstd::std_specs::convert::FromSpecImpl<u64> for BufferHandle {
    open spec fn obeys_from_spec() -> bool {
        true
    }

    open spec fn from_spec(raw: u64) -> BufferHandle {
        BufferHandle(raw)
    }
}

impl core::convert::From<BufferHandle> for u64 {
    fn from(h: BufferHandle) -> (v: u64) {
        h.0
    }
}

impl vstd::std_specs::convert::FromSpecImpl<BufferHandle> for u64 {
    open spec fn obeys_from_spec() -> bool {
        true
    }

    open spec fn from_spec(h: BufferHandle) -> u64 {
        h.0
    }
}

} // verus!
