use vstd::prelude::*;

verus! {

/// Index of a glyph in a font; `0` is the "missing glyph" glyph.
#[derive(Clone, Copy, Debug, PartialEq, Eq, Hash, Default, Structural)]
pub struct GlyphId(pub u32);

impl GlyphId {
    pub fn new(id: u32) -> (g: GlyphId)
        ensures
            g.0 == id,
    {
        GlyphId(id)
    }

    /// The missing-glyph glyph.
    #[allow(non_snake_case)]
    pub fn NOTDEF() -> (g: GlyphId)
        ensures
            g.0 == 0,
    {
        GlyphId(0)
    }

    pub fn is_valid(&self) -> (b: bool)
        ensures
            b == (self.0 != 0),
    {
        self.0 != 0
    }
}

impl core::convert::From<u32> for GlyphId {
    fn from(id: u32) -> (g: GlyphId) {
        GlyphId(id)
    }
}

impl vstd::std_specs::convert::FromSpecImpl<u32> for GlyphId {
    open spec fn obeys_from_spec() -> bool {
        true
    }

    open spec fn from_spec(id: u32) -> GlyphId {
        GlyphId(id)
    }
}

impl core::convert::From<GlyphId> for u32 {
    fn from(g: GlyphId) -> (id: u32) {
        g.0
    }
}

impl vstd::std_specs::convert::FromSpecImpl<GlyphId> for u32 {
    open spec fn obeys_from_spec() -> bool {
        true
    }

    open spec fn from_spec(g: GlyphId) -> u32 {
        g.0
    }
}

/// Which characters of the text map to which glyphs.
#[derive(Clone, Copy, Debug, Default, PartialEq, Eq, Structural)]
pub struct ClusterInfo {
    pub text_start: u32,
    pub text_len: u32,
    pub glyph_start: u32,
    pub glyph_len: u32,
}

impl ClusterInfo {
    /// One character drawn by one glyph.
    pub fn simple(text_index: u32, glyph_index: u32) -> (c: ClusterInfo)
        ensures
            c == (ClusterInfo { text_start: text_index, text_len: 1, glyph_start: glyph_index, glyph_len: 1 }),
    {
        ClusterInfo { text_start: text_index, text_len: 1, glyph_start: glyph_index, glyph_len: 1 }
    }
}

} // verus!
