//! Font attributes and glyph identifiers.
mod font;
mod glyph;

pub use font::{FontStyle, FontWeight, TextAlign, TextBaseline, TextDecoration};
pub use glyph::{ClusterInfo, GlyphId};
