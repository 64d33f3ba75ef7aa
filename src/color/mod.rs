//! Packed colours, pixel formats, blend modes, palettes and colour spaces.
mod blend;
mod color;
mod format;
mod palette;
mod space;

pub use blend::{lemma_blend_mode_codes, AlphaMode, BlendMode};
pub use color::{alpha_of, blue_of, green_of, pack, red_of, Color};
pub use format::{lemma_pixel_format_codes, PixelFormat};
pub use palette::{Palette, CATPPUCCIN_LATTE, CATPPUCCIN_MOCHA, DRACULA, NORD, REDSTONE_DEFAULT};
pub use space::ColorSpace;
