//! Fixed-layout graphics primitives shared by a display kernel, a compositor
//! and applications: geometry, colour and pixel-buffer addressing.
pub mod buffer;
pub mod color;
pub mod damage;
pub mod display;
pub mod geometry;
pub mod input;
pub mod render;
pub mod text;
pub mod window;

pub use buffer::{BufferDescriptor, BufferHandle};
pub use color::{Color, PixelFormat};
pub use damage::DamageRegion;
pub use display::DisplayInfo;
pub use geometry::{Point, Rect, Size};
pub use window::{LayerType, WindowFlags};
