//! Window flags, layers, states, surfaces and effects.
mod effects;
mod flags;
mod layer;
mod state;
mod surface;

pub use effects::BlurType;
pub use flags::WindowFlags;
pub use layer::LayerType;
pub use state::{ResizeEdge, WindowState, WindowType};
pub use surface::{BufferMode, SurfaceCommit, SurfaceConfig, SurfaceId, SurfaceType};
