//! Pixel-buffer descriptors, handles, regions and views.
mod descriptor;
mod handle;
mod region;
mod usage;
mod view;

pub use descriptor::{lemma_packed_argb_offset, BufferDescriptor};
pub use handle::BufferHandle;
pub use region::BufferRegion;
pub use usage::{BufferCapabilities, BufferUsage};
pub use view::{BufferView, BufferViewMut};
