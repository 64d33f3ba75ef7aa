//! Displays, their modes and their output connectors.
mod info;
mod output;

pub use info::{DisplayInfo, DisplayMode, VsyncMode};
pub use output::{ConnectorType, OutputInfo};
