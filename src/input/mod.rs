//! Cursor shapes and touch input.
mod cursor;
mod touch;

pub use cursor::{CursorHotspot, CursorType};
pub use touch::{GestureType, SwipeDirection, TouchId, TouchPhase};
