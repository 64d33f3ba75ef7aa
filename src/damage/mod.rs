//! Damage tracking: which parts of a surface must be composed again.
mod region;

pub use region::{DamageHint, DamageRegion};
