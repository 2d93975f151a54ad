//! Layout strategies for rectangular UI regions and a slider widget built on them.
//! Coordinates are integers; fractions and animation values are per-mille.

pub mod animation;
pub mod geometry;
pub mod label;
pub mod layout;
pub mod slider;
