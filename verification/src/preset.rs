//! Named presets for common blend and depth configurations.

pub mod blend;
pub mod depth;
