//! Graphics pipeline state blocks.
//!
//! An in-memory, hardware-agnostic description of the fixed-function state
//! applied to a draw call: rasterizer, scissor, depth test, stencil test,
//! per-target color blending and color write masks, together with the
//! dynamically settable reference values.  A [`draw::DrawState`] bundles the
//! optional sub-states and can derive the set of render-target planes that a
//! configuration touches.

pub mod draw;
pub mod preset;
pub mod state;
pub mod target;
