//! Translation core for an immediate-mode GUI renderer targeting a
//! 2D-accelerated canvas.
//!
//! The library owns the per-frame translation algorithm: clip-rectangle
//! computation in fixed-point arithmetic, texture-handle resolution through an
//! owned registry, vertex-layout interpretation, and the save/restore
//! discipline for the canvas state. It emits an explicit sequence of draw
//! operations; a thin shell around the library converts the toolkit's draw
//! data into the plain values used here and executes the operations against
//! the canvas.

pub mod fixed;
pub mod frame;
pub mod clip;
pub mod registry;
pub mod render;
pub mod restore;
