//! Execution engine for a display list of drawing commands with nested
//! stencil masks and offscreen blend layers.
//!
//! The engine turns a tree of [`command::Command`]s into an ordered stream of
//! abstract GPU operations ([`gpu::GpuOp`]), grouped into command buffers.

pub mod command;
pub mod chunk;
pub mod mask;
pub mod gpu;
pub mod target;
pub mod pipelines;
pub mod render;
