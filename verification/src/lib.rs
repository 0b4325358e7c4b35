//! Compute scheduling and buffer lifecycle for GPU-generated isosurface
//! meshes.
//!
//! An isosurface asset declares a sampling grid (extent, origin, per-axis
//! density); compute kernels turn it into vertex and index buffers on the
//! GPU, and an indirect draw consumes them without the host ever learning
//! the primitive counts.  This crate holds the part of that pipeline with
//! real state-machine content, verified: the task table that tracks which
//! assets need (re)computation, the buffer and bind-group lifecycle that
//! must be settled before dispatch, the read-only render-graph node that
//! records the compute pass, and the indirect-draw and render-phase
//! bookkeeping around it.
//!
//! The host engine — asset store, scene graph, GPU device — stays outside.
//! Each frame it hands in plain values ([`frame::FrameInput`]) and carries
//! out the orders handed back ([`frame::FrameOutput`]): buffers to create,
//! words to upload, a command list to replay in one compute pass.  GPU
//! objects appear here only as the integer handles this library mints;
//! floating-point data crosses the boundary as raw bit words and is never
//! computed with.
//!
//! The load-bearing discipline, kept by construction in
//! [`frame::run_frame`]: the task table holds at most one entry per asset
//! id; readiness is marked by a system running strictly before the compute
//! node and tasks are retired strictly after it, so dispatch always falls
//! between the two; buffer sets keep their identity once allocated, and
//! re-preparation re-reads the latest asset snapshot instead of
//! reallocating; a missing asset, buffer or bind group skips one task for
//! one frame and never aborts the pass.

use vstd::prelude::*;

verus! {

/// Number of grid cells per workgroup along each axis: the compute kernels
/// iterate a fixed 8x8x8 sub-block, so the cell count per axis is
/// `8 * density` for that axis.
pub const CELLS_PER_BLOCK_AXIS: u32 = 8;

} // verus!

pub mod assets;
pub mod batching;
pub mod bind_groups;
pub mod buffers;
pub mod draw;
pub mod draw_queue;
pub mod frame;
pub mod instances;
pub mod node;
pub mod phase_items;
pub mod pipeline;
pub mod registry;
pub mod table;
pub mod tasks;
