//! A 2D point-light and overlay-compositing render core.
//!
//! The library models the CPU side of a small lighting pipeline: per-frame
//! extraction of visible lights into GPU-facing uniform records, batching of
//! lights and overlay images into quads over a shared vertex buffer, ordered
//! draw-command sequencing, pipeline and bind-set caching, and the state
//! machine of a render-to-texture compositing pass.
//!
//! All quantities that the host authors as real numbers (light parameters,
//! transforms, sort keys) are carried as fixed-point integers so that every
//! derivation here is exact and verified; the host converts at the boundary.

pub mod batch;
pub mod bind;
pub mod draw;
pub mod extract;
pub mod fixed;
pub mod light;
pub mod lookup;
pub mod overlay;
pub mod pipeline;
pub mod queue;
pub mod sequence;
pub mod transform;

#[allow(unused_imports)]
use vstd::prelude::*;

verus! {

/// The errors of the render core: authoring and wiring bugs that must
/// surface as hard failures. An unavailable frame resource — no active
/// camera, no view-uniform buffer yet — is not among them: such a frame
/// simply contributes zero draws and is retried next frame.
#[derive(Clone, Copy, Debug, PartialEq, Eq, Structural)]
pub enum RenderError {
    /// A light parameter lies outside its documented range.
    ParamOutOfRange,
    /// `inner_radius` is the full radius, so its multiplier is undefined.
    InnerRadiusFull,
    /// `outer_angle` equals `inner_angle`, so the angle multiplier is undefined.
    EmptyAngleRange,
    /// A batch item refers to a vertex buffer that was never written.
    MissingVertexBuffer,
    /// A batch item refers to a bind set absent from the cache.
    MissingBindSet,
    /// A pipeline was requested under a key that was never registered.
    UnregisteredPipeline,
}

} // verus!
