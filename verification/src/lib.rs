//! Ordered, blend-mode-aware 2D sprites with rectangular alpha masks, and the
//! batching pipeline that turns a frame's sprites into a minimal set of draw
//! calls: per-frame extraction, mask applicability resolution, visibility
//! queueing, single-pass batching, and fixed-layout instance-buffer packing.
//!
//! Geometry and color values are carried as IEEE single-precision bit
//! patterns (`u32` words); the float arithmetic itself is delegated to
//! `bevy_math` behind a handful of trusted wrappers, while every decision the
//! pipeline makes — which mask applies, where a batch boundary falls, which
//! word of which buffer holds which field — is verified.

use vstd::prelude::*;

pub mod batching;
pub mod draw;
pub mod extract;
pub mod geometry;
pub mod instance;
pub mod masking;
pub mod pipeline_key;
pub mod queue;
pub mod specialize;
pub mod sprite;
pub mod sprite_mask;

verus! {

/// Labels for the stages of sprite rendering a host schedules: the
/// per-frame extraction pass and the slice computation that follows it.
#[derive(Debug, Clone, Copy, PartialEq, Eq, Hash, Structural)]
pub enum SpriteSystem {
    /// The extraction stage.
    ExtractSprites,
    /// The slice computation stage.
    ComputeSlices,
}

} // verus!
