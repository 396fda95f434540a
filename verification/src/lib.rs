//! Instanced splat (point cloud) rendering: the plain-value core.
//!
//! Every per-point and per-material value that the GPU reads is held here
//! as the 32-bit word that is uploaded: an `f32` is carried as its IEEE-754
//! bit pattern, never computed on. The decisions that drive the render
//! world (which assets must be re-extracted, when an instance buffer can be
//! reused and how large a new one is, which pipeline a splat is queued with,
//! what a pointer stroke emits) are functions from plain values to plain
//! values, each with its contract.

pub mod bytes;
pub mod splat;
pub mod buffers;
pub mod extract;
pub mod float_bits;
pub mod splat_material;
pub mod gpu_material;
pub mod quad;
pub mod pipeline;
pub mod queue;
pub mod picking;
pub mod material;
pub mod point_cloud;

pub use picking::PointerPhase;
pub use splat::{Splat, SplatPoint};
pub use splat_material::{SplatBlend, SplatMaterial, SplatShape};
