//! Point clouds drawn from a storage buffer (the storage-buffer path).

use vstd::prelude::*;
use crate::float_bits::F32_ONE_BITS;
use crate::material::{PointCloudBlend, PointCloudShape};

verus! {

/// Per-point GPU data: position (3 words), size (1 word), color (4 words):
/// 32 bytes, std430. Each field holds the bit pattern of an `f32`.
#[derive(Clone, Copy, Debug, PartialEq, Eq)]
pub struct PointData {
    pub position: [u32; 3],
    pub size: u32,
    pub color: [u32; 4],
}

impl PointData {
    /// A point from the bit patterns of its position, size and color.
    pub fn new(position: [u32; 3], size: u32, color: [u32; 4]) -> (p: Self)
        ensures
            p.position == position,
            p.size == size,
            p.color == color,
    {
        PointData { position, size, color }
    }
}

impl Default for PointData {
    /// The point with every component `0.0`.
    fn default() -> (p: Self)
        ensures
            p.position@ == seq![0u32, 0u32, 0u32],
            p.size == 0,
            p.color@ == seq![0u32, 0u32, 0u32, 0u32],
    {
        PointData { position: [0, 0, 0], size: 0, color: [0, 0, 0, 0] }
    }
}

/// A point list plus a capacity hint for the buffer it is uploaded to.
#[derive(Debug)]
pub struct PointCloud {
    pub points: Vec<PointData>,
    pub capacity: usize,
}

impl PointCloud {
    /// A cloud whose capacity hint is its point count.
    pub fn new(points: Vec<PointData>) -> (c: Self)
        ensures
            c.points@ == points@,
            c.capacity == points@.len(),
    {
        let capacity: usize = points.len();
        PointCloud { points, capacity }
    }

    /// A cloud whose capacity hint is `capacity`, raised to the point count
    /// when that is larger.
    pub fn with_capacity(points: Vec<PointData>, capacity: usize) -> (c: Self)
        ensures
            c.points@ == points@,
            c.capacity == if capacity >= points@.len() { capacity as int } else { points@.len() as int },
            c.capacity >= points@.len(),
            c.capacity >= capacity,
    {
        PointCloud { capacity: capacity.max(points.len()), points }
    }
}

/// Rendering settings of a point cloud; `opacity` holds the bit pattern of
/// the global opacity multiplier (0.0 to 1.0, on top of per-point alpha).
#[derive(Clone, Copy, Debug, PartialEq, Eq)]
pub struct PointCloudSettings {
    pub blend: PointCloudBlend,
    pub size_attenuation: bool,
    pub opacity: u32,
    pub shape: PointCloudShape,
}

impl Default for PointCloudSettings {
    /// Additive, screen-space sizes, opacity 1.0, default shape.
    fn default() -> (s: Self)
        ensures
            s.blend == PointCloudBlend::Additive,
            !s.size_attenuation,
            s.opacity == F32_ONE_BITS,
            s.shape == PointCloudShape::Circle,
    {
        PointCloudSettings {
            blend: PointCloudBlend::default(),
            size_attenuation: false,
            opacity: F32_ONE_BITS,
            shape: PointCloudShape::default(),
        }
    }
}

} // verus!
