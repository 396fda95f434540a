//! Visual settings shared across splat entities.

use vstd::prelude::*;
use crate::float_bits::{F32_FOUR_BITS, F32_ONE_BITS};

verus! {

/// How a splat's fragments are combined with what is already drawn.
#[derive(Clone, Copy, Debug, PartialEq, Eq, Hash)]
pub enum SplatBlend {
    /// Overlapping points accumulate brightness; no depth writes.
    Additive,
    /// Standard alpha blending; no depth writes.
    Alpha,
    /// Solid points with depth writes.
    Opaque,
}

impl Default for SplatBlend {
    fn default() -> (b: Self)
        ensures
            b == SplatBlend::Additive,
    {
        SplatBlend::Additive
    }
}

/// The footprint of a point.
#[derive(Clone, Copy, Debug, PartialEq, Eq, Hash)]
pub enum SplatShape {
    /// A disc with Gaussian falloff.
    Circle,
    /// A square.
    Square,
}

impl Default for SplatShape {
    fn default() -> (s: Self)
        ensures
            s == SplatShape::Circle,
    {
        SplatShape::Circle
    }
}

/// The number the shader receives for a shape.
pub open spec fn shape_index(shape: SplatShape) -> u32 {
    match shape {
        SplatShape::Circle => 0,
        SplatShape::Square => 1,
    }
}

impl SplatShape {
    /// The number the shader receives for this shape: its declaration index.
    pub fn index(self) -> (i: u32)
        ensures
            i == shape_index(self),
    {
        match self {
            SplatShape::Circle => 0,
            SplatShape::Square => 1,
        }
    }
}

/// Visual settings asset shared across splat entities.
///
/// `opacity` and `falloff_sharpness` hold the bit patterns of `f32` values:
/// the global opacity multiplier (0.0 to 1.0, applied on top of per-point
/// alpha) and the Gaussian falloff exponent `k` of the `Circle` shape
/// (alpha is scaled by `exp(-d² × k)`).
/// With `size_attenuation` point sizes are world units (perspective
/// scaling); without it they are screen-space pixels.
#[derive(Clone, Copy, Debug, PartialEq, Eq)]
pub struct SplatMaterial {
    pub blend: SplatBlend,
    pub shape: SplatShape,
    pub size_attenuation: bool,
    pub opacity: u32,
    pub falloff_sharpness: u32,
}

impl Default for SplatMaterial {
    /// Additive circles in screen pixels, opacity 1.0, falloff 4.0.
    fn default() -> (m: Self)
        ensures
            m.blend == SplatBlend::Additive,
            m.shape == SplatShape::Circle,
            !m.size_attenuation,
            m.opacity == F32_ONE_BITS,
            m.falloff_sharpness == F32_FOUR_BITS,
    {
        SplatMaterial {
            blend: SplatBlend::default(),
            shape: SplatShape::default(),
            size_attenuation: false,
            opacity: F32_ONE_BITS,
            falloff_sharpness: F32_FOUR_BITS,
        }
    }
}

} // verus!
