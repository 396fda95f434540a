//! Bit patterns of the `f32` constants the library uses.
//!
//! Values that the GPU reads as `f32` are carried as their IEEE-754 bit
//! patterns; these are the patterns of the few constants that appear in
//! defaults and fixed geometry.

use vstd::prelude::*;

verus! {

/// `0.0_f32`.
pub const F32_ZERO_BITS: u32 = 0x0000_0000;

/// `1.0_f32`.
pub const F32_ONE_BITS: u32 = 0x3F80_0000;

/// `-1.0_f32`.
pub const F32_NEG_ONE_BITS: u32 = 0xBF80_0000;

/// `4.0_f32`.
pub const F32_FOUR_BITS: u32 = 0x4080_0000;

/// `500.0_f32`.
pub const F32_FIVE_HUNDRED_BITS: u32 = 0x43FA_0000;

/// `1000.0_f32`.
pub const F32_THOUSAND_BITS: u32 = 0x447A_0000;

/// `-1000.0_f32`.
pub const F32_NEG_THOUSAND_BITS: u32 = 0xC47A_0000;

} // verus!
