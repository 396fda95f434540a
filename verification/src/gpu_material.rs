//! The per-entity material uniform uploaded to the GPU.

use vstd::prelude::*;
use crate::bytes::{cast_words_to_bytes, words_to_bytes};
use crate::splat_material::{shape_index, SplatMaterial};

verus! {

/// Number of 32-bit words of the uniform: the world transform (16) and
/// four flags and values.
pub const UNIFORM_WORDS: usize = 20;

/// The 80-byte uniform: the entity's world-from-local matrix in column-major
/// order (as `f32` bit patterns), the size-attenuation flag (0 or 1), the
/// opacity, the shape index and the falloff sharpness.
#[derive(Clone, Copy, Debug, PartialEq, Eq)]
pub struct GpuSplatMaterial {
    pub world_from_local: [u32; 16],
    pub size_attenuation: u32,
    pub opacity: u32,
    pub shape: u32,
    pub falloff_sharpness: u32,
}

/// The uniform's words, in upload order.
pub open spec fn uniform_words(u: GpuSplatMaterial) -> Seq<u32> {
    u.world_from_local@ + seq![u.size_attenuation, u.opacity, u.shape, u.falloff_sharpness]
}

impl GpuSplatMaterial {
    /// The uniform for `material` at the world transform `world_from_local`.
    pub open spec fn new_spec(material: SplatMaterial, world_from_local: [u32; 16]) -> GpuSplatMaterial {
        GpuSplatMaterial {
            world_from_local,
            size_attenuation: if material.size_attenuation { 1u32 } else { 0u32 },
            opacity: material.opacity,
            shape: shape_index(material.shape),
            falloff_sharpness: material.falloff_sharpness,
        }
    }

    /// The uniform for `material` on an entity whose world-from-local matrix,
    /// in column-major order, has the words `world_from_local`.
    pub fn new(material: &SplatMaterial, world_from_local: [u32; 16]) -> (u: Self)
        ensures
            u == GpuSplatMaterial::new_spec(*material, world_from_local),
    {
        GpuSplatMaterial {
            world_from_local,
            size_attenuation: if material.size_attenuation { 1 } else { 0 },
            opacity: material.opacity,
            shape: material.shape.index(),
            falloff_sharpness: material.falloff_sharpness,
        }
    }

    /// The words of the translation column of the world transform
    /// (x, y, z): entries 12, 13 and 14 of the column-major matrix.
    pub fn translation(&self) -> (t: [u32; 3])
        ensures
            t@ == seq![self.world_from_local@[12], self.world_from_local@[13], self.world_from_local@[14]],
    {
        let t = [self.world_from_local[12], self.world_from_local[13], self.world_from_local[14]];
        assert(t@ =~= seq![self.world_from_local@[12], self.world_from_local@[13], self.world_from_local@[14]]);
        t
    }

    /// The uniform's words, in upload order.
    pub fn to_words(&self) -> (w: Vec<u32>)
        ensures
            w@ == uniform_words(*self),
            w@.len() == UNIFORM_WORDS,
            w@.subrange(0, 16) == self.world_from_local@,
            w@[16] == self.size_attenuation,
            w@[17] == self.opacity,
            w@[18] == self.shape,
            w@[19] == self.falloff_sharpness,
    {
        let mut w: Vec<u32> = Vec::new();
        let mut i: usize = 0;
        while i < 16
            invariant
                i <= 16,
                w@ == self.world_from_local@.take(i as int),
            decreases 16 - i,
        {
            w.push(self.world_from_local[i]);
            assert(self.world_from_local@.take(i + 1) =~= self.world_from_local@.take(i as int).push(
                self.world_from_local@[i as int],
            ));
            i = i + 1;
        }
        w.push(self.size_attenuation);
        w.push(self.opacity);
        w.push(self.shape);
        w.push(self.falloff_sharpness);
        assert(self.world_from_local@.take(16) =~= self.world_from_local@);
        assert(w@ =~= uniform_words(*self));
        assert(w@.subrange(0, 16) =~= self.world_from_local@);
        w
    }

    /// The 80 bytes uploaded as the uniform: its words in memory.
    pub fn to_bytes(&self) -> (b: Vec<u8>)
        ensures
            b@.len() == 4 * UNIFORM_WORDS,
            exists|little_endian: bool| b@ == words_to_bytes(uniform_words(*self), little_endian),
    {
        let w = self.to_words();
        cast_words_to_bytes(w.as_slice())
    }
}

/// The uniform is uploaded with the world-from-local matrix first, word for
/// word in the column-major order it was given (so words 12, 13 and 14 are
/// the translation the splat is sorted by), then the size-attenuation flag,
/// the opacity, the shape index and the falloff sharpness.
pub proof fn law_uniform_layout(material: SplatMaterial, world_from_local: [u32; 16])
    ensures
        ({
            let u = GpuSplatMaterial::new_spec(material, world_from_local);
            let w = uniform_words(u);
            &&& w.len() == UNIFORM_WORDS
            &&& forall|i: int| 0 <= i < 16 ==> #[trigger] w[i] == world_from_local@[i]
            &&& w[12] == world_from_local@[12] && w[13] == world_from_local@[13] && w[14] == world_from_local@[14]
            &&& w[16] == (if material.size_attenuation { 1u32 } else { 0u32 })
            &&& w[17] == material.opacity
            &&& w[18] == shape_index(material.shape)
            &&& w[19] == material.falloff_sharpness
        }),
{
    let u = GpuSplatMaterial::new_spec(material, world_from_local);
    let w = uniform_words(u);
    assert forall|i: int| 0 <= i < 16 implies #[trigger] w[i] == world_from_local@[i] by {}
}

} // verus!
