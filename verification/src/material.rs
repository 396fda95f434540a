//! The storage-buffer point-cloud material and its placeholder mesh.

use vstd::prelude::*;
use crate::float_bits::{F32_FIVE_HUNDRED_BITS, F32_NEG_THOUSAND_BITS, F32_ONE_BITS, F32_THOUSAND_BITS, F32_ZERO_BITS};

verus! {

/// Blending mode for point cloud rendering.
#[derive(Clone, Copy, Debug, PartialEq, Eq)]
pub enum PointCloudBlend {
    /// Overlapping points accumulate brightness; no depth writes, so
    /// points behind still shine through.
    Additive,
    /// Standard alpha blending with depth writes.
    Alpha,
    /// Fully opaque points with depth writes.
    Opaque,
}

impl Default for PointCloudBlend {
    fn default() -> (b: Self)
        ensures
            b == PointCloudBlend::Additive,
    {
        PointCloudBlend::Additive
    }
}

/// The footprint of a point cloud's points.
#[derive(Clone, Copy, Debug, PartialEq, Eq)]
pub enum PointCloudShape {
    Circle,
    Square,
}

impl Default for PointCloudShape {
    fn default() -> (s: Self)
        ensures
            s == PointCloudShape::Circle,
    {
        PointCloudShape::Circle
    }
}

/// How the material's fragments are composed with the target.
#[derive(Clone, Copy, Debug, PartialEq, Eq)]
pub enum PointCloudAlphaMode {
    Add,
    Blend,
    Opaque,
}

/// Material-level parameters sent to the shader as a uniform:
/// `size_attenuation` is 0 for screen-space sizes and 1 for perspective
/// sizes; `base_scale` holds the bit pattern of the world-space scale used
/// with perspective sizes.
#[derive(Clone, Copy, Debug, PartialEq, Eq)]
pub struct PointCloudParams {
    pub size_attenuation: u32,
    pub base_scale: u32,
}

impl Default for PointCloudParams {
    /// Screen-space sizes, base scale 500.0.
    fn default() -> (p: Self)
        ensures
            p.size_attenuation == 0,
            p.base_scale == F32_FIVE_HUNDRED_BITS,
    {
        PointCloudParams { size_attenuation: 0, base_scale: F32_FIVE_HUNDRED_BITS }
    }
}

/// A point-cloud material over the storage buffer `buffer` (a handle).
#[derive(Clone, Copy, Debug, PartialEq, Eq)]
pub struct PointCloudMaterial<B> {
    pub buffer: B,
    pub params: PointCloudParams,
    pub blend: PointCloudBlend,
}

impl<B> PointCloudMaterial<B> {
    /// A material over `buffer` with default parameters and blending.
    pub fn new(buffer: B) -> (m: Self)
        ensures
            m.buffer == buffer,
            m.params.size_attenuation == 0,
            m.params.base_scale == F32_FIVE_HUNDRED_BITS,
            m.blend == PointCloudBlend::Additive,
    {
        PointCloudMaterial { buffer, params: PointCloudParams::default(), blend: PointCloudBlend::default() }
    }

    /// The material with blending `blend`, all else unchanged.
    pub fn with_blend(self, blend: PointCloudBlend) -> (m: Self)
        ensures
            m.buffer == self.buffer,
            m.params == self.params,
            m.blend == blend,
    {
        let mut m = self;
        m.blend = blend;
        m
    }

    /// The material with perspective sizes at world scale `base_scale`
    /// (a bit pattern), all else unchanged.
    pub fn with_perspective_size(self, base_scale: u32) -> (m: Self)
        ensures
            m.buffer == self.buffer,
            m.params.size_attenuation == 1,
            m.params.base_scale == base_scale,
            m.blend == self.blend,
    {
        let mut m = self;
        m.params.size_attenuation = 1;
        m.params.base_scale = base_scale;
        m
    }

    /// Whether the material's pipeline writes depth: not for additive
    /// blending (particles behind still add their brightness), and for
    /// alpha and opaque blending.
    pub fn depth_write(&self) -> (b: bool)
        ensures
            b == (self.blend != PointCloudBlend::Additive),
    {
        match self.blend {
            PointCloudBlend::Additive => false,
            PointCloudBlend::Alpha => true,
            PointCloudBlend::Opaque => true,
        }
    }

    /// The composition mode of the material's blending.
    pub fn alpha_mode(&self) -> (a: PointCloudAlphaMode)
        ensures
            a == match self.blend {
                PointCloudBlend::Additive => PointCloudAlphaMode::Add,
                PointCloudBlend::Alpha => PointCloudAlphaMode::Blend,
                PointCloudBlend::Opaque => PointCloudAlphaMode::Opaque,
            },
    {
        match self.blend {
            PointCloudBlend::Additive => PointCloudAlphaMode::Add,
            PointCloudBlend::Alpha => PointCloudAlphaMode::Blend,
            PointCloudBlend::Opaque => PointCloudAlphaMode::Opaque,
        }
    }
}

/// The geometry of the placeholder mesh: positions, normals and uv
/// coordinates as `f32` bit patterns, and triangle-list indices.
#[derive(Debug)]
pub struct PointCloudMesh {
    pub positions: Vec<[u32; 3]>,
    pub normals: Vec<[u32; 3]>,
    pub uvs: Vec<[u32; 2]>,
    pub indices: Vec<u32>,
}

/// `1000.0` when `bit` is 1, `-1000.0` otherwise.
pub open spec fn sentinel_coord(bit: int) -> u32 {
    if bit == 1 { F32_THOUSAND_BITS } else { F32_NEG_THOUSAND_BITS }
}

/// Corner `i` (0 to 7) of the cube [-1000, 1000]³: bit 0 of `i` picks x,
/// bit 1 picks y, bit 2 picks z.
pub open spec fn sentinel_corner(i: int) -> Seq<u32> {
    seq![sentinel_coord(i % 2), sentinel_coord((i / 2) % 2), sentinel_coord((i / 4) % 2)]
}

/// The eight cube corners, in order.
fn sentinel_corners() -> (c: [[u32; 3]; 8])
    ensures
        forall|i: int| 0 <= i < 8 ==> #[trigger] c@[i]@ == sentinel_corner(i),
{
    let p: u32 = F32_THOUSAND_BITS;
    let n: u32 = F32_NEG_THOUSAND_BITS;
    let c = [[n, n, n], [p, n, n], [n, p, n], [p, p, n], [n, n, p], [p, n, p], [n, p, p], [p, p, p]];
    assert(c@[0]@ =~= sentinel_corner(0));
    assert(c@[1]@ =~= sentinel_corner(1));
    assert(c@[2]@ =~= sentinel_corner(2));
    assert(c@[3]@ =~= sentinel_corner(3));
    assert(c@[4]@ =~= sentinel_corner(4));
    assert(c@[5]@ =~= sentinel_corner(5));
    assert(c@[6]@ =~= sentinel_corner(6));
    assert(c@[7]@ =~= sentinel_corner(7));
    c
}

/// The placeholder mesh that makes the vertex shader run six times per
/// point: `6 * num_points` vertices, the first (up to) eight at the corners
/// of the cube [-1000, 1000]³ so that the mesh's bounds are never culled,
/// the rest at the origin; every normal (0, 1, 0), every uv (0, 0); and the
/// indices 0, 1, 2, ... up to the vertex count taken as a `u32`.
pub fn point_cloud_mesh_geometry(num_points: usize) -> (m: PointCloudMesh)
    requires
        6 * num_points <= usize::MAX,
    ensures
        m.positions@.len() == 6 * num_points,
        forall|i: int|
            0 <= i < m.positions@.len() ==> #[trigger] m.positions@[i]@ == if i < 8 {
                sentinel_corner(i)
            } else {
                seq![F32_ZERO_BITS, F32_ZERO_BITS, F32_ZERO_BITS]
            },
        m.normals@.len() == 6 * num_points,
        forall|i: int|
            0 <= i < m.normals@.len() ==> #[trigger] m.normals@[i]@ == seq![F32_ZERO_BITS, F32_ONE_BITS, F32_ZERO_BITS],
        m.uvs@.len() == 6 * num_points,
        forall|i: int| 0 <= i < m.uvs@.len() ==> #[trigger] m.uvs@[i]@ == seq![F32_ZERO_BITS, F32_ZERO_BITS],
        m.indices@.len() == ((6 * num_points) as u32) as int,
        forall|i: int| 0 <= i < m.indices@.len() ==> #[trigger] m.indices@[i] == i,
{
    let num_verts: usize = num_points * 6;
    let corners = sentinel_corners();
    let mut positions: Vec<[u32; 3]> = Vec::new();
    let mut normals: Vec<[u32; 3]> = Vec::new();
    let mut uvs: Vec<[u32; 2]> = Vec::new();
    let mut i: usize = 0;
    while i < num_verts
        invariant
            num_verts == 6 * num_points,
            i <= num_verts,
            forall|k: int| 0 <= k < 8 ==> #[trigger] corners@[k]@ == sentinel_corner(k),
            positions@.len() == i,
            normals@.len() == i,
            uvs@.len() == i,
            forall|k: int|
                0 <= k < i ==> #[trigger] positions@[k]@ == if k < 8 {
                    sentinel_corner(k)
                } else {
                    seq![F32_ZERO_BITS, F32_ZERO_BITS, F32_ZERO_BITS]
                },
            forall|k: int| 0 <= k < i ==> #[trigger] normals@[k]@ == seq![F32_ZERO_BITS, F32_ONE_BITS, F32_ZERO_BITS],
            forall|k: int| 0 <= k < i ==> #[trigger] uvs@[k]@ == seq![F32_ZERO_BITS, F32_ZERO_BITS],
        decreases num_verts - i,
    {
        let origin = [F32_ZERO_BITS, F32_ZERO_BITS, F32_ZERO_BITS];
        if i < 8 {
            positions.push(corners[i]);
        } else {
            assert(origin@ =~= seq![F32_ZERO_BITS, F32_ZERO_BITS, F32_ZERO_BITS]);
            positions.push(origin);
        }
        let normal = [F32_ZERO_BITS, F32_ONE_BITS, F32_ZERO_BITS];
        assert(normal@ =~= seq![F32_ZERO_BITS, F32_ONE_BITS, F32_ZERO_BITS]);
        normals.push(normal);
        let uv = [F32_ZERO_BITS, F32_ZERO_BITS];
        assert(uv@ =~= seq![F32_ZERO_BITS, F32_ZERO_BITS]);
        uvs.push(uv);
        i = i + 1;
    }
    #[verifier::truncate]
    let index_count: u32 = num_verts as u32;
    let mut indices: Vec<u32> = Vec::new();
    let mut j: u32 = 0;
    while j < index_count
        invariant
            j <= index_count,
            indices@.len() == j,
            forall|k: int| 0 <= k < j ==> #[trigger] indices@[k] == k,
        decreases index_count - j,
    {
        indices.push(j);
        j = j + 1;
    }
    PointCloudMesh { positions, normals, uvs, indices }
}

} // verus!
