//! The shared quad every splat instance is drawn with.

use vstd::prelude::*;
use crate::bytes::{cast_words_to_bytes, words_to_bytes};
use crate::float_bits::{F32_NEG_ONE_BITS, F32_ONE_BITS, F32_ZERO_BITS};

verus! {

/// One corner of the unit quad: its offset (x, y) in `f32` bit patterns,
/// padded to 16 bytes.
#[derive(Clone, Copy, Debug, PartialEq, Eq)]
pub struct QuadVertex {
    pub offset: [u32; 2],
    pub pad: [u32; 2],
}

/// The corners of the unit quad, counter-clockwise from (-1, -1), as signs
/// of their coordinates.
pub open spec fn quad_corner_signs() -> Seq<(int, int)> {
    seq![(-1, -1), (1, -1), (1, 1), (-1, 1)]
}

/// The bit pattern of `s` as an `f32`, for `s` one of -1 and 1.
pub open spec fn unit_bits(s: int) -> u32 {
    if s < 0 { F32_NEG_ONE_BITS } else { F32_ONE_BITS }
}

/// The four words of a quad vertex, in upload order.
pub open spec fn quad_vertex_words(v: QuadVertex) -> Seq<u32> {
    seq![v.offset@[0], v.offset@[1], v.pad@[0], v.pad@[1]]
}

/// The indices of the two triangles the quad is drawn as.
pub open spec fn quad_indices_spec() -> Seq<u32> {
    seq![0u32, 1u32, 2u32, 0u32, 2u32, 3u32]
}

/// The four corners of the unit quad, counter-clockwise.
pub fn quad_vertices() -> (v: [QuadVertex; 4])
    ensures
        forall|i: int|
            0 <= i < 4 ==> {
                &&& #[trigger] v@[i].offset@[0] == unit_bits(quad_corner_signs()[i].0)
                &&& v@[i].offset@[1] == unit_bits(quad_corner_signs()[i].1)
                &&& v@[i].pad@[0] == F32_ZERO_BITS
                &&& v@[i].pad@[1] == F32_ZERO_BITS
            },
{
    let z = [F32_ZERO_BITS, F32_ZERO_BITS];
    [
        QuadVertex { offset: [F32_NEG_ONE_BITS, F32_NEG_ONE_BITS], pad: z },
        QuadVertex { offset: [F32_ONE_BITS, F32_NEG_ONE_BITS], pad: z },
        QuadVertex { offset: [F32_ONE_BITS, F32_ONE_BITS], pad: z },
        QuadVertex { offset: [F32_NEG_ONE_BITS, F32_ONE_BITS], pad: z },
    ]
}

/// The quad as two triangles sharing the diagonal from corner 0 to corner 2.
pub fn quad_indices() -> (ix: [u32; 6])
    ensures
        ix@ == quad_indices_spec(),
{
    let ix: [u32; 6] = [0, 1, 2, 0, 2, 3];
    assert(ix@ =~= quad_indices_spec());
    ix
}

/// The number of indices drawn per instance.
pub fn quad_index_count() -> (n: u32)
    ensures
        n == quad_indices_spec().len(),
{
    let ix = quad_indices();
    ix.len() as u32
}

/// The words of the quad's vertex buffer: each corner's four words, in
/// corner order.
pub open spec fn quad_vertex_buffer_words() -> Seq<u32> {
    seq![
        F32_NEG_ONE_BITS, F32_NEG_ONE_BITS, F32_ZERO_BITS, F32_ZERO_BITS,
        F32_ONE_BITS, F32_NEG_ONE_BITS, F32_ZERO_BITS, F32_ZERO_BITS,
        F32_ONE_BITS, F32_ONE_BITS, F32_ZERO_BITS, F32_ZERO_BITS,
        F32_NEG_ONE_BITS, F32_ONE_BITS, F32_ZERO_BITS, F32_ZERO_BITS,
    ]
}

/// The bytes of the quad's vertex buffer: its words in memory, 16 bytes
/// per corner.
pub fn quad_vertex_bytes() -> (b: Vec<u8>)
    ensures
        b@.len() == 64,
        exists|little_endian: bool| b@ == words_to_bytes(quad_vertex_buffer_words(), little_endian),
{
    let v = quad_vertices();
    let mut w: Vec<u32> = Vec::new();
    let mut i: usize = 0;
    while i < 4
        invariant
            i <= 4,
            forall|k: int|
                0 <= k < 4 ==> {
                    &&& #[trigger] v@[k].offset@[0] == unit_bits(quad_corner_signs()[k].0)
                    &&& v@[k].offset@[1] == unit_bits(quad_corner_signs()[k].1)
                    &&& v@[k].pad@[0] == F32_ZERO_BITS
                    &&& v@[k].pad@[1] == F32_ZERO_BITS
                },
            w@ == quad_vertex_buffer_words().take(4 * i),
        decreases 4 - i,
    {
        let ghost k = i as int;
        assert(v@[k].offset@[0] == unit_bits(quad_corner_signs()[k].0));
        w.push(v[i].offset[0]);
        w.push(v[i].offset[1]);
        w.push(v[i].pad[0]);
        w.push(v[i].pad[1]);
        assert(w@ =~= quad_vertex_buffer_words().take(4 * i + 4));
        i = i + 1;
    }
    assert(quad_vertex_buffer_words().take(16) =~= quad_vertex_buffer_words());
    cast_words_to_bytes(w.as_slice())
}

/// The bytes of the quad's index buffer: the indices in memory, 4 bytes each.
pub fn quad_index_bytes() -> (b: Vec<u8>)
    ensures
        b@.len() == 24,
        exists|little_endian: bool| b@ == words_to_bytes(quad_indices_spec(), little_endian),
{
    let ix = quad_indices();
    cast_words_to_bytes(ix.as_slice())
}

/// Both triangles of the quad wind counter-clockwise (positive signed
/// area), every index names a corner, and together they use all four.
pub proof fn law_quad_is_two_ccw_triangles()
    ensures
        quad_indices_spec().len() == 6,
        forall|i: int| 0 <= i < 6 ==> #[trigger] quad_indices_spec()[i] < 4,
        forall|t: int| 0 <= t < 2 ==> #[trigger] triangle_area2(t) > 0,
        forall|c: u32| c < 4 ==> #[trigger] quad_indices_spec().contains(c),
{
    assert(quad_indices_spec()[0] == 0);
    assert(quad_indices_spec()[1] == 1);
    assert(quad_indices_spec()[2] == 2);
    assert(quad_indices_spec()[5] == 3);
    assert(quad_indices_spec()[3] == 0);
    assert(quad_indices_spec()[4] == 2);
    let c = quad_corner_signs();
    assert(c[0] == (-1int, -1int));
    assert(c[1] == (1int, -1int));
    assert(c[2] == (1int, 1int));
    assert(c[3] == (-1int, 1int));
    assert(signed_area2((-1int, -1int), (1int, -1int), (1int, 1int)) == 4) by (nonlinear_arith);
    assert(signed_area2((-1int, -1int), (1int, 1int), (-1int, 1int)) == 4) by (nonlinear_arith);
    assert(triangle_area2(0) == 4);
    assert(triangle_area2(1) == 4);
}

/// Twice the signed area of triangle `t` of the quad.
pub open spec fn triangle_area2(t: int) -> int {
    signed_area2(
        quad_corner_signs()[quad_indices_spec()[3 * t] as int],
        quad_corner_signs()[quad_indices_spec()[3 * t + 1] as int],
        quad_corner_signs()[quad_indices_spec()[3 * t + 2] as int],
    )
}

/// Twice the signed area of the triangle (a, b, c): positive when the
/// corners run counter-clockwise.
pub open spec fn signed_area2(a: (int, int), b: (int, int), c: (int, int)) -> int {
    (b.0 - a.0) * (c.1 - a.1) - (b.1 - a.1) * (c.0 - a.0)
}

/// The quad's vertex buffer holds its four corners in counter-clockwise
/// order, each as its x and y offsets (−1 or 1) followed by two zero words;
/// read back from the buffer, both indexed triangles wind counter-clockwise.
pub proof fn law_quad_buffer_holds_ccw_corners()
    ensures
        quad_vertex_buffer_words().len() == 16,
        forall|i: int|
            0 <= i < 4 ==> {
                &&& #[trigger] quad_vertex_buffer_words()[4 * i] == unit_bits(quad_corner_signs()[i].0)
                &&& quad_vertex_buffer_words()[4 * i + 1] == unit_bits(quad_corner_signs()[i].1)
                &&& quad_vertex_buffer_words()[4 * i + 2] == F32_ZERO_BITS
                &&& quad_vertex_buffer_words()[4 * i + 3] == F32_ZERO_BITS
            },
        forall|t: int| 0 <= t < 2 ==> #[trigger] buffer_triangle_area2(t) > 0,
{
    let w = quad_vertex_buffer_words();
    let c = quad_corner_signs();
    assert(c[0] == (-1int, -1int));
    assert(c[1] == (1int, -1int));
    assert(c[2] == (1int, 1int));
    assert(c[3] == (-1int, 1int));
    assert forall|i: int| 0 <= i < 4 implies {
        &&& #[trigger] w[4 * i] == unit_bits(c[i].0)
        &&& w[4 * i + 1] == unit_bits(c[i].1)
        &&& w[4 * i + 2] == F32_ZERO_BITS
        &&& w[4 * i + 3] == F32_ZERO_BITS
    } by {
        if i == 0 {
        } else if i == 1 {
        } else if i == 2 {
        } else {
        }
    }
    assert(quad_indices_spec()[0] == 0 && quad_indices_spec()[1] == 1 && quad_indices_spec()[2] == 2);
    assert(quad_indices_spec()[3] == 0 && quad_indices_spec()[4] == 2 && quad_indices_spec()[5] == 3);
    assert(buffer_corner(0) == (-1int, -1int));
    assert(buffer_corner(1) == (1int, -1int));
    assert(buffer_corner(2) == (1int, 1int));
    assert(buffer_corner(3) == (-1int, 1int));
    assert(signed_area2((-1int, -1int), (1int, -1int), (1int, 1int)) == 4) by (nonlinear_arith);
    assert(signed_area2((-1int, -1int), (1int, 1int), (-1int, 1int)) == 4) by (nonlinear_arith);
    assert(buffer_triangle_area2(0) == 4);
    assert(buffer_triangle_area2(1) == 4);
}

/// -1 for the bits of `-1.0`, 1 otherwise.
pub open spec fn unit_sign(bits: u32) -> int {
    if bits == F32_NEG_ONE_BITS { -1 } else { 1 }
}

/// Corner `i` as read back from the quad's vertex buffer.
pub open spec fn buffer_corner(i: int) -> (int, int) {
    (unit_sign(quad_vertex_buffer_words()[4 * i]), unit_sign(quad_vertex_buffer_words()[4 * i + 1]))
}

/// Twice the signed area of triangle `t` of the quad, with its corners read
/// back from the vertex buffer.
pub open spec fn buffer_triangle_area2(t: int) -> int {
    signed_area2(
        buffer_corner(quad_indices_spec()[3 * t] as int),
        buffer_corner(quad_indices_spec()[3 * t + 1] as int),
        buffer_corner(quad_indices_spec()[3 * t + 2] as int),
    )
}

} // verus!
