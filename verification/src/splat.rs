//! Splat points and the splat asset.

use vstd::prelude::*;
use crate::bytes::{cast_words_to_bytes, lemma_words_to_bytes_concat, lemma_words_to_bytes_len, words_to_bytes};

verus! {

/// Per-point GPU data: position (3 words), size (1 word), color (4 words):
/// 32 bytes, laid out for direct upload as an instance vertex buffer.
///
/// Each field holds the IEEE-754 bit pattern of the `f32` it stands for.
#[derive(Clone, Copy, Debug, PartialEq, Eq)]
pub struct SplatPoint {
    pub position: [u32; 3],
    pub size: u32,
    pub color: [u32; 4],
}

/// The eight words of a point, in upload order.
pub open spec fn point_words(p: SplatPoint) -> Seq<u32> {
    seq![
        p.position@[0], p.position@[1], p.position@[2], p.size,
        p.color@[0], p.color@[1], p.color@[2], p.color@[3],
    ]
}

/// The words of a list of points: each point's words, one point after another.
pub open spec fn instance_words_spec(points: Seq<SplatPoint>) -> Seq<u32>
    decreases points.len(),
{
    if points.len() == 0 {
        Seq::empty()
    } else {
        instance_words_spec(points.drop_last()) + point_words(points.last())
    }
}

impl SplatPoint {
    /// A point from the bit patterns of its position, size and color.
    pub fn new(position: [u32; 3], size: u32, color: [u32; 4]) -> (p: Self)
        ensures
            p.position == position,
            p.size == size,
            p.color == color,
    {
        SplatPoint { position, size, color }
    }

    /// The point with every component `0.0` (all bits clear).
    pub fn zeroed() -> (p: Self)
        ensures
            p.position@ == seq![0u32, 0u32, 0u32],
            p.size == 0,
            p.color@ == seq![0u32, 0u32, 0u32, 0u32],
    {
        SplatPoint { position: [0, 0, 0], size: 0, color: [0, 0, 0, 0] }
    }

    /// The eight words of this point, in upload order.
    pub fn to_words(&self) -> (w: [u32; 8])
        ensures
            w@ == point_words(*self),
    {
        let w = [
            self.position[0], self.position[1], self.position[2], self.size,
            self.color[0], self.color[1], self.color[2], self.color[3],
        ];
        assert(w@ =~= point_words(*self));
        w
    }
}

impl Default for SplatPoint {
    fn default() -> (p: Self)
        ensures
            p.position@ == seq![0u32, 0u32, 0u32],
            p.size == 0,
            p.color@ == seq![0u32, 0u32, 0u32, 0u32],
    {
        SplatPoint::zeroed()
    }
}

/// Asset holding a list of splat points plus a capacity hint.
///
/// `capacity` lets callers pre-size the GPU instance buffer beyond
/// `points.len()`, so that a point count growing over time (an animation)
/// does not make it reallocate.
#[derive(Debug)]
pub struct Splat {
    pub points: Vec<SplatPoint>,
    pub capacity: usize,
}

impl Splat {
    /// A splat whose capacity hint is its point count.
    pub fn new(points: Vec<SplatPoint>) -> (s: Self)
        ensures
            s.points@ == points@,
            s.capacity == points@.len(),
    {
        let capacity: usize = points.len();
        Splat { points, capacity }
    }

    /// A splat whose capacity hint is `capacity`, raised to the point count
    /// when that is larger.
    pub fn with_capacity(points: Vec<SplatPoint>, capacity: usize) -> (s: Self)
        ensures
            s.points@ == points@,
            s.capacity == if capacity >= points@.len() { capacity as int } else { points@.len() as int },
            s.capacity >= points@.len(),
            s.capacity >= capacity,
    {
        Splat { capacity: capacity.max(points.len()), points }
    }
}

impl Default for Splat {
    /// No points, no capacity hint.
    fn default() -> (s: Self)
        ensures
            s.points@.len() == 0,
            s.capacity == 0,
    {
        Splat { points: Vec::new(), capacity: 0 }
    }
}

/// The words of `points`, one point after another, in upload order.
pub fn instance_words(points: &[SplatPoint]) -> (words: Vec<u32>)
    requires
        8 * points@.len() <= usize::MAX,
    ensures
        words@ == instance_words_spec(points@),
{
    let n: usize = points.len();
    let mut words: Vec<u32> = Vec::new();
    let mut i: usize = 0;
    while i < n
        invariant
            n == points@.len(),
            i <= n,
            words@ == instance_words_spec(points@.take(i as int)),
        decreases n - i,
    {
        let w = points[i].to_words();
        let mut k: usize = 0;
        let ghost start = words@;
        while k < 8
            invariant
                k <= 8,
                w@ == point_words(points@[i as int]),
                words@ == start + w@.take(k as int),
            decreases 8 - k,
        {
            words.push(w[k]);
            assert(w@.take(k + 1) =~= w@.take(k as int).push(w@[k as int]));
            k = k + 1;
        }
        assert(w@.take(8) =~= w@);
        assert(points@.take(i + 1).drop_last() =~= points@.take(i as int));
        i = i + 1;
    }
    assert(points@.take(n as int) =~= points@);
    words
}

/// The bytes uploaded as the instance buffer contents for `points`: the
/// instance words in memory, 32 bytes per point.
pub fn instance_bytes(points: &[SplatPoint]) -> (bytes: Vec<u8>)
    requires
        32 * points@.len() <= usize::MAX,
    ensures
        bytes@.len() == 32 * points@.len(),
        exists|little_endian: bool| bytes@ == words_to_bytes(instance_words_spec(points@), little_endian),
{
    let words = instance_words(points);
    proof { lemma_instance_words_len(points@); }
    cast_words_to_bytes(words.as_slice())
}

/// Each point contributes eight words.
pub proof fn lemma_instance_words_len(points: Seq<SplatPoint>)
    ensures
        instance_words_spec(points).len() == 8 * points.len(),
    decreases points.len(),
{
    if points.len() > 0 {
        lemma_instance_words_len(points.drop_last());
    }
}

/// Word `k` of point `i` stands at index `8 * i + k` of the instance words.
pub proof fn law_instance_word_index(points: Seq<SplatPoint>, i: int, k: int)
    requires
        0 <= i < points.len(),
        0 <= k < 8,
    ensures
        instance_words_spec(points).len() == 8 * points.len(),
        instance_words_spec(points)[8 * i + k] == point_words(points[i])[k],
    decreases points.len(),
{
    lemma_instance_words_len(points);
    let init = points.drop_last();
    lemma_instance_words_len(init);
    if i < points.len() - 1 {
        law_instance_word_index(init, i, k);
        assert(init[i] == points[i]);
        assert(8 * i + k < 8 * init.len()) by (nonlinear_arith)
            requires 0 <= i < init.len(), 0 <= k < 8int;
    } else {
        assert(8 * i == 8 * init.len());
    }
}

/// In the uploaded bytes, the record of point `i` is the 32 bytes starting
/// at byte `32 * i`, and they are the bytes of that point's eight words.
pub proof fn law_point_record_at_stride(points: Seq<SplatPoint>, i: int, little_endian: bool)
    requires
        0 <= i < points.len(),
    ensures
        words_to_bytes(instance_words_spec(points), little_endian).len() == 32 * points.len(),
        words_to_bytes(instance_words_spec(points), little_endian).subrange(32 * i, 32 * i + 32)
            == words_to_bytes(point_words(points[i]), little_endian),
    decreases points.len(),
{
    let init = points.drop_last();
    let last = point_words(points.last());
    lemma_instance_words_len(points);
    lemma_instance_words_len(init);
    lemma_words_to_bytes_len(instance_words_spec(points), little_endian);
    lemma_words_to_bytes_len(instance_words_spec(init), little_endian);
    lemma_words_to_bytes_len(last, little_endian);
    lemma_words_to_bytes_concat(instance_words_spec(init), last, little_endian);
    let whole = words_to_bytes(instance_words_spec(points), little_endian);
    let front = words_to_bytes(instance_words_spec(init), little_endian);
    assert(whole == front + words_to_bytes(last, little_endian));
    if i < points.len() - 1 {
        law_point_record_at_stride(init, i, little_endian);
        assert(init[i] == points[i]);
        assert(whole.subrange(32 * i, 32 * i + 32) =~= front.subrange(32 * i, 32 * i + 32));
    } else {
        assert(whole.subrange(32 * i, 32 * i + 32) =~= words_to_bytes(last, little_endian));
    }
}

} // verus!
