//! Reinterpreting GPU words as the bytes that are uploaded.

use vstd::prelude::*;

verus! {

/// The four bytes of `w`, least significant first.
pub open spec fn le_bytes(w: u32) -> Seq<u8> {
    seq![
        (w % 0x100) as u8,
        ((w / 0x100) % 0x100) as u8,
        ((w / 0x1_0000) % 0x100) as u8,
        (w / 0x100_0000) as u8,
    ]
}

/// The four bytes of `w` in memory, on a machine of the given byte order.
pub open spec fn word_bytes(w: u32, little_endian: bool) -> Seq<u8> {
    if little_endian {
        le_bytes(w)
    } else {
        le_bytes(w).reverse()
    }
}

/// The bytes of a sequence of words in memory: each word's four bytes, one
/// word after another, on a machine of the given byte order.
pub open spec fn words_to_bytes(words: Seq<u32>, little_endian: bool) -> Seq<u8>
    decreases words.len(),
{
    if words.len() == 0 {
        Seq::empty()
    } else {
        words_to_bytes(words.drop_last(), little_endian) + word_bytes(words.last(), little_endian)
    }
}

/// Four bytes per word.
pub proof fn lemma_words_to_bytes_len(words: Seq<u32>, little_endian: bool)
    ensures
        words_to_bytes(words, little_endian).len() == 4 * words.len(),
    decreases words.len(),
{
    if words.len() > 0 {
        lemma_words_to_bytes_len(words.drop_last(), little_endian);
    }
}

/// The bytes of two runs of words are the bytes of the first, then of the
/// second.
pub proof fn lemma_words_to_bytes_concat(a: Seq<u32>, b: Seq<u32>, little_endian: bool)
    ensures
        words_to_bytes(a + b, little_endian) == words_to_bytes(a, little_endian) + words_to_bytes(
            b,
            little_endian,
        ),
    decreases b.len(),
{
    if b.len() == 0 {
        assert(a + b =~= a);
        assert(words_to_bytes(a, little_endian) + words_to_bytes(b, little_endian) =~= words_to_bytes(
            a,
            little_endian,
        ));
    } else {
        lemma_words_to_bytes_concat(a, b.drop_last(), little_endian);
        assert((a + b).drop_last() =~= a + b.drop_last());
        assert((a + b).last() == b.last());
        assert(words_to_bytes(a + b, little_endian) =~= words_to_bytes(a, little_endian) + words_to_bytes(
            b,
            little_endian,
        ));
    }
}

/// The bytes of `words` as they lie in memory, by `bytemuck::cast_slice`.
///
/// Trusted: `bytemuck::cast_slice::<u32, u8>` never fails for this pair of
/// types (the target alignment is 1 and every run of `u32`s is a whole
/// number of bytes); it views the same memory, where each `u32` lies as its
/// four bytes in the machine's byte order, little- or big-endian. Which of
/// the two is left open.
#[verifier::external_body]
pub(crate) fn cast_words_to_bytes(words: &[u32]) -> (bytes: Vec<u8>)
    ensures
        bytes@.len() == 4 * words@.len(),
        exists|little_endian: bool| bytes@ == words_to_bytes(words@, little_endian),
{
    bytemuck::cast_slice::<u32, u8>(words).to_vec()
}

} // verus!
