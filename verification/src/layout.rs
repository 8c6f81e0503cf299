//! Memory images: the bytes that a run of 32-bit words occupies in memory.

use vstd::prelude::*;

verus! {

/// The bit pattern of the single-precision value `0.0`.
pub const ZERO_BITS: u32 = 0;

/// The bit pattern of the single-precision value `1.0`.
pub const ONE_BITS: u32 = 0x3F80_0000;

/// The order in which a machine stores the bytes of a word.
#[derive(Clone, Copy, Debug, PartialEq, Eq)]
pub enum ByteOrder {
    /// Least significant byte first.
    Little,
    /// Most significant byte first.
    Big,
}

/// The byte of `w` with significance `p`: `p == 0` is the lowest byte.
pub open spec fn significant_byte(w: u32, p: int) -> u8 {
    if p == 0 {
        (w % 256) as u8
    } else if p == 1 {
        ((w / 256) % 256) as u8
    } else if p == 2 {
        ((w / 65536) % 256) as u8
    } else {
        ((w / 16777216) % 256) as u8
    }
}

/// The byte at address offset `k` (0 to 3) of the word `w` stored in `order`.
pub open spec fn word_byte(w: u32, k: int, order: ByteOrder) -> u8 {
    match order {
        ByteOrder::Little => significant_byte(w, k),
        ByteOrder::Big => significant_byte(w, 3 - k),
    }
}

/// The bytes that `words` occupy when stored one after another in `order`.
pub open spec fn memory_image(words: Seq<u32>, order: ByteOrder) -> Seq<u8> {
    Seq::new(4 * words.len(), |i: int| word_byte(words[i / 4], i % 4, order))
}

/// `bytes` is the memory image of `words` in one of the two byte orders.
pub open spec fn is_memory_image(bytes: Seq<u8>, words: Seq<u32>) -> bool {
    bytes == memory_image(words, ByteOrder::Little) || bytes == memory_image(
        words,
        ByteOrder::Big,
    )
}

/// The part of `bytes` that starts at byte `offset` is the memory image of `words`.
pub open spec fn holds_words_at(bytes: Seq<u8>, offset: int, words: Seq<u32>) -> bool {
    &&& 0 <= offset
    &&& offset + 4 * words.len() <= bytes.len()
    &&& is_memory_image(bytes.subrange(offset, offset + 4 * words.len()), words)
}

/// Words `start..end` of `words` occupy bytes `4 * start..4 * end` of the image.
pub proof fn lemma_image_subrange(words: Seq<u32>, start: int, end: int, order: ByteOrder)
    requires
        0 <= start <= end <= words.len(),
    ensures
        memory_image(words, order).subrange(4 * start, 4 * end) == memory_image(
            words.subrange(start, end),
            order,
        ),
{
    let cut = memory_image(words, order).subrange(4 * start, 4 * end);
    let part = memory_image(words.subrange(start, end), order);
    assert(cut.len() == part.len());
    assert forall|i: int| 0 <= i < cut.len() implies cut[i] == part[i] by {
        assert((i + 4 * start) / 4 == i / 4 + start);
        assert((i + 4 * start) % 4 == i % 4);
        assert(words.subrange(start, end)[i / 4] == words[i / 4 + start]);
    }
    assert(cut =~= part);
}

/// Appends the words of `part` to `out`.
pub(crate) fn append_words<const N: usize>(out: &mut Vec<u32>, part: &[u32; N])
    ensures
        final(out)@ == old(out)@ + part@,
{
    let mut k: usize = 0;
    while k < N
        invariant
            k <= N,
            out@ == old(out)@ + part@.subrange(0, k as int),
        decreases N - k,
    {
        out.push(part[k]);
        k = k + 1;
    }
    assert(part@.subrange(0, N as int) == part@);
}

/// Copies out the bytes that `words` occupy in this machine's memory.
///
/// Calls `bytemuck::cast_slice`, which reinterprets the words' storage as
/// bytes without changing it. The contract claims that the result is the
/// memory image of the words in little-endian or in big-endian order, the two
/// orders in which a machine stores an integer; which of the two is not stated.
#[verifier::external_body]
pub(crate) fn native_bytes(words: &Vec<u32>) -> (bytes: Vec<u8>)
    ensures
        is_memory_image(bytes@, words@),
{
    bytemuck::cast_slice::<u32, u8>(words.as_slice()).to_vec()
}

} // verus!
