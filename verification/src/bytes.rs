//! Buffer contents as the bytes that the GPU receives: the memory
//! representation of 16-bit indices and of 32-bit words.

use vstd::prelude::*;

verus! {

/// Byte number `k` of `value`, counted from the least significant byte.
pub open spec fn byte_at(value: int, k: int) -> u8 {
    if k == 0 {
        (value % 0x100) as u8
    } else if k == 1 {
        ((value / 0x100) % 0x100) as u8
    } else if k == 2 {
        ((value / 0x1_0000) % 0x100) as u8
    } else {
        ((value / 0x100_0000) % 0x100) as u8
    }
}

/// The bytes of a run of 16-bit indices, two per index, in the byte order
/// named.
pub open spec fn index_bytes(indices: Seq<u16>, little_endian: bool) -> Seq<u8> {
    Seq::new(
        2 * indices.len(),
        |i: int| byte_at(indices[i / 2] as int, if little_endian { i % 2 } else { 1 - i % 2 }),
    )
}

/// The bytes of a run of 32-bit words, four per word, in the byte order
/// named.
pub open spec fn word_bytes(words: Seq<u32>, little_endian: bool) -> Seq<u8> {
    Seq::new(
        4 * words.len(),
        |i: int| byte_at(words[i / 4] as int, if little_endian { i % 4 } else { 3 - i % 4 }),
    )
}

/// The bytes of a run of indices as they lie in memory: in one of the two
/// byte orders, whichever the machine has.
pub open spec fn is_memory_of_indices(bytes: Seq<u8>, indices: Seq<u16>) -> bool {
    bytes == index_bytes(indices, true) || bytes == index_bytes(indices, false)
}

/// The bytes of a run of words as they lie in memory: in one of the two byte
/// orders, whichever the machine has.
pub open spec fn is_memory_of_words(bytes: Seq<u8>, words: Seq<u32>) -> bool {
    bytes == word_bytes(words, true) || bytes == word_bytes(words, false)
}

/// `bytemuck::cast_slice` from `u16` to `u8`, copied into a vector. The cast
/// reinterprets the same memory, so the result holds two bytes for each
/// index, in the byte order of the machine. For these two element types the
/// cast has no failing case: `u8` has alignment 1 and every length is a whole
/// number of bytes.
#[verifier::external_body]
pub(crate) fn cast_indices(indices: &[u16]) -> (bytes: Vec<u8>)
    ensures
        is_memory_of_indices(bytes@, indices@),
{
    bytemuck::cast_slice::<u16, u8>(indices).to_vec()
}

/// `bytemuck::cast_slice` from `u32` to `u8`, copied into a vector. The cast
/// reinterprets the same memory, so the result holds four bytes for each
/// word, in the byte order of the machine. For these two element types the
/// cast has no failing case: `u8` has alignment 1 and every length is a whole
/// number of bytes.
#[verifier::external_body]
pub(crate) fn cast_words(words: &[u32]) -> (bytes: Vec<u8>)
    ensures
        is_memory_of_words(bytes@, words@),
{
    bytemuck::cast_slice::<u32, u8>(words).to_vec()
}

} // verus!
