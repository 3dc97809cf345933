//! The uniform block: a 4x4 transform in the form in which a uniform buffer
//! receives it.
//!
//! The sixteen entries are single-precision numbers, held as their 32-bit
//! patterns, row after row of the array that the transform was given as.

use crate::bytes::{cast_words, is_memory_of_words};
use vstd::prelude::*;

verus! {

/// Size of a uniform block in bytes: sixteen entries of four bytes.
pub const UNIFORM_SIZE: u64 = 64;

/// The bit pattern of the single-precision number one.
pub const ONE: u32 = 0x3F80_0000;

/// A 4x4 transform, ready for upload.
#[derive(Copy, Clone, Debug)]
pub struct Mat4x4Uniform {
    mat: [[u32; 4]; 4],
}

/// The sixteen words of a transform given as four rows of four.
pub open spec fn words_of(mat: [[u32; 4]; 4]) -> Seq<u32> {
    Seq::new(16, |i: int| mat@[i / 4]@[i % 4])
}

/// The words of the identity transform: one on the diagonal, zero elsewhere.
pub open spec fn identity_words() -> Seq<u32> {
    Seq::new(16, |i: int| if i / 4 == i % 4 { ONE } else { 0u32 })
}

impl View for Mat4x4Uniform {
    type V = Seq<u32>;

    /// The sixteen words of the block in the order in which they lie in
    /// memory.
    closed spec fn view(&self) -> Seq<u32> {
        words_of(self.mat)
    }
}

impl Mat4x4Uniform {
    /// Replaces the transform. Nothing of the old one remains.
    #[inline]
    pub fn update_mat(&mut self, mat: [[u32; 4]; 4])
        ensures
            final(self)@ == words_of(mat),
    {
        *self = Self::setup(mat);
    }

    #[inline]
    fn setup(mat: [[u32; 4]; 4]) -> (block: Self)
        ensures
            block@ == words_of(mat),
    {
        Self { mat }
    }

    /// The transform as four rows of four.
    pub fn mat(&self) -> (mat: [[u32; 4]; 4])
        ensures
            words_of(mat) == self@,
    {
        self.mat
    }

    /// The sixteen words of the block, row after row.
    pub fn words(&self) -> (words: Vec<u32>)
        ensures
            words@ == self@,
    {
        let mut words: Vec<u32> = Vec::new();
        let mut row: usize = 0;
        while row < 4
            invariant
                row <= 4,
                words@ == self@.take(4 * row as int),
            decreases 4 - row,
        {
            let line = self.mat[row];
            words.push(line[0]);
            words.push(line[1]);
            words.push(line[2]);
            words.push(line[3]);
            proof {
                let target = self@.take(4 * (row + 1) as int);
                assert forall|k: int| 0 <= k < words@.len() implies words@[k] == target[k] by {}
            }
            row = row + 1;
        }
        words
    }

    /// The bytes to write into the uniform buffer, from its start and over
    /// its whole size: the sixteen words as they lie in memory.
    pub fn contents(&self) -> (bytes: Vec<u8>)
        ensures
            is_memory_of_words(bytes@, self@),
            bytes@.len() == UNIFORM_SIZE,
    {
        let words = self.words();
        cast_words(words.as_slice())
    }
}

impl Default for Mat4x4Uniform {
    /// The identity transform.
    #[inline]
    fn default() -> (block: Self)
        ensures
            block@ == identity_words(),
    {
        let block = Self::setup(
            [[ONE, 0, 0, 0], [0, ONE, 0, 0], [0, 0, ONE, 0], [0, 0, 0, ONE]],
        );
        proof {
            assert forall|i: int| 0 <= i < 16 implies block@[i] == identity_words()[i] by {}
        }
        block
    }
}

} // verus!
