//! What the engine keeps of the model: the uniform that carries its
//! transform.

use crate::mat4x4_uniform::{identity_words, words_of, Mat4x4Uniform, UNIFORM_SIZE};
use crate::bytes::is_memory_of_words;
use vstd::prelude::*;

verus! {

/// The uniform of the model: its rotation.
#[derive(Copy, Clone, Debug)]
pub struct ModelUniform(Mat4x4Uniform);

impl View for ModelUniform {
    type V = Seq<u32>;

    /// The sixteen words of the transform.
    closed spec fn view(&self) -> Seq<u32> {
        self.0@
    }
}

impl ModelUniform {
    /// Takes over the transform that the model computed.
    #[inline]
    pub fn update_model(&mut self, model: [[u32; 4]; 4])
        ensures
            final(self)@ == words_of(model),
    {
        self.0.update_mat(model);
    }

    /// The bytes to write into the model buffer, from its start and over its
    /// whole size.
    pub fn contents(&self) -> (bytes: Vec<u8>)
        ensures
            is_memory_of_words(bytes@, self@),
            bytes@.len() == UNIFORM_SIZE,
    {
        self.0.contents()
    }
}

impl Default for ModelUniform {
    /// The identity transform.
    #[inline]
    fn default() -> (uniform: Self)
        ensures
            uniform@ == identity_words(),
    {
        ModelUniform(Mat4x4Uniform::default())
    }
}

} // verus!
