//! What the engine keeps of the camera: the aspect ratio of its projection
//! and the uniform that carries its view-projection transform.

use crate::mat4x4_uniform::{identity_words, words_of, Mat4x4Uniform, UNIFORM_SIZE};
use crate::bytes::is_memory_of_words;
use vstd::prelude::*;

verus! {

/// The aspect ratio of the projection as an exact fraction: width over
/// height.
#[derive(Copy, Clone, Debug, PartialEq, Eq, Structural)]
pub struct AspectRatio {
    /// The numerator: a width in pixels.
    pub width: u32,
    /// The denominator: a height in pixels.
    pub height: u32,
}

impl AspectRatio {
    /// A usable aspect ratio is positive: neither side is zero.
    pub open spec fn is_positive(self) -> bool {
        self.width >= 1 && self.height >= 1
    }
}

/// The uniform of the camera: its view-projection transform.
#[derive(Copy, Clone, Debug)]
pub struct CameraUniform(Mat4x4Uniform);

impl View for CameraUniform {
    type V = Seq<u32>;

    /// The sixteen words of the transform.
    closed spec fn view(&self) -> Seq<u32> {
        self.0@
    }
}

impl CameraUniform {
    /// Takes over the view-projection transform that the camera computed.
    #[inline]
    pub fn update_view_proj(&mut self, view_proj: [[u32; 4]; 4])
        ensures
            final(self)@ == words_of(view_proj),
    {
        self.0.update_mat(view_proj);
    }

    /// The bytes to write into the camera buffer, from its start and over
    /// its whole size.
    pub fn contents(&self) -> (bytes: Vec<u8>)
        ensures
            is_memory_of_words(bytes@, self@),
            bytes@.len() == UNIFORM_SIZE,
    {
        self.0.contents()
    }
}

impl Default for CameraUniform {
    /// The identity transform.
    #[inline]
    fn default() -> (uniform: Self)
        ensures
            uniform@ == identity_words(),
    {
        CameraUniform(Mat4x4Uniform::default())
    }
}

} // verus!
