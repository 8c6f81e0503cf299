//! The camera's matrices in the form the shader reads.

use vstd::prelude::*;
use crate::layout::append_words;

verus! {

/// The view matrix and the projection matrix of a camera, each as sixteen
/// words in column-major order.
#[derive(Clone, Copy, Debug, PartialEq, Eq)]
pub struct CameraRaw {
    pub view_matrix: [u32; 16],
    pub perspective_matrix: [u32; 16],
}

impl CameraRaw {
    /// The thirty-two words of the two matrices: view first, then projection.
    pub open spec fn words(self) -> Seq<u32> {
        self.view_matrix@ + self.perspective_matrix@
    }

    /// Packs the columns of the view matrix and of the projection matrix.
    pub fn new(view_matrix: [u32; 16], perspective_matrix: [u32; 16]) -> (raw: CameraRaw)
        ensures
            raw.view_matrix == view_matrix,
            raw.perspective_matrix == perspective_matrix,
    {
        CameraRaw { view_matrix, perspective_matrix }
    }

    /// The thirty-two words of the two matrices: view first, then projection.
    pub fn to_words(&self) -> (words: Vec<u32>)
        ensures
            words@ == self.words(),
            words@.len() == 32,
    {
        let mut words: Vec<u32> = Vec::new();
        append_words(&mut words, &self.view_matrix);
        append_words(&mut words, &self.perspective_matrix);
        words
    }
}

} // verus!
