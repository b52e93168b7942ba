//! The GPU-visible mirror of the camera's view-projection matrix.
//!
//! The matrix lives here as sixteen 32-bit words — the bit patterns of the
//! scalars the shader reads — and is copied one way into a uniform buffer
//! each frame, never read back.

use vstd::prelude::*;
use crate::layout::encode_words;
use crate::layout::le_words;

verus! {

/// Bit pattern of the scalar one.
pub const ONE_BITS: u32 = 0x3f80_0000;

/// Sixteen words of a 4×4 matrix, column after column.
pub struct CameraUniform {
    pub view_proj: Vec<u32>,
}

impl CameraUniform {
    pub open spec fn wf(self) -> bool {
        self.view_proj@.len() == 16
    }

    /// The identity matrix's words: ones on the diagonal, zeroes elsewhere.
    pub open spec fn spec_identity() -> Seq<u32> {
        Seq::new(
            16,
            |j: int|
                if j == 0 || j == 5 || j == 10 || j == 15 {
                    ONE_BITS
                } else {
                    0u32
                },
        )
    }

    /// A fresh mirror holds the identity until a camera matrix is adopted.
    pub fn new() -> (r: CameraUniform)
        ensures
            r.wf(),
            r.view_proj@ == Self::spec_identity(),
    {
        let mut view_proj: Vec<u32> = Vec::new();
        let mut i: usize = 0;
        while i < 16
            invariant
                i <= 16,
                view_proj@.len() == i,
                forall|j: int| 0 <= j < i ==> view_proj@[j] == Self::spec_identity()[j],
            decreases 16 - i,
        {
            if i == 0 || i == 5 || i == 10 || i == 15 {
                view_proj.push(ONE_BITS);
            } else {
                view_proj.push(0);
            }
            i += 1;
        }
        proof {
            assert(view_proj@ =~= Self::spec_identity());
        }
        CameraUniform { view_proj }
    }

    /// Adopt a freshly computed view-projection matrix.
    pub fn update_view_proj(&mut self, words: &Vec<u32>)
        requires
            words@.len() == 16,
        ensures
            final(self).wf(),
            final(self).view_proj@ == words@,
    {
        let mut copy: Vec<u32> = Vec::new();
        let mut i: usize = 0;
        while i < words.len()
            invariant
                i <= words@.len(),
                copy@ == words@.take(i as int),
            decreases words@.len() - i,
        {
            copy.push(words[i]);
            proof {
                assert(words@.take(i as int).push(words@[i as int]) =~= words@.take(i as int + 1));
            }
            i += 1;
        }
        proof {
            assert(words@.take(words@.len() as int) =~= words@);
        }
        self.view_proj = copy;
    }

    /// The bytes one queue write copies into the uniform buffer: each word
    /// little-endian.
    pub fn to_bytes(&self) -> (r: Vec<u8>)
        ensures
            r@ == le_words(self.view_proj@),
    {
        encode_words(&self.view_proj)
    }
}

} // verus!
