//! The capability of being described as a GPU vertex layout.
//!
//! Vertex scalars are carried as the raw bit patterns of the 32-bit values
//! the shader receives, so that layouts and buffer images can be reasoned
//! about exactly.

pub mod colored_vertex;

use vstd::prelude::*;
use crate::layout::VertexAttribute;
use crate::layout::VertexLayout;
use crate::layout::VertexStepMode;

verus! {

/// The raw bits of a three-component vertex field.
#[derive(Clone, Copy, PartialEq, Eq, Structural, Debug)]
pub struct Vec3Bits {
    pub x: u32,
    pub y: u32,
    pub z: u32,
}

/// The raw bits of a two-component vertex field.
#[derive(Clone, Copy, PartialEq, Eq, Structural, Debug)]
pub struct Vec2Bits {
    pub x: u32,
    pub y: u32,
}

/// A record type that can describe itself as a GPU vertex layout.  The
/// layout must match the record's field order exactly: `to_words` lists the
/// record's scalars in that order, and `desc` places them back to back.
pub trait Vertex: Sized {
    /// The record's 32-bit words, in field order.
    spec fn spec_words(self) -> Seq<u32>;

    /// How many words one record occupies.
    spec fn spec_word_count() -> nat;

    /// The exact attribute list of the record's layout — offsets, shader
    /// locations and formats, in field order.  This is the bit-exact
    /// contract between the record and its shader declaration.
    spec fn spec_attributes() -> Seq<VertexAttribute>;

    /// The buffer layout matching the record's field order.
    fn desc() -> (r: VertexLayout)
        ensures
            r.wf(),
            r.spec_word_count() == Self::spec_word_count(),
            r.array_stride == 4 * Self::spec_word_count(),
            r.step_mode == VertexStepMode::Vertex,
            r.attributes@ == Self::spec_attributes(),
    ;

    /// The record's words, in field order.
    fn to_words(&self) -> (r: Vec<u32>)
        ensures
            r@ == self.spec_words(),
            r@.len() == Self::spec_word_count(),
    ;

    /// Every record has exactly its type's word count.
    proof fn words_len(self)
        ensures
            self.spec_words().len() == Self::spec_word_count(),
    ;
}

} // verus!
