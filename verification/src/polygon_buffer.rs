//! Write-once geometry: the byte images of one vertex buffer and one index
//! buffer, with their element counts.

use vstd::prelude::*;
use crate::layout::VertexLayout;
use crate::layout::decode_post;
use crate::layout::encode_indices;
use crate::layout::encode_vertices;
use crate::layout::le_indices;
use crate::layout::le_words;
use crate::layout::lemma_layout_round_trip;
use crate::layout::word_stream;
use crate::vertex_types::Vertex;

verus! {

/// One uploadable geometry set: the exact bytes of the vertex and index
/// buffers, fixed at construction, and their element counts.  The GPU
/// copies are made from these images and never change afterwards.
pub struct PolygonBuffer {
    pub vertex_buffer: Vec<u8>,
    pub index_buffer: Vec<u8>,
    pub num_vertices: u32,
    pub num_indices: u32,
}

impl PolygonBuffer {
    /// The vertex image holds every vertex's words in order; the index
    /// image holds every index little-endian; the counts are the slice
    /// lengths.
    pub open spec fn describes<T: Vertex>(self, vertices: Seq<T>, indices: Seq<u16>) -> bool {
        &&& self.vertex_buffer@ == le_words(word_stream(vertices.map_values(|v: T| v.spec_words())))
        &&& self.index_buffer@ == le_indices(indices)
        &&& self.num_vertices == vertices.len()
        &&& self.num_indices == indices.len()
    }

    /// Encode one geometry set.  Both byte images are complete at return;
    /// there is no update operation.
    pub fn new<T: Vertex>(vertices: &Vec<T>, indices: &Vec<u16>) -> (r: PolygonBuffer)
        requires
            vertices@.len() <= u32::MAX,
            indices@.len() <= u32::MAX,
        ensures
            r.describes(vertices@, indices@),
    {
        let mut words: Vec<Vec<u32>> = Vec::new();
        let mut i: usize = 0;
        while i < vertices.len()
            invariant
                i <= vertices@.len(),
                words@.len() == i,
                forall|k: int|
                    0 <= k < i ==> (#[trigger] words@[k])@ == vertices@[k].spec_words(),
            decreases vertices@.len() - i,
        {
            let w = vertices[i].to_words();
            words.push(w);
            i += 1;
        }
        let vertex_buffer = encode_vertices(&words);
        proof {
            assert(words@.map_values(|v: Vec<u32>| v@) =~= vertices@.map_values(
                |v: T| v.spec_words(),
            ));
        }
        let index_buffer = encode_indices(indices);
        let num_vertices = vertices.len() as u32;
        let num_indices = indices.len() as u32;
        PolygonBuffer { vertex_buffer, index_buffer, num_vertices, num_indices }
    }
}

/// Law: a geometry buffer's vertex image, decoded back through the vertex
/// type's own declared layout, reproduces every vertex bit for bit.
pub proof fn lemma_geometry_round_trip<T: Vertex>(
    vertices: Seq<T>,
    layout: VertexLayout,
    decoded: Seq<Seq<u32>>,
)
    requires
        layout.wf(),
        layout.spec_word_count() == T::spec_word_count(),
        decode_post(
            decoded,
            le_words(word_stream(vertices.map_values(|v: T| v.spec_words()))),
            layout,
        ),
    ensures
        decoded == vertices.map_values(|v: T| v.spec_words()),
{
    let words = vertices.map_values(|v: T| v.spec_words());
    assert forall|k: int| 0 <= k < words.len() implies (#[trigger] words[k]).len()
        == layout.spec_word_count() by {
        vertices[k].words_len();
    }
    lemma_layout_round_trip(words, layout, decoded);
}

} // verus!
