//! A vertex carrying a position and a color.

use vstd::prelude::*;
use crate::layout::VertexAttribute;
use crate::layout::VertexFormat;
use crate::layout::VertexLayout;
use crate::layout::two_attribute_layout;
use crate::vertex::fan_indices;
use crate::vertex::spec_fan_indices;
use super::Vec3Bits;
use super::Vertex;

verus! {

/// A position plus a color, each component held as the bit pattern of the
/// 32-bit scalar the shader receives.
#[derive(Clone, Copy, PartialEq, Eq, Structural, Debug)]
pub struct ColoredVertex {
    pub position: Vec3Bits,
    pub color: Vec3Bits,
}

impl Vertex for ColoredVertex {
    open spec fn spec_words(self) -> Seq<u32> {
        seq![
            self.position.x,
            self.position.y,
            self.position.z,
            self.color.x,
            self.color.y,
            self.color.z,
        ]
    }

    open spec fn spec_word_count() -> nat {
        6
    }

    /// A three-float position at offset zero feeding location zero, then a
    /// three-float color at offset twelve feeding location one.
    open spec fn spec_attributes() -> Seq<VertexAttribute> {
        seq![
            (VertexAttribute { offset: 0, shader_location: 0, format: VertexFormat::Float32x3 }),
            (VertexAttribute { offset: 12, shader_location: 1, format: VertexFormat::Float32x3 }),
        ]
    }

    fn desc() -> (r: VertexLayout) {
        let r = two_attribute_layout(VertexFormat::Float32x3, VertexFormat::Float32x3);
        proof {
            assert(r.attributes@ =~= Self::spec_attributes());
        }
        r
    }

    fn to_words(&self) -> (r: Vec<u32>) {
        let mut r: Vec<u32> = Vec::new();
        r.push(self.position.x);
        r.push(self.position.y);
        r.push(self.position.z);
        r.push(self.color.x);
        r.push(self.color.y);
        r.push(self.color.z);
        proof {
            assert(r@ =~= self.spec_words());
        }
        r
    }

    proof fn words_len(self) {
    }
}

impl ColoredVertex {
    /// The index list of the generated regular polygon, fanned as
    /// `Vertex::generate_polygon_indices` fans it.
    pub fn generate_polygon_indices(num_sides: u16) -> (r: Vec<u16>)
        requires
            1 <= num_sides,
            3 * num_sides <= u16::MAX,
        ensures
            r@ == spec_fan_indices((3 * num_sides - 2) as nat),
    {
        fan_indices(3 * num_sides - 2)
    }
}

} // verus!
