//! A vertex carrying a position and a texture coordinate, and the fixed
//! pentagon geometry drawn by the textured pipeline.

use vstd::prelude::*;
use crate::layout::VertexAttribute;
use crate::layout::VertexFormat;
use crate::layout::VertexLayout;
use crate::layout::two_attribute_layout;
use crate::vertex_types::Vec2Bits;
use crate::vertex_types::Vec3Bits;
use crate::vertex_types::Vertex;

verus! {

/// A position plus a texture coordinate, each component held as the bit
/// pattern of the 32-bit scalar the shader receives.
#[derive(Clone, Copy, PartialEq, Eq, Structural, Debug)]
pub struct TexturedVertex {
    pub position: Vec3Bits,
    pub tex_coords: Vec2Bits,
}

impl Vertex for TexturedVertex {
    open spec fn spec_words(self) -> Seq<u32> {
        seq![
            self.position.x,
            self.position.y,
            self.position.z,
            self.tex_coords.x,
            self.tex_coords.y,
        ]
    }

    open spec fn spec_word_count() -> nat {
        5
    }

    /// A three-float position at offset zero feeding location zero, then a
    /// two-float texture coordinate at offset twelve feeding location one.
    open spec fn spec_attributes() -> Seq<VertexAttribute> {
        seq![
            (VertexAttribute { offset: 0, shader_location: 0, format: VertexFormat::Float32x3 }),
            (VertexAttribute { offset: 12, shader_location: 1, format: VertexFormat::Float32x2 }),
        ]
    }

    fn desc() -> (r: VertexLayout) {
        let r = two_attribute_layout(VertexFormat::Float32x3, VertexFormat::Float32x2);
        proof {
            assert(r.attributes@ =~= Self::spec_attributes());
        }
        r
    }

    fn to_words(&self) -> (r: Vec<u32>) {
        let mut r: Vec<u32> = Vec::new();
        r.push(self.position.x);
        r.push(self.position.y);
        r.push(self.position.z);
        r.push(self.tex_coords.x);
        r.push(self.tex_coords.y);
        proof {
            assert(r@ =~= self.spec_words());
        }
        r
    }

    proof fn words_len(self) {
    }
}

/// The five pentagon corners, counter-clockwise, with their texture
/// coordinates.
pub open spec fn spec_pentagon_vertices() -> Seq<TexturedVertex> {
    seq![
        (TexturedVertex {
            position: (Vec3Bits { x: 0xbdb1d0d5, y: 0x3efc1c5c, z: 0 }),
            tex_coords: (Vec2Bits { x: 0x3ed38bcb, y: 0x3f7e0e2e }),
        }),
        (TexturedVertex {
            position: (Vec3Bits { x: 0xbefd8236, y: 0x3d8e835a, z: 0 }),
            tex_coords: (Vec2Bits { x: 0x3b9f7280, y: 0x3f11d06b }),
        }),
        (TexturedVertex {
            position: (Vec3Bits { x: 0xbe607229, y: 0xbee6175f, z: 0 }),
            tex_coords: (Vec2Bits { x: 0x3e8fc6ec, y: 0x3d4f4507 }),
        }),
        (TexturedVertex {
            position: (Vec3Bits { x: 0x3eb826aa, y: 0xbeb1d51f, z: 0 }),
            tex_coords: (Vec2Bits { x: 0x3f5c1355, y: 0x3e1c55c3 }),
        }),
        (TexturedVertex {
            position: (Vec3Bits { x: 0x3ee208d8, y: 0x3e705e9c, z: 0 }),
            tex_coords: (Vec2Bits { x: 0x3f71046c, y: 0x3f3c17a7 }),
        }),
    ]
}

/// The pentagon's index list: three counter-clockwise triangles fanned
/// around corner four.
pub open spec fn spec_pentagon_indices() -> Seq<u16> {
    seq![0u16, 1u16, 4u16, 1u16, 2u16, 4u16, 2u16, 3u16, 4u16]
}

pub fn pentagon_vertices() -> (r: Vec<TexturedVertex>)
    ensures
        r@ == spec_pentagon_vertices(),
{
    let mut r: Vec<TexturedVertex> = Vec::new();
    r.push(TexturedVertex {
        position: Vec3Bits { x: 0xbdb1d0d5, y: 0x3efc1c5c, z: 0 },
        tex_coords: Vec2Bits { x: 0x3ed38bcb, y: 0x3f7e0e2e },
    });
    r.push(TexturedVertex {
        position: Vec3Bits { x: 0xbefd8236, y: 0x3d8e835a, z: 0 },
        tex_coords: Vec2Bits { x: 0x3b9f7280, y: 0x3f11d06b },
    });
    r.push(TexturedVertex {
        position: Vec3Bits { x: 0xbe607229, y: 0xbee6175f, z: 0 },
        tex_coords: Vec2Bits { x: 0x3e8fc6ec, y: 0x3d4f4507 },
    });
    r.push(TexturedVertex {
        position: Vec3Bits { x: 0x3eb826aa, y: 0xbeb1d51f, z: 0 },
        tex_coords: Vec2Bits { x: 0x3f5c1355, y: 0x3e1c55c3 },
    });
    r.push(TexturedVertex {
        position: Vec3Bits { x: 0x3ee208d8, y: 0x3e705e9c, z: 0 },
        tex_coords: Vec2Bits { x: 0x3f71046c, y: 0x3f3c17a7 },
    });
    proof {
        assert(r@ =~= spec_pentagon_vertices());
    }
    r
}

pub fn pentagon_indices() -> (r: Vec<u16>)
    ensures
        r@ == spec_pentagon_indices(),
{
    let mut r: Vec<u16> = Vec::new();
    r.push(0);
    r.push(1);
    r.push(4);
    r.push(1);
    r.push(2);
    r.push(4);
    r.push(2);
    r.push(3);
    r.push(4);
    proof {
        assert(r@ =~= spec_pentagon_indices());
    }
    r
}

} // verus!
