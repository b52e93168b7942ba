//! The plain colored vertex record, its layout, and the index list of the
//! generated regular polygon.

use vstd::prelude::*;
use vstd::arithmetic::div_mod::lemma_fundamental_div_mod_converse;
use crate::layout::VertexAttribute;
use crate::layout::VertexFormat;
use crate::layout::VertexLayout;
use crate::layout::two_attribute_layout;
use crate::vertex_types::Vec3Bits;

verus! {

/// A position plus a color, each component held as the bit pattern of the
/// 32-bit scalar the shader receives.
#[derive(Clone, Copy, PartialEq, Eq, Structural, Debug)]
pub struct Vertex {
    pub position: Vec3Bits,
    pub color: Vec3Bits,
}

/// Index `j` of a triangle fan: triple `k` is `[0, k + 2, k + 1]`.
pub open spec fn spec_fan_index(j: int) -> u16 {
    let k = j / 3;
    if j % 3 == 0 {
        0u16
    } else if j % 3 == 1 {
        (k + 2) as u16
    } else {
        (k + 1) as u16
    }
}

/// The index list of a fan of `n` triangles around corner zero.
pub open spec fn spec_fan_indices(n: nat) -> Seq<u16> {
    Seq::new(3 * n, |j: int| spec_fan_index(j))
}

/// Emit the fan indices: for each triangle `t`, counting from one, the
/// triple `[0, t + 1, t]`.
pub fn fan_indices(num_triangles: u16) -> (r: Vec<u16>)
    requires
        num_triangles < u16::MAX,
    ensures
        r@ == spec_fan_indices(num_triangles as nat),
{
    let mut r: Vec<u16> = Vec::new();
    let mut t: u16 = 1;
    while t <= num_triangles
        invariant
            1 <= t <= num_triangles + 1,
            num_triangles < u16::MAX,
            r@.len() == 3 * (t - 1),
            forall|j: int| 0 <= j < r@.len() ==> r@[j] == spec_fan_index(j),
        decreases num_triangles + 1 - t,
    {
        r.push(0);
        r.push(t + 1);
        r.push(t);
        proof {
            let k = t - 1;
            lemma_fundamental_div_mod_converse(3 * k, 3, k as int, 0);
            lemma_fundamental_div_mod_converse(3 * k + 1, 3, k as int, 1);
            lemma_fundamental_div_mod_converse(3 * k + 2, 3, k as int, 2);
        }
        t += 1;
    }
    proof {
        assert(r@ =~= spec_fan_indices(num_triangles as nat));
    }
    r
}

impl crate::vertex_types::Vertex for Vertex {
    /// The record's words, in field order.
    open spec fn spec_words(self) -> Seq<u32> {
        seq![
            self.position.x,
            self.position.y,
            self.position.z,
            self.color.x,
            self.color.y,
            self.color.z,
        ]
    }

    open spec fn spec_word_count() -> nat {
        6
    }

    /// A three-float position at offset zero feeding location zero, then a
    /// three-float color at offset twelve feeding location one.
    open spec fn spec_attributes() -> Seq<VertexAttribute> {
        seq![
            (VertexAttribute { offset: 0, shader_location: 0, format: VertexFormat::Float32x3 }),
            (VertexAttribute { offset: 12, shader_location: 1, format: VertexFormat::Float32x3 }),
        ]
    }

    /// The buffer layout matching this record's field order: a
    /// three-component position at offset zero, then a three-component
    /// color, packed into a 24-byte stride.
    fn desc() -> (r: VertexLayout) {
        let r = two_attribute_layout(VertexFormat::Float32x3, VertexFormat::Float32x3);
        proof {
            assert(r.attributes@ =~= Self::spec_attributes());
        }
        r
    }

    fn to_words(&self) -> (r: Vec<u32>) {
        let mut r: Vec<u32> = Vec::new();
        r.push(self.position.x);
        r.push(self.position.y);
        r.push(self.position.z);
        r.push(self.color.x);
        r.push(self.color.y);
        r.push(self.color.z);
        proof {
            assert(r@ =~= self.spec_words());
        }
        r
    }

    proof fn words_len(self) {
    }
}

impl Vertex {
    /// The index list of the generated regular polygon: the polygon builder
    /// emits `3 * num_sides` rim points and fans `3 * num_sides - 2`
    /// triangles around point zero.  The builder's positions come from the
    /// caller, which samples the unit circle.
    pub fn generate_polygon_indices(num_sides: u16) -> (r: Vec<u16>)
        requires
            1 <= num_sides,
            3 * num_sides <= u16::MAX,
        ensures
            r@ == spec_fan_indices((3 * num_sides - 2) as nat),
    {
        fan_indices(3 * num_sides - 2)
    }
}

/// The five pentagon corners, counter-clockwise, all teal.
pub open spec fn spec_pentagon_vertices() -> Seq<Vertex> {
    seq![
        (Vertex {
            position: (Vec3Bits { x: 0xbdb1d0d5, y: 0x3efc1c5c, z: 0 }),
            color: (Vec3Bits { x: 0, y: 0x3f000000, z: 0x3f000000 }),
        }),
        (Vertex {
            position: (Vec3Bits { x: 0xbefd8236, y: 0x3d8e835a, z: 0 }),
            color: (Vec3Bits { x: 0, y: 0x3f000000, z: 0x3f000000 }),
        }),
        (Vertex {
            position: (Vec3Bits { x: 0xbe607229, y: 0xbee6175f, z: 0 }),
            color: (Vec3Bits { x: 0, y: 0x3f000000, z: 0x3f000000 }),
        }),
        (Vertex {
            position: (Vec3Bits { x: 0x3eb826aa, y: 0xbeb1d51f, z: 0 }),
            color: (Vec3Bits { x: 0, y: 0x3f000000, z: 0x3f000000 }),
        }),
        (Vertex {
            position: (Vec3Bits { x: 0x3ee208d8, y: 0x3e705e9c, z: 0 }),
            color: (Vec3Bits { x: 0, y: 0x3f000000, z: 0x3f000000 }),
        }),
    ]
}

pub fn pentagon_vertices() -> (r: Vec<Vertex>)
    ensures
        r@ == spec_pentagon_vertices(),
{
    let teal = Vec3Bits { x: 0, y: 0x3f000000, z: 0x3f000000 };
    let mut r: Vec<Vertex> = Vec::new();
    r.push(Vertex { position: Vec3Bits { x: 0xbdb1d0d5, y: 0x3efc1c5c, z: 0 }, color: teal });
    r.push(Vertex { position: Vec3Bits { x: 0xbefd8236, y: 0x3d8e835a, z: 0 }, color: teal });
    r.push(Vertex { position: Vec3Bits { x: 0xbe607229, y: 0xbee6175f, z: 0 }, color: teal });
    r.push(Vertex { position: Vec3Bits { x: 0x3eb826aa, y: 0xbeb1d51f, z: 0 }, color: teal });
    r.push(Vertex { position: Vec3Bits { x: 0x3ee208d8, y: 0x3e705e9c, z: 0 }, color: teal });
    proof {
        assert(r@ =~= spec_pentagon_vertices());
    }
    r
}

/// The pentagon's index list: three counter-clockwise triangles fanned
/// around corner four.
pub fn pentagon_indices() -> (r: Vec<u16>)
    ensures
        r@ == seq![0u16, 1u16, 4u16, 1u16, 2u16, 4u16, 2u16, 3u16, 4u16],
{
    let mut r: Vec<u16> = Vec::new();
    r.push(0);
    r.push(1);
    r.push(4);
    r.push(1);
    r.push(2);
    r.push(4);
    r.push(2);
    r.push(3);
    r.push(4);
    proof {
        assert(r@ =~= seq![0u16, 1u16, 4u16, 1u16, 2u16, 4u16, 2u16, 3u16, 4u16]);
    }
    r
}

} // verus!
