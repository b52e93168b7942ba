//! Vertex layouts, the byte codec, and the layout round trip.

use render_core::layout::decode_vertices;
use render_core::layout::VertexFormat;
use render_core::layout::VertexStepMode;
use render_core::polygon_buffer::PolygonBuffer;
use render_core::textured_vertex::pentagon_indices;
use render_core::textured_vertex::pentagon_vertices;
use render_core::textured_vertex::TexturedVertex;
use render_core::vertex::Vertex;
use render_core::vertex_types::colored_vertex::ColoredVertex;
use render_core::vertex_types::Vec3Bits;
use render_core::vertex_types::Vertex as VertexDesc;

// The float values of the pentagon, in vertex-buffer order.
fn pentagon_floats() -> Vec<f32> {
    vec![
        -0.0868241, 0.49240386, 0.0, 0.4131759, 0.99240386, // corner A
        -0.49513406, 0.06958647, 0.0, 0.0048659444, 0.56958647, // corner B
        -0.21918549, -0.44939706, 0.0, 0.28081453, 0.05060294, // corner C
        0.35966998, -0.3473291, 0.0, 0.85967, 0.1526709, // corner D
        0.44147372, 0.2347359, 0.0, 0.9414737, 0.7347359, // corner E
    ]
}

#[test]
fn textured_layout_matches_field_layout() {
    let layout = TexturedVertex::desc();
    assert_eq!(layout.array_stride, 20);
    assert!(matches!(layout.step_mode, VertexStepMode::Vertex));
    assert_eq!(layout.attributes.len(), 2);
    assert_eq!(layout.attributes[0].offset, 0);
    assert_eq!(layout.attributes[0].shader_location, 0);
    assert!(matches!(layout.attributes[0].format, VertexFormat::Float32x3));
    assert_eq!(layout.attributes[1].offset, 12);
    assert_eq!(layout.attributes[1].shader_location, 1);
    assert!(matches!(layout.attributes[1].format, VertexFormat::Float32x2));
}

#[test]
fn colored_layout_matches_field_layout() {
    let layout = Vertex::desc();
    assert_eq!(layout.array_stride, 24);
    assert_eq!(layout.attributes.len(), 2);
    assert_eq!(layout.attributes[0].offset, 0);
    assert_eq!(layout.attributes[0].shader_location, 0);
    assert!(matches!(layout.attributes[0].format, VertexFormat::Float32x3));
    assert_eq!(layout.attributes[1].offset, 12);
    assert_eq!(layout.attributes[1].shader_location, 1);
    assert!(matches!(layout.attributes[1].format, VertexFormat::Float32x3));
}

#[test]
fn format_sizes_match_wgpu() {
    let f3 = VertexFormat::Float32x3;
    let f2 = VertexFormat::Float32x2;
    assert_eq!(f3.size() as u64, wgpu::VertexFormat::Float32x3.size());
    assert_eq!(f2.size() as u64, wgpu::VertexFormat::Float32x2.size());
}

#[test]
fn pentagon_encoding_matches_bytemuck() {
    // The library's byte image must be bit for bit what casting the
    // repr(C) float records produces.
    let vertices = pentagon_vertices();
    let indices = pentagon_indices();
    let buffer = PolygonBuffer::new(&vertices, &indices);
    let floats = pentagon_floats();
    let raw: &[u8] = bytemuck::cast_slice(&floats);
    assert_eq!(buffer.vertex_buffer, raw.to_vec());
    assert_eq!(buffer.num_vertices, 5);
    assert_eq!(buffer.num_indices, 9);

    let index_values: Vec<u16> = vec![0, 1, 4, 1, 2, 4, 2, 3, 4];
    let raw_indices: &[u8] = bytemuck::cast_slice(&index_values);
    assert_eq!(buffer.index_buffer, raw_indices.to_vec());
}

#[test]
fn pentagon_round_trip_is_bit_exact() {
    let vertices = pentagon_vertices();
    let indices = pentagon_indices();
    let buffer = PolygonBuffer::new(&vertices, &indices);
    let layout = TexturedVertex::desc();
    let decoded = decode_vertices(&buffer.vertex_buffer, &layout).expect("whole records");
    assert_eq!(decoded.len(), 5);
    for (v, words) in vertices.iter().zip(decoded.iter()) {
        assert_eq!(&v.to_words(), words);
    }
    // And the decoded words are the original floats, bit for bit.
    let floats = pentagon_floats();
    let mut k: usize = 0;
    for words in decoded.iter() {
        for w in words.iter() {
            assert_eq!(*w, floats[k].to_bits());
            k += 1;
        }
    }
    assert_eq!(k, floats.len());
}

#[test]
fn decode_rejects_partial_records() {
    let vertices = pentagon_vertices();
    let indices = pentagon_indices();
    let buffer = PolygonBuffer::new(&vertices, &indices);
    let layout = TexturedVertex::desc();
    let mut truncated = buffer.vertex_buffer.clone();
    truncated.pop();
    assert!(decode_vertices(&truncated, &layout).is_none());
}

#[test]
fn decode_empty_buffer() {
    let layout = TexturedVertex::desc();
    let empty: Vec<u8> = Vec::new();
    let decoded = decode_vertices(&empty, &layout).expect("zero records");
    assert_eq!(decoded.len(), 0);
}

#[test]
fn polygon_indices_match_fan_formula() {
    // The polygon generator fans `3 * sides - 2` triangles around point
    // zero, triple `t` being `[0, t + 1, t]`.
    let got = Vertex::generate_polygon_indices(5);
    let num_triangles: u16 = 5 * 3 - 2;
    let expected: Vec<u16> = (1u16..num_triangles + 1)
        .flat_map(|i| vec![0, i + 1, i])
        .collect();
    assert_eq!(got, expected);
}

#[test]
fn colored_polygon_indices_match_the_shared_fan() {
    assert_eq!(
        ColoredVertex::generate_polygon_indices(4),
        Vertex::generate_polygon_indices(4)
    );
    // Smallest polygon: one triangle ring of a single side.
    let got = Vertex::generate_polygon_indices(1);
    assert_eq!(got, vec![0, 2, 1]);
}

#[test]
fn colored_round_trip_is_bit_exact() {
    let v = ColoredVertex {
        position: Vec3Bits {
            x: (0.25f32).to_bits(),
            y: (-1.5f32).to_bits(),
            z: (3.0f32).to_bits(),
        },
        color: Vec3Bits {
            x: (0.0f32).to_bits(),
            y: (0.5f32).to_bits(),
            z: (1.0f32).to_bits(),
        },
    };
    let vertices = vec![v];
    let indices: Vec<u16> = vec![0];
    let buffer = PolygonBuffer::new(&vertices, &indices);
    let layout = ColoredVertex::desc();
    assert_eq!(buffer.vertex_buffer.len(), 24);
    let decoded = decode_vertices(&buffer.vertex_buffer, &layout).expect("one record");
    assert_eq!(decoded.len(), 1);
    assert_eq!(decoded[0], v.to_words());
}
