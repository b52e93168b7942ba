//! The frame orchestrator: resize guarding, format selection, the frame
//! script, and the end-to-end camera scenarios.

use cgmath::SquareMatrix;
use render_core::camera_uniform::CameraUniform;
use render_core::pipeline::BlendMode;
use render_core::pipeline::CullFace;
use render_core::pipeline::FrontFace;
use render_core::pipeline::IndexFormat;
use render_core::pipeline::PolygonMode;
use render_core::pipeline::PrimitiveTopology;
use render_core::state::classify_surface_error;
use render_core::state::BindingSet;
use render_core::state::RenderCommand;
use render_core::state::RenderDecision;
use render_core::state::RenderVariant;
use render_core::state::State;
use render_core::state::SurfaceErrorKind;
use render_core::surface::select_surface_format;
use render_core::surface::AlphaMode;
use render_core::surface::PixelFormat;
use render_core::surface::PresentMode;
use render_core::textured_vertex::pentagon_indices;
use render_core::textured_vertex::pentagon_vertices;
use render_core::Extent;

fn test_state(width: u32, height: u32) -> State {
    let formats = vec![PixelFormat::Bgra8UnormSrgb, PixelFormat::Bgra8Unorm];
    let present_modes = vec![PresentMode::Fifo];
    let alpha_modes = vec![AlphaMode::Opaque];
    State::new(
        RenderVariant::Textured,
        Extent { width, height },
        &formats,
        &present_modes,
        &alpha_modes,
    )
}

fn solid_state() -> State {
    let formats = vec![PixelFormat::Bgra8UnormSrgb];
    let present_modes = vec![PresentMode::Fifo];
    let alpha_modes = vec![AlphaMode::Opaque];
    State::new(
        RenderVariant::Solid,
        Extent { width: 300, height: 300 },
        &formats,
        &present_modes,
        &alpha_modes,
    )
}

#[test]
fn solid_variant_holds_only_what_it_needs() {
    let state = solid_state();
    // Colored vertices: six floats each, five corners.
    assert_eq!(state.render_pipeline.vertex_layout.array_stride, 24);
    assert_eq!(state.polygon_buffer.vertex_buffer.len(), 5 * 24);
    // One bind group: the camera; no texture set.
    assert_eq!(state.render_pipeline.bind_group_layouts.len(), 1);
    let script = state.render();
    assert_eq!(script.len(), 9);
    assert!(matches!(
        script[2],
        RenderCommand::SetBindGroup { slot: 0, set: BindingSet::CameraUniform }
    ));
    assert!(!script.iter().any(|c| matches!(
        c,
        RenderCommand::SetBindGroup { set: BindingSet::DiffuseTexture, .. }
    )));
}

#[test]
fn zero_area_resize_changes_nothing() {
    let mut state = test_state(300, 300);
    let config_before = state.config;
    let camera_before = state.camera;
    let size_before = state.size;

    assert!(!state.resize(Extent { width: 0, height: 5 }));
    assert!(!state.resize(Extent { width: 7, height: 0 }));
    assert!(!state.resize(Extent { width: 0, height: 0 }));

    assert_eq!(state.config, config_before);
    assert_eq!(state.camera, camera_before);
    assert_eq!(state.size, size_before);
}

#[test]
fn drawable_resize_tracks_aspect_exactly() {
    let mut state = test_state(300, 300);
    assert!(state.resize(Extent { width: 640, height: 480 }));
    assert_eq!(state.config.width, 640);
    assert_eq!(state.config.height, 480);
    assert_eq!(state.size, Extent { width: 640, height: 480 });
    assert_eq!(state.camera.aspect_width, 640);
    assert_eq!(state.camera.aspect_height, 480);
    let aspect = state.camera.aspect_width as f32 / state.camera.aspect_height as f32;
    assert_eq!(aspect, 640.0 / 480.0);
}

#[test]
fn format_selection_prefers_srgb() {
    let formats = vec![PixelFormat::Bgra8Unorm, PixelFormat::Rgba8UnormSrgb];
    assert_eq!(select_surface_format(&formats), PixelFormat::Rgba8UnormSrgb);
    let both_srgb = vec![PixelFormat::Rgba8UnormSrgb, PixelFormat::Bgra8UnormSrgb];
    assert_eq!(select_surface_format(&both_srgb), PixelFormat::Rgba8UnormSrgb);
}

#[test]
fn format_selection_falls_back_to_first() {
    let formats = vec![PixelFormat::Bgra8Unorm, PixelFormat::Rgba8Unorm];
    assert_eq!(select_surface_format(&formats), PixelFormat::Bgra8Unorm);
}

#[test]
fn pipeline_has_the_fixed_function_state() {
    let state = test_state(300, 300);
    let p = &state.render_pipeline;
    assert_eq!(p.vs_entry, "vs_main");
    assert_eq!(p.fs_entry, "fs_main");
    assert!(matches!(p.topology, PrimitiveTopology::TriangleList));
    assert!(matches!(p.front_face, FrontFace::Ccw));
    assert!(matches!(p.cull_mode, Some(CullFace::Back)));
    assert!(matches!(p.polygon_mode, PolygonMode::Fill));
    assert!(matches!(p.blend, BlendMode::Replace));
    assert!(!p.has_depth_stencil);
    assert_eq!(p.sample_count, 1);
    assert_eq!(p.sample_mask, !0u64);
    assert!(!p.alpha_to_coverage_enabled);
    assert_eq!(p.vertex_layout.array_stride, 20);
    assert_eq!(p.bind_group_layouts.len(), 2);
    assert!(matches!(p.color_format, PixelFormat::Bgra8UnormSrgb));
}

#[test]
fn render_script_is_the_fixed_sequence() {
    let state = test_state(300, 300);
    let script = state.render();
    assert_eq!(script.len(), 10);
    assert!(
        matches!(script[0], RenderCommand::BeginRenderPass { clear }
            if clear.r_milli == 0 && clear.g_milli == 500 && clear.b_milli == 500
                && clear.a_milli == 1000)
    );
    assert!(matches!(script[1], RenderCommand::SetPipeline));
    assert!(matches!(
        script[2],
        RenderCommand::SetBindGroup { slot: 0, set: BindingSet::DiffuseTexture }
    ));
    assert!(matches!(
        script[3],
        RenderCommand::SetBindGroup { slot: 1, set: BindingSet::CameraUniform }
    ));
    assert!(matches!(script[4], RenderCommand::SetVertexBuffer { slot: 0 }));
    assert!(matches!(
        script[5],
        RenderCommand::SetIndexBuffer { format: IndexFormat::Uint16 }
    ));
    assert!(matches!(
        script[6],
        RenderCommand::DrawIndexed {
            first_index: 0,
            index_count: 9,
            base_vertex: 0,
            first_instance: 0,
            instance_count: 1,
        }
    ));
    assert!(matches!(script[7], RenderCommand::EndRenderPass));
    assert!(matches!(script[8], RenderCommand::Submit));
    assert!(matches!(script[9], RenderCommand::Present));
}

#[test]
fn surface_errors_follow_the_recovery_policy() {
    assert!(matches!(
        classify_surface_error(SurfaceErrorKind::Lost),
        RenderDecision::ReconfigureAndRetry
    ));
    assert!(matches!(
        classify_surface_error(SurfaceErrorKind::Outdated),
        RenderDecision::ReconfigureAndRetry
    ));
    assert!(matches!(
        classify_surface_error(SurfaceErrorKind::OutOfMemory),
        RenderDecision::Fatal
    ));
    assert!(matches!(
        classify_surface_error(SurfaceErrorKind::Timeout),
        RenderDecision::SkipFrame
    ));
    assert!(matches!(
        classify_surface_error(SurfaceErrorKind::Other),
        RenderDecision::SkipFrame
    ));
}

#[test]
fn fresh_uniform_is_the_identity_matrix() {
    let uniform = CameraUniform::new();
    let identity: [[f32; 4]; 4] = cgmath::Matrix4::<f32>::identity().into();
    let mut expected: Vec<u32> = Vec::new();
    for column in identity.iter() {
        for v in column.iter() {
            expected.push(v.to_bits());
        }
    }
    assert_eq!(uniform.view_proj, expected);

    let floats: Vec<f32> = identity.iter().flatten().copied().collect();
    let raw: &[u8] = bytemuck::cast_slice(&floats);
    assert_eq!(uniform.to_bytes(), raw.to_vec());
}

// The clip-space correction the host applies on top of cgmath's
// OpenGL-style projection: it halves depth and recenters it into [0, 1].
fn depth_correction() -> cgmath::Matrix4<f32> {
    cgmath::Matrix4::new(
        1.0, 0.0, 0.0, 0.0, //
        0.0, 1.0, 0.0, 0.0, //
        0.0, 0.0, 0.5, 0.0, //
        0.0, 0.0, 0.5, 1.0, //
    )
}

#[test]
fn square_surface_camera_maps_target_into_the_depth_range() {
    // A 300 by 300 surface gives aspect exactly one; the view-projection
    // of the initial camera must put the target's depth inside [0, 1].
    let state = test_state(300, 300);
    assert_eq!(state.camera.aspect_width, state.camera.aspect_height);
    let aspect = state.camera.aspect_width as f32 / state.camera.aspect_height as f32;
    assert_eq!(aspect, 1.0);

    let eye = cgmath::Point3::new(
        state.camera.eye.x as f32 / 1000.0,
        state.camera.eye.y as f32 / 1000.0,
        state.camera.eye.z as f32 / 1000.0,
    );
    assert_eq!((eye.x, eye.y, eye.z), (0.0, 1.0, 2.0));
    let target = cgmath::Point3::new(0.0, 0.0, 0.0);
    let up = cgmath::Vector3::unit_y();
    let fovy = cgmath::Deg(state.camera.fovy_mdeg as f32 / 1000.0);
    let znear = state.camera.znear as f32 / 1000.0;
    let zfar = state.camera.zfar as f32 / 1000.0;
    assert_eq!(fovy.0, 45.0);
    assert_eq!(znear, 0.1);
    assert_eq!(zfar, 100.0);

    let view = cgmath::Matrix4::look_at_rh(eye, target, up);
    let proj = cgmath::perspective(fovy, aspect, znear, zfar);
    let view_proj = depth_correction() * proj * view;

    let clip = view_proj * cgmath::Vector4::new(0.0, 0.0, 0.0, 1.0);
    let depth = clip.z / clip.w;
    assert!((0.0..=1.0).contains(&depth), "depth {depth} out of range");

    // The correction is what keeps points near the near plane inside the
    // depth range: just past the near plane, the uncorrected projection
    // yields a negative depth, the corrected one does not.
    let dir = 1.0 / 5.0f32.sqrt();
    let near_point =
        cgmath::Vector4::new(eye.x, eye.y - 0.12 * dir, eye.z - 2.0 * 0.12 * dir, 1.0);
    let corrected = view_proj * near_point;
    assert!((0.0..=1.0).contains(&(corrected.z / corrected.w)));
    let uncorrected = proj * view * near_point;
    assert!(uncorrected.z / uncorrected.w < 0.0);
}

#[test]
fn pentagon_renders_three_sound_triangles() {
    // Five fixed corners, indices [0,1,4, 1,2,4, 2,3,4]: three
    // counter-clockwise triangles, none degenerate, covering the pentagon.
    let vertices = pentagon_vertices();
    let indices = pentagon_indices();
    assert_eq!(vertices.len(), 5);
    assert_eq!(indices, vec![0, 1, 4, 1, 2, 4, 2, 3, 4]);

    let corners: Vec<(f32, f32)> = vertices
        .iter()
        .map(|v| (f32::from_bits(v.position.x), f32::from_bits(v.position.y)))
        .collect();
    let mut covered = 0.0f32;
    for triangle in indices.chunks(3) {
        let a = corners[triangle[0] as usize];
        let b = corners[triangle[1] as usize];
        let c = corners[triangle[2] as usize];
        let doubled_area = (b.0 - a.0) * (c.1 - a.1) - (c.0 - a.0) * (b.1 - a.1);
        assert!(
            doubled_area > 1e-3,
            "triangle {triangle:?} is degenerate or clockwise"
        );
        covered += doubled_area / 2.0;
    }
    // The fan covers the whole convex pentagon: its shoelace area.
    let mut doubled_pentagon = 0.0f32;
    for i in 0..corners.len() {
        let (x0, y0) = corners[i];
        let (x1, y1) = corners[(i + 1) % corners.len()];
        doubled_pentagon += x0 * y1 - x1 * y0;
    }
    let pentagon_area = doubled_pentagon / 2.0;
    assert!((covered - pentagon_area).abs() < 1e-5);
}

#[test]
fn update_applies_the_controller_step_and_uniform_adoption() {
    let mut state = test_state(300, 300);
    let before = state.camera.eye;
    state.update();
    // No key held: the camera must not move.
    assert_eq!(state.camera.eye, before);

    // Adopt a matrix and read back the exact uniform bytes.
    let words: Vec<u32> = (0u32..16).map(|i| 0x3f00_0000 + i).collect();
    state.set_view_proj(&words);
    let bytes = state.uniform_bytes();
    let mut expected: Vec<u8> = Vec::new();
    for w in words.iter() {
        expected.extend_from_slice(&w.to_le_bytes());
    }
    assert_eq!(bytes, expected);
}
