//! The frame orchestrator: the one object the host window loop drives.
//!
//! It owns the surface configuration, the camera with its controller and
//! uniform mirror, the fixed pentagon geometry, and the pipeline
//! description.  Each externally driven transition — resize, input, update
//! — is a plain function of the state; `render` emits the exact command
//! sequence one frame records, which the host replays against the GPU, and
//! that sequence is proved to respect the recording order the GPU API
//! demands: one render pass, closed before submission, submitted before
//! presentation.

use vstd::prelude::*;
use crate::Extent;
use crate::camera::Camera;
use crate::camera::Vec3I;
use crate::camera_controller::CameraController;
use crate::camera_controller::InputEvent;
use crate::camera_controller::spec_process;
use crate::camera_uniform::CameraUniform;
use crate::layout::le_words;
use crate::layout::VertexStepMode;
use crate::pipeline::BlendMode;
use crate::pipeline::IndexFormat;
use crate::pipeline::PipelineDesc;
use crate::pipeline::camera_bind_group_layout;
use crate::pipeline::spec_camera_layout_entries;
use crate::pipeline::spec_texture_layout_entries;
use crate::pipeline::texture_bind_group_layout;
use crate::polygon_buffer::PolygonBuffer;
use crate::surface::AlphaMode;
use crate::surface::PixelFormat;
use crate::surface::PresentMode;
use crate::surface::SurfaceConfig;
use crate::surface::TextureUsage;
use crate::surface::select_surface_format;
use crate::surface::has_srgb;
use crate::textured_vertex::TexturedVertex;
use crate::textured_vertex::pentagon_indices;
use crate::textured_vertex::pentagon_vertices;
use crate::textured_vertex::spec_pentagon_indices;
use crate::textured_vertex::spec_pentagon_vertices;
use crate::vertex_types::Vertex;

verus! {

/// The fixed background color, in thousandths of full intensity.
#[derive(Clone, Copy, PartialEq, Eq, Structural, Debug)]
pub struct ClearColor {
    pub r_milli: u16,
    pub g_milli: u16,
    pub b_milli: u16,
    pub a_milli: u16,
}

/// The two resource sets a frame binds.
#[derive(Clone, Copy, PartialEq, Eq, Structural, Debug)]
pub enum BindingSet {
    DiffuseTexture,
    CameraUniform,
}

/// One step of a frame recording, as the host replays it against the GPU.
#[derive(Clone, Copy, PartialEq, Eq, Structural, Debug)]
pub enum RenderCommand {
    BeginRenderPass { clear: ClearColor },
    SetPipeline,
    SetBindGroup { slot: u32, set: BindingSet },
    SetVertexBuffer { slot: u32 },
    SetIndexBuffer { format: IndexFormat },
    DrawIndexed {
        first_index: u32,
        index_count: u32,
        base_vertex: i32,
        first_instance: u32,
        instance_count: u32,
    },
    EndRenderPass,
    Submit,
    Present,
}

/// Where a frame recording stands.
#[derive(Clone, Copy, PartialEq, Eq, Structural, Debug)]
pub enum FramePhase {
    Idle,
    InPass,
    Recorded,
    Submitted,
    Presented,
}

/// The recording automaton: which commands are legal in which phase.
/// Binding and drawing happen only inside an open render pass; the pass
/// must close before the recording is finalized and submitted; the frame
/// is presented only after submission.
pub open spec fn phase_step(p: FramePhase, c: RenderCommand) -> Option<FramePhase> {
    match (p, c) {
        (FramePhase::Idle, RenderCommand::BeginRenderPass { .. }) => Some(FramePhase::InPass),
        (FramePhase::InPass, RenderCommand::SetPipeline) => Some(FramePhase::InPass),
        (FramePhase::InPass, RenderCommand::SetBindGroup { .. }) => Some(FramePhase::InPass),
        (FramePhase::InPass, RenderCommand::SetVertexBuffer { .. }) => Some(FramePhase::InPass),
        (FramePhase::InPass, RenderCommand::SetIndexBuffer { .. }) => Some(FramePhase::InPass),
        (FramePhase::InPass, RenderCommand::DrawIndexed { .. }) => Some(FramePhase::InPass),
        (FramePhase::InPass, RenderCommand::EndRenderPass) => Some(FramePhase::Recorded),
        (FramePhase::Recorded, RenderCommand::Submit) => Some(FramePhase::Submitted),
        (FramePhase::Submitted, RenderCommand::Present) => Some(FramePhase::Presented),
        _ => None,
    }
}

pub open spec fn run_script(p: FramePhase, s: Seq<RenderCommand>) -> Option<FramePhase>
    decreases s.len(),
{
    if s.len() == 0 {
        Some(p)
    } else {
        match phase_step(p, s[0]) {
            Some(q) => run_script(q, s.skip(1)),
            None => None,
        }
    }
}

/// A legal frame recording: starting idle, the automaton accepts every
/// command and ends with the frame presented.
pub open spec fn script_well_formed(s: Seq<RenderCommand>) -> bool {
    run_script(FramePhase::Idle, s) == Some(FramePhase::Presented)
}

/// Why a frame acquisition failed.
#[derive(Clone, Copy, PartialEq, Eq, Structural, Debug)]
pub enum SurfaceErrorKind {
    Timeout,
    Outdated,
    Lost,
    OutOfMemory,
    Other,
}

/// What the frame loop does about a failed acquisition.
#[derive(Clone, Copy, PartialEq, Eq, Structural, Debug)]
pub enum RenderDecision {
    SkipFrame,
    ReconfigureAndRetry,
    Fatal,
}

/// The recovery policy: a lost or outdated surface is reconfigured and the
/// same frame retried; running out of memory is fatal; a timeout or other
/// transient failure abandons the frame and moves on.
pub open spec fn spec_classify(e: SurfaceErrorKind) -> RenderDecision {
    match e {
        SurfaceErrorKind::Timeout => RenderDecision::SkipFrame,
        SurfaceErrorKind::Outdated => RenderDecision::ReconfigureAndRetry,
        SurfaceErrorKind::Lost => RenderDecision::ReconfigureAndRetry,
        SurfaceErrorKind::OutOfMemory => RenderDecision::Fatal,
        SurfaceErrorKind::Other => RenderDecision::SkipFrame,
    }
}

pub fn classify_surface_error(e: SurfaceErrorKind) -> (r: RenderDecision)
    ensures
        r == spec_classify(e),
{
    match e {
        SurfaceErrorKind::Timeout => RenderDecision::SkipFrame,
        SurfaceErrorKind::Outdated => RenderDecision::ReconfigureAndRetry,
        SurfaceErrorKind::Lost => RenderDecision::ReconfigureAndRetry,
        SurfaceErrorKind::OutOfMemory => RenderDecision::Fatal,
        SurfaceErrorKind::Other => RenderDecision::SkipFrame,
    }
}

/// Which geometry and resource set the renderer is built around, chosen
/// at construction.  Each variant holds only the resources it needs: the
/// solid variant draws colored vertices and binds no texture.
#[derive(Clone, Copy, PartialEq, Eq, Structural, Debug)]
pub enum RenderVariant {
    Solid,
    Textured,
}

/// The frame orchestrator's state.
pub struct State {
    pub variant: RenderVariant,
    pub config: SurfaceConfig,
    pub size: Extent,
    pub clear_color: ClearColor,
    pub render_pipeline: PipelineDesc,
    pub polygon_buffer: PolygonBuffer,
    pub camera: Camera,
    pub camera_uniform: CameraUniform,
    pub camera_controller: CameraController,
}

/// The resource sets one frame binds, in slot order: the textured variant
/// binds its texture at slot zero and the camera at slot one; the solid
/// variant binds only the camera, at slot zero.
pub open spec fn spec_bind_commands(s: State) -> Seq<RenderCommand> {
    match s.variant {
        RenderVariant::Solid => seq![
            (RenderCommand::SetBindGroup { slot: 0, set: BindingSet::CameraUniform }),
        ],
        RenderVariant::Textured => seq![
            (RenderCommand::SetBindGroup { slot: 0, set: BindingSet::DiffuseTexture }),
            (RenderCommand::SetBindGroup { slot: 1, set: BindingSet::CameraUniform }),
        ],
    }
}

/// The exact command sequence one frame of this renderer records: clear to
/// the background color, bind the pipeline and the variant's resource
/// sets, bind the geometry, draw the whole index range once, close the
/// pass, submit, present.
pub open spec fn spec_render_script(s: State) -> Seq<RenderCommand> {
    seq![
        (RenderCommand::BeginRenderPass { clear: s.clear_color }),
        RenderCommand::SetPipeline,
    ] + spec_bind_commands(s) + seq![
        (RenderCommand::SetVertexBuffer { slot: 0 }),
        (RenderCommand::SetIndexBuffer { format: IndexFormat::Uint16 }),
        (RenderCommand::DrawIndexed {
            first_index: 0,
            index_count: s.polygon_buffer.num_indices,
            base_vertex: 0,
            first_instance: 0,
            instance_count: 1,
        }),
        RenderCommand::EndRenderPass,
        RenderCommand::Submit,
        RenderCommand::Present,
    ]
}

impl State {
    /// What every transition keeps true: the camera's aspect ratio is
    /// exactly the surface's dimensions, the recorded size matches the
    /// configuration, the configuration stays drawable, and the uniform
    /// mirror stays a full matrix.
    pub open spec fn wf(self) -> bool {
        &&& self.camera.aspect_width == self.config.width
        &&& self.camera.aspect_height == self.config.height
        &&& self.size.width == self.config.width
        &&& self.size.height == self.config.height
        &&& self.config.drawable()
        &&& self.camera_uniform.wf()
        &&& self.camera_controller.wf()
    }

    /// Assemble the renderer for one window: choose the surface format,
    /// configure the surface, place the camera, and upload the pentagon.
    /// The uniform mirror is born holding the identity words; the host
    /// adopts the camera's view-projection through `set_view_proj` before
    /// the first draw, once it has computed the float matrix.
    pub fn new(
        variant: RenderVariant,
        size: Extent,
        formats: &Vec<PixelFormat>,
        present_modes: &Vec<PresentMode>,
        alpha_modes: &Vec<AlphaMode>,
    ) -> (r: State)
        requires
            size.is_drawable(),
            formats@.len() > 0,
            present_modes@.len() > 0,
            alpha_modes@.len() > 0,
        ensures
            r.wf(),
            r.variant == variant,
            r.size == size,
            r.config == (SurfaceConfig {
                usage: TextureUsage::RenderAttachment,
                format: r.config.format,
                width: size.width,
                height: size.height,
                present_mode: present_modes@[0],
                alpha_mode: alpha_modes@[0],
                desired_maximum_frame_latency: 2,
            }),
            has_srgb(formats@) ==> exists|i: int|
                {
                    &&& 0 <= i < formats@.len()
                    &&& r.config.format == formats@[i]
                    &&& (#[trigger] formats@[i]).spec_is_srgb()
                    &&& forall|j: int| 0 <= j < i ==> !(#[trigger] formats@[j]).spec_is_srgb()
                },
            !has_srgb(formats@) ==> r.config.format == formats@[0],
            r.camera.eye == (Vec3I { x: 0, y: 1000, z: 2000 }),
            r.camera.target == (Vec3I { x: 0, y: 0, z: 0 }),
            r.camera.up == (Vec3I { x: 0, y: 1000, z: 0 }),
            r.camera.fovy_mdeg == 45000,
            r.camera.znear == 100,
            r.camera.zfar == 100000,
            r.camera_controller == (CameraController {
                speed: 200,
                is_forward_pressed: false,
                is_backward_pressed: false,
                is_left_pressed: false,
                is_right_pressed: false,
                is_up_pressed: false,
                is_down_pressed: false,
            }),
            r.camera_uniform.view_proj@ == CameraUniform::spec_identity(),
            variant == RenderVariant::Textured ==> r.polygon_buffer.describes(
                spec_pentagon_vertices(),
                spec_pentagon_indices(),
            ),
            variant == RenderVariant::Solid ==> r.polygon_buffer.describes(
                crate::vertex::spec_pentagon_vertices(),
                spec_pentagon_indices(),
            ),
            r.polygon_buffer.num_vertices == 5,
            r.polygon_buffer.num_indices == 9,
            r.render_pipeline.fixed_function_state(),
            r.render_pipeline.color_format == r.config.format,
            r.render_pipeline.blend == BlendMode::Replace,
            r.render_pipeline.vertex_layout.wf(),
            r.render_pipeline.vertex_layout.step_mode == VertexStepMode::Vertex,
            variant == RenderVariant::Textured ==> {
                &&& r.render_pipeline.vertex_layout.array_stride == 20
                &&& r.render_pipeline.vertex_layout.attributes@
                    == TexturedVertex::spec_attributes()
                &&& r.render_pipeline.bind_group_layouts@.len() == 2
                &&& r.render_pipeline.bind_group_layouts@[0].entries@
                    == spec_texture_layout_entries()
                &&& r.render_pipeline.bind_group_layouts@[1].entries@
                    == spec_camera_layout_entries()
            },
            variant == RenderVariant::Solid ==> {
                &&& r.render_pipeline.vertex_layout.array_stride == 24
                &&& r.render_pipeline.vertex_layout.attributes@
                    == crate::vertex::Vertex::spec_attributes()
                &&& r.render_pipeline.bind_group_layouts@.len() == 1
                &&& r.render_pipeline.bind_group_layouts@[0].entries@
                    == spec_camera_layout_entries()
            },
            r.clear_color == (ClearColor { r_milli: 0, g_milli: 500, b_milli: 500, a_milli: 1000 }),
    {
        let format = select_surface_format(formats);
        let config = SurfaceConfig::new(
            format,
            size.width,
            size.height,
            present_modes[0],
            alpha_modes[0],
        );
        let camera = Camera {
            eye: Vec3I { x: 0, y: 1000, z: 2000 },
            target: Vec3I { x: 0, y: 0, z: 0 },
            up: Vec3I { x: 0, y: 1000, z: 0 },
            aspect_width: size.width,
            aspect_height: size.height,
            fovy_mdeg: 45000,
            znear: 100,
            zfar: 100000,
        };
        let camera_uniform = CameraUniform::new();
        let camera_controller = CameraController::new(200);
        let indices = pentagon_indices();
        let mut bind_group_layouts: Vec<crate::pipeline::BindGroupLayoutDesc> = Vec::new();
        let polygon_buffer: PolygonBuffer;
        let vertex_layout: crate::layout::VertexLayout;
        match variant {
            RenderVariant::Solid => {
                let vertices = crate::vertex::pentagon_vertices();
                polygon_buffer = PolygonBuffer::new(&vertices, &indices);
                vertex_layout = crate::vertex::Vertex::desc();
                bind_group_layouts.push(camera_bind_group_layout());
            },
            RenderVariant::Textured => {
                let vertices = pentagon_vertices();
                polygon_buffer = PolygonBuffer::new(&vertices, &indices);
                vertex_layout = TexturedVertex::desc();
                bind_group_layouts.push(texture_bind_group_layout());
                bind_group_layouts.push(camera_bind_group_layout());
            },
        }
        let render_pipeline = PipelineDesc::build(
            vertex_layout,
            bind_group_layouts,
            format,
            BlendMode::Replace,
        );
        State {
            variant,
            config,
            size,
            clear_color: ClearColor { r_milli: 0, g_milli: 500, b_milli: 500, a_milli: 1000 },
            render_pipeline,
            polygon_buffer,
            camera,
            camera_uniform,
            camera_controller,
        }
    }

    /// Take a resize event.  A zero-area size — a minimized window — is
    /// ignored entirely; otherwise the configuration and the camera's
    /// aspect ratio follow the new size, and the caller must reconfigure
    /// the surface before acquiring the next frame, which the result says.
    pub fn resize(&mut self, new_size: Extent) -> (reconfigure: bool)
        requires
            old(self).wf(),
        ensures
            final(self).wf(),
            reconfigure == new_size.is_drawable(),
            !reconfigure ==> *final(self) == *old(self),
            reconfigure ==> *final(self) == (State {
                size: new_size,
                config: (SurfaceConfig {
                    width: new_size.width,
                    height: new_size.height,
                    ..old(self).config
                }),
                camera: (Camera {
                    aspect_width: new_size.width,
                    aspect_height: new_size.height,
                    ..old(self).camera
                }),
                ..*old(self)
            }),
    {
        if new_size.drawable() {
            self.size = new_size;
            self.config.width = new_size.width;
            self.config.height = new_size.height;
            self.camera.aspect_width = new_size.width;
            self.camera.aspect_height = new_size.height;
            true
        } else {
            false
        }
    }

    /// Hand one window event to the camera controller.  Returns whether
    /// the event was consumed.  Nothing but the controller's flags can
    /// change, and an unrecognized event changes nothing at all.
    pub fn input(&mut self, event: &InputEvent) -> (consumed: bool)
        ensures
            *final(self) == (State {
                camera_controller: spec_process(old(self).camera_controller, *event),
                ..*old(self)
            }),
            consumed == (*event is Keyboard),
            old(self).wf() ==> final(self).wf(),
    {
        self.camera_controller.process_events(event)
    }

    /// Advance the camera by one frame step.  The host then rebuilds the
    /// view-projection matrix from the camera and hands it to
    /// `set_view_proj` before the next draw.
    pub fn update(&mut self)
        requires
            old(self).wf(),
            old(self).camera.in_bounds(),
        ensures
            final(self).wf(),
            *final(self) == (State {
                camera: (Camera { eye: final(self).camera.eye, ..old(self).camera }),
                ..*old(self)
            }),
            final(self).camera.eye.s() == old(self).camera_controller.spec_updated_eye(
                old(self).camera,
            ),
    {
        let controller = self.camera_controller;
        controller.update_camera(&mut self.camera);
    }

    /// Adopt the freshly computed view-projection matrix.  Nothing but
    /// the uniform mirror changes.
    pub fn set_view_proj(&mut self, words: &Vec<u32>)
        requires
            words@.len() == 16,
        ensures
            *final(self) == (State {
                camera_uniform: final(self).camera_uniform,
                ..*old(self)
            }),
            final(self).camera_uniform.view_proj@ == words@,
            old(self).wf() ==> final(self).wf(),
    {
        self.camera_uniform.update_view_proj(words);
    }

    /// The bytes the per-frame queue write copies into the camera's
    /// uniform buffer.
    pub fn uniform_bytes(&self) -> (r: Vec<u8>)
        ensures
            r@ == le_words(self.camera_uniform.view_proj@),
    {
        self.camera_uniform.to_bytes()
    }

    /// Record one frame: the exact command sequence the host replays.  The
    /// sequence is well formed: the render pass closes before the
    /// recording is submitted, and the frame is presented only after
    /// submission.
    pub fn render(&self) -> (r: Vec<RenderCommand>)
        ensures
            r@ == spec_render_script(*self),
            script_well_formed(r@),
    {
        let mut r: Vec<RenderCommand> = Vec::new();
        r.push(RenderCommand::BeginRenderPass { clear: self.clear_color });
        r.push(RenderCommand::SetPipeline);
        match self.variant {
            RenderVariant::Solid => {
                r.push(RenderCommand::SetBindGroup { slot: 0, set: BindingSet::CameraUniform });
            },
            RenderVariant::Textured => {
                r.push(RenderCommand::SetBindGroup { slot: 0, set: BindingSet::DiffuseTexture });
                r.push(RenderCommand::SetBindGroup { slot: 1, set: BindingSet::CameraUniform });
            },
        }
        r.push(RenderCommand::SetVertexBuffer { slot: 0 });
        r.push(RenderCommand::SetIndexBuffer { format: IndexFormat::Uint16 });
        r.push(RenderCommand::DrawIndexed {
            first_index: 0,
            index_count: self.polygon_buffer.num_indices,
            base_vertex: 0,
            first_instance: 0,
            instance_count: 1,
        });
        r.push(RenderCommand::EndRenderPass);
        r.push(RenderCommand::Submit);
        r.push(RenderCommand::Present);
        proof {
            assert(r@ =~= spec_render_script(*self));
            lemma_render_script_well_formed(*self);
        }
        r
    }
}

/// Running the automaton over concatenated commands runs it over each part
/// in turn.
pub proof fn lemma_run_script_concat(p: FramePhase, a: Seq<RenderCommand>, b: Seq<RenderCommand>)
    ensures
        run_script(p, a + b) == (match run_script(p, a) {
            Some(q) => run_script(q, b),
            None => None::<FramePhase>,
        }),
    decreases a.len(),
{
    if a.len() == 0 {
        assert(a + b =~= b);
    } else {
        assert((a + b)[0] == a[0]);
        assert((a + b).skip(1) =~= a.skip(1) + b);
        match phase_step(p, a[0]) {
            Some(q) => {
                lemma_run_script_concat(q, a.skip(1), b);
            },
            None => {
            },
        }
    }
}

/// The frame script respects the recording order the GPU API demands,
/// whichever variant the renderer was built around.
pub proof fn lemma_render_script_well_formed(s: State)
    ensures
        script_well_formed(spec_render_script(s)),
{
    let pre = seq![
        (RenderCommand::BeginRenderPass { clear: s.clear_color }),
        RenderCommand::SetPipeline,
    ];
    let binds = spec_bind_commands(s);
    let suf = seq![
        (RenderCommand::SetVertexBuffer { slot: 0 }),
        (RenderCommand::SetIndexBuffer { format: IndexFormat::Uint16 }),
        (RenderCommand::DrawIndexed {
            first_index: 0,
            index_count: s.polygon_buffer.num_indices,
            base_vertex: 0,
            first_instance: 0,
            instance_count: 1,
        }),
        RenderCommand::EndRenderPass,
        RenderCommand::Submit,
        RenderCommand::Present,
    ];
    assert(run_script(FramePhase::Idle, pre) == Some(FramePhase::InPass)) by {
        assert(run_script(FramePhase::Idle, pre) == run_script(FramePhase::InPass, pre.skip(1)));
        assert(pre.skip(1).skip(1) =~= pre.skip(2));
        assert(run_script(FramePhase::InPass, pre.skip(1)) == run_script(
            FramePhase::InPass,
            pre.skip(2),
        ));
        assert(pre.skip(2).len() == 0);
    }
    assert(run_script(FramePhase::InPass, binds) == Some(FramePhase::InPass)) by {
        match s.variant {
            RenderVariant::Solid => {
                assert(run_script(FramePhase::InPass, binds) == run_script(
                    FramePhase::InPass,
                    binds.skip(1),
                ));
                assert(binds.skip(1).len() == 0);
            },
            RenderVariant::Textured => {
                assert(run_script(FramePhase::InPass, binds) == run_script(
                    FramePhase::InPass,
                    binds.skip(1),
                ));
                assert(binds.skip(1).skip(1) =~= binds.skip(2));
                assert(run_script(FramePhase::InPass, binds.skip(1)) == run_script(
                    FramePhase::InPass,
                    binds.skip(2),
                ));
                assert(binds.skip(2).len() == 0);
            },
        }
    }
    assert(run_script(FramePhase::InPass, suf) == Some(FramePhase::Presented)) by {
        assert(run_script(FramePhase::InPass, suf) == run_script(FramePhase::InPass, suf.skip(1)));
        assert(suf.skip(1).skip(1) =~= suf.skip(2));
        assert(run_script(FramePhase::InPass, suf.skip(1)) == run_script(
            FramePhase::InPass,
            suf.skip(2),
        ));
        assert(suf.skip(2).skip(1) =~= suf.skip(3));
        assert(run_script(FramePhase::InPass, suf.skip(2)) == run_script(
            FramePhase::InPass,
            suf.skip(3),
        ));
        assert(suf.skip(3).skip(1) =~= suf.skip(4));
        assert(run_script(FramePhase::InPass, suf.skip(3)) == run_script(
            FramePhase::Recorded,
            suf.skip(4),
        ));
        assert(suf.skip(4).skip(1) =~= suf.skip(5));
        assert(run_script(FramePhase::Recorded, suf.skip(4)) == run_script(
            FramePhase::Submitted,
            suf.skip(5),
        ));
        assert(suf.skip(5).skip(1) =~= suf.skip(6));
        assert(suf.skip(6).len() == 0);
        assert(run_script(FramePhase::Submitted, suf.skip(5)) == run_script(
            FramePhase::Presented,
            suf.skip(6),
        ));
    }
    lemma_run_script_concat(FramePhase::Idle, pre, binds);
    lemma_run_script_concat(FramePhase::Idle, pre + binds, suf);
    assert(spec_render_script(s) == pre + binds + suf);
}

} // verus!
