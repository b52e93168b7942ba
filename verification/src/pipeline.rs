//! Render pipeline descriptions: everything a pipeline is compiled from,
//! as plain values, with the fixed primitive state every pipeline of this
//! renderer shares.

use vstd::prelude::*;
use crate::layout::VertexLayout;
use crate::surface::PixelFormat;

verus! {

broadcast use vstd::string::to_string_from_display_ensures_for_str;

/// How vertices are assembled into primitives.
#[derive(Clone, Copy, PartialEq, Eq, Structural, Debug)]
pub enum PrimitiveTopology {
    PointList,
    LineList,
    LineStrip,
    TriangleList,
    TriangleStrip,
}

/// Which winding order faces the viewer.
#[derive(Clone, Copy, PartialEq, Eq, Structural, Debug)]
pub enum FrontFace {
    Ccw,
    Cw,
}

/// Which faces are culled.
#[derive(Clone, Copy, PartialEq, Eq, Structural, Debug)]
pub enum CullFace {
    Front,
    Back,
}

/// How primitives are rasterized.
#[derive(Clone, Copy, PartialEq, Eq, Structural, Debug)]
pub enum PolygonMode {
    Fill,
    Line,
    Point,
}

/// How fragment output is combined with the color target.  Opaque
/// replacement is the renderer's default; anything else is a configuration
/// point handed in by the caller, never hardcoded per pipeline.
#[derive(Clone, Copy, PartialEq, Eq, Structural, Debug)]
pub enum BlendMode {
    Replace,
    AlphaBlending,
}

/// The width of indices in an index buffer.
#[derive(Clone, Copy, PartialEq, Eq, Structural, Debug)]
pub enum IndexFormat {
    Uint16,
    Uint32,
}

/// Which shader stage sees a binding.
#[derive(Clone, Copy, PartialEq, Eq, Structural, Debug)]
pub enum ShaderStage {
    Vertex,
    Fragment,
}

/// What a bind-group slot holds.
#[derive(Clone, Copy, PartialEq, Eq, Structural, Debug)]
pub enum BindingType {
    Texture2D { multisampled: bool, filterable: bool },
    Sampler { filtering: bool },
    UniformBuffer,
}

/// One slot of a bind-group layout.
#[derive(Clone, Copy, PartialEq, Eq, Structural, Debug)]
pub struct BindGroupLayoutEntry {
    pub binding: u32,
    pub visibility: ShaderStage,
    pub ty: BindingType,
}

/// A fixed association of binding slots consumed by a shader stage.
#[derive(Clone, Debug)]
pub struct BindGroupLayoutDesc {
    pub entries: Vec<BindGroupLayoutEntry>,
}

/// The texture bind group's slots: a filterable 2D texture at slot zero
/// and its filtering sampler at slot one, both visible to the fragment
/// stage.
pub open spec fn spec_texture_layout_entries() -> Seq<BindGroupLayoutEntry> {
    seq![
        (BindGroupLayoutEntry {
            binding: 0,
            visibility: ShaderStage::Fragment,
            ty: (BindingType::Texture2D { multisampled: false, filterable: true }),
        }),
        (BindGroupLayoutEntry {
            binding: 1,
            visibility: ShaderStage::Fragment,
            ty: (BindingType::Sampler { filtering: true }),
        }),
    ]
}

/// The camera bind group's one slot: a uniform buffer at slot zero,
/// visible to the vertex stage.
pub open spec fn spec_camera_layout_entries() -> Seq<BindGroupLayoutEntry> {
    seq![
        (BindGroupLayoutEntry {
            binding: 0,
            visibility: ShaderStage::Vertex,
            ty: BindingType::UniformBuffer,
        }),
    ]
}

/// The texture bind group: exactly the slots of
/// `spec_texture_layout_entries`.
pub fn texture_bind_group_layout() -> (r: BindGroupLayoutDesc)
    ensures
        r.entries@ == spec_texture_layout_entries(),
{
    let mut entries: Vec<BindGroupLayoutEntry> = Vec::new();
    entries.push(BindGroupLayoutEntry {
        binding: 0,
        visibility: ShaderStage::Fragment,
        ty: BindingType::Texture2D { multisampled: false, filterable: true },
    });
    entries.push(BindGroupLayoutEntry {
        binding: 1,
        visibility: ShaderStage::Fragment,
        ty: BindingType::Sampler { filtering: true },
    });
    proof {
        assert(entries@ =~= spec_texture_layout_entries());
    }
    BindGroupLayoutDesc { entries }
}

/// The camera bind group: exactly the slot of
/// `spec_camera_layout_entries`.
pub fn camera_bind_group_layout() -> (r: BindGroupLayoutDesc)
    ensures
        r.entries@ == spec_camera_layout_entries(),
{
    let mut entries: Vec<BindGroupLayoutEntry> = Vec::new();
    entries.push(BindGroupLayoutEntry {
        binding: 0,
        visibility: ShaderStage::Vertex,
        ty: BindingType::UniformBuffer,
    });
    proof {
        assert(entries@ =~= spec_camera_layout_entries());
    }
    BindGroupLayoutDesc { entries }
}

/// Everything an immutable pipeline object is compiled from.
pub struct PipelineDesc {
    pub vs_entry: String,
    pub fs_entry: String,
    pub vertex_layout: VertexLayout,
    pub bind_group_layouts: Vec<BindGroupLayoutDesc>,
    pub color_format: PixelFormat,
    pub blend: BlendMode,
    pub topology: PrimitiveTopology,
    pub front_face: FrontFace,
    pub cull_mode: Option<CullFace>,
    pub polygon_mode: PolygonMode,
    pub unclipped_depth: bool,
    pub conservative: bool,
    pub has_depth_stencil: bool,
    pub sample_count: u32,
    pub sample_mask: u64,
    pub alpha_to_coverage_enabled: bool,
}

impl PipelineDesc {
    /// The fixed primitive state every pipeline of this renderer uses:
    /// triangle-list topology, counter-clockwise front faces, back-face
    /// culling, filled polygons, no depth or stencil attachment, a single
    /// sample with every sample bit active, and the `vs_main` / `fs_main`
    /// entry-point convention.
    pub open spec fn fixed_function_state(self) -> bool {
        &&& self.vs_entry@ == "vs_main"@
        &&& self.fs_entry@ == "fs_main"@
        &&& self.topology == PrimitiveTopology::TriangleList
        &&& self.front_face == FrontFace::Ccw
        &&& self.cull_mode == Some(CullFace::Back)
        &&& self.polygon_mode == PolygonMode::Fill
        &&& !self.unclipped_depth
        &&& !self.conservative
        &&& !self.has_depth_stencil
        &&& self.sample_count == 1
        &&& self.sample_mask == 0xFFFF_FFFF_FFFF_FFFFu64
        &&& !self.alpha_to_coverage_enabled
    }

    /// Describe one pipeline.  Deterministic: the result is a function of
    /// the four arguments, with every remaining field pinned to the fixed
    /// state above.
    pub fn build(
        vertex_layout: VertexLayout,
        bind_group_layouts: Vec<BindGroupLayoutDesc>,
        color_format: PixelFormat,
        blend: BlendMode,
    ) -> (r: PipelineDesc)
        requires
            vertex_layout.wf(),
        ensures
            r.fixed_function_state(),
            r.vertex_layout == vertex_layout,
            r.bind_group_layouts == bind_group_layouts,
            r.color_format == color_format,
            r.blend == blend,
    {
        let vs_entry = "vs_main".to_string();
        let fs_entry = "fs_main".to_string();
        PipelineDesc {
            vs_entry,
            fs_entry,
            vertex_layout,
            bind_group_layouts,
            color_format,
            blend,
            topology: PrimitiveTopology::TriangleList,
            front_face: FrontFace::Ccw,
            cull_mode: Some(CullFace::Back),
            polygon_mode: PolygonMode::Fill,
            unclipped_depth: false,
            conservative: false,
            has_depth_stencil: false,
            sample_count: 1,
            sample_mask: 0xFFFF_FFFF_FFFF_FFFF,
            alpha_to_coverage_enabled: false,
        }
    }
}

} // verus!
