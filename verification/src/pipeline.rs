//! The fixed pipeline that draws a textured quad, and the bind-group layout
//! through which it reads a sprite's texture.

use vstd::prelude::*;
use crate::geometry::{
    quad, quad_attributes, quad_vertices, tightly_packed, vertex_buffer_usage, vertex_layout,
    vertex_only, BufferUsage, StepMode, Vertex, VertexLayout, VERTEX_SIZE,
};

verus! {

/// The shader stage that may read a binding.
#[derive(Clone, Copy, Debug, PartialEq, Eq, Structural)]
pub enum ShaderStage {
    Vertex,
    Fragment,
    Compute,
}

/// What a slot of the bind-group layout accepts.
#[derive(Clone, Copy, Debug, PartialEq, Eq, Structural)]
pub enum BindingKind {
    /// A two-dimensional texture of floats, one sample per texel.
    Texture2d { filterable: bool },
    /// A sampler; `filtering` says whether it may interpolate.
    Sampler { filtering: bool },
}

/// One slot of the bind-group layout.
#[derive(Clone, Copy, Debug, PartialEq, Eq, Structural)]
pub struct LayoutEntry {
    pub binding: u32,
    pub visibility: ShaderStage,
    pub kind: BindingKind,
}

/// How vertices are assembled into primitives.
#[derive(Clone, Copy, Debug, PartialEq, Eq, Structural)]
pub enum Topology {
    PointList,
    LineList,
    LineStrip,
    TriangleList,
    TriangleStrip,
}

/// The winding of a front-facing triangle.
#[derive(Clone, Copy, Debug, PartialEq, Eq, Structural)]
pub enum FrontFace {
    Ccw,
    Cw,
}

/// A face of a triangle.
#[derive(Clone, Copy, Debug, PartialEq, Eq, Structural)]
pub enum Face {
    Front,
    Back,
}

/// How a fragment is combined with what the target holds.
#[derive(Clone, Copy, Debug, PartialEq, Eq, Structural)]
pub enum Blend {
    Replace,
    AlphaBlending,
    PremultipliedAlphaBlending,
}

/// The colour channels of the target that a fragment may write.
#[derive(Clone, Copy, Debug, PartialEq, Eq, Structural)]
pub struct ColorWrites {
    pub red: bool,
    pub green: bool,
    pub blue: bool,
    pub alpha: bool,
}

/// A range of push constants that a stage may read.
#[derive(Clone, Copy, Debug, PartialEq, Eq, Structural)]
pub struct PushConstantRange {
    pub stage: ShaderStage,
    pub start: u32,
    pub end: u32,
}

/// The encoding of a depth value.
#[derive(Clone, Copy, Debug, PartialEq, Eq, Structural)]
pub enum DepthFormat {
    Depth16Unorm,
    Depth24Plus,
    Depth24PlusStencil8,
    Depth32Float,
}

/// When a fragment passes the depth test.
#[derive(Clone, Copy, Debug, PartialEq, Eq, Structural)]
pub enum Compare {
    Never,
    Less,
    Equal,
    LessEqual,
    Greater,
    NotEqual,
    GreaterEqual,
    Always,
}

/// The depth test of a pipeline.
#[derive(Clone, Copy, Debug, PartialEq, Eq, Structural)]
pub struct DepthStencil {
    pub format: DepthFormat,
    pub depth_write_enabled: bool,
    pub depth_compare: Compare,
}

/// The state of the render pipeline, but for the vertex layout.
#[derive(Clone, Copy, Debug, PartialEq, Eq, Structural)]
pub struct PipelineState {
    /// The number of bind-group layouts in the pipeline layout, each of them
    /// the texture layout.
    pub bind_group_layouts: u32,
    /// The push constants of the pipeline layout, if it has any.
    pub push_constant_range: Option<PushConstantRange>,
    /// The format of the single colour target, as an index into the list of
    /// formats that the surface supports.
    pub target_format: usize,
    pub topology: Topology,
    pub front_face: FrontFace,
    pub cull_mode: Option<Face>,
    /// `None` where the target is overwritten.
    pub blend: Option<Blend>,
    pub write_mask: ColorWrites,
    pub depth_stencil: Option<DepthStencil>,
    pub sample_count: u32,
    /// The number of views, or `None` for a single view.
    pub multiview: Option<u32>,
}

/// All that the pipeline is built from.
#[derive(Clone, Debug)]
pub struct PipelineBundle {
    pub bind_group_layout: Vec<LayoutEntry>,
    /// The content of the vertex buffer.
    pub vertices: Vec<Vertex>,
    pub vertex_buffer_usage: BufferUsage,
    pub vertex_layout: VertexLayout,
    pub state: PipelineState,
}

/// Why the pipeline could not be built.
#[derive(Clone, Debug)]
pub enum BuildError {
    /// A shader did not compile; the backend's diagnostic is carried along.
    ShaderCompileError(String),
}

/// The layout that every sprite's bind group has to satisfy: slot 0 a
/// filterable texture, slot 1 a filtering sampler, both read by the fragment
/// stage.
pub open spec fn texture_layout() -> Seq<LayoutEntry> {
    seq![
        LayoutEntry {
            binding: 0,
            visibility: ShaderStage::Fragment,
            kind: BindingKind::Texture2d { filterable: true },
        },
        LayoutEntry {
            binding: 1,
            visibility: ShaderStage::Fragment,
            kind: BindingKind::Sampler { filtering: true },
        },
    ]
}

/// The state of the sprite pipeline for a surface of the given format: a
/// triangle strip with counter-clockwise front faces, back faces culled,
/// alpha blending into all channels of a target in the surface's format, no
/// depth or stencil test, one sample, one view, the texture layout as the
/// only bind-group layout, and no push constants.
pub open spec fn sprite_state(surface_format: usize) -> PipelineState {
    PipelineState {
        bind_group_layouts: 1,
        push_constant_range: None,
        target_format: surface_format,
        topology: Topology::TriangleStrip,
        front_face: FrontFace::Ccw,
        cull_mode: Some(Face::Back),
        blend: Some(Blend::AlphaBlending),
        write_mask: ColorWrites { red: true, green: true, blue: true, alpha: true },
        depth_stencil: None,
        sample_count: 1,
        multiview: None,
    }
}

impl PipelineBundle {
    /// Whether this is the sprite pipeline for a surface of the given
    /// format.
    pub open spec fn is_sprite_pipeline(self, surface_format: usize) -> bool {
        &&& self.bind_group_layout@ == texture_layout()
        &&& self.vertices@ == quad()
        &&& self.vertex_buffer_usage == vertex_only()
        &&& self.vertex_layout.array_stride == VERTEX_SIZE
        &&& self.vertex_layout.step_mode == StepMode::Vertex
        &&& self.vertex_layout.attributes@ == quad_attributes()
        &&& self.state == sprite_state(surface_format)
    }
}

/// The bind-group layout of the sprite pipeline.
pub fn texture_bind_group_layout() -> (r: Vec<LayoutEntry>)
    ensures
        r@ == texture_layout(),
{
    let r = vec![
        LayoutEntry {
            binding: 0,
            visibility: ShaderStage::Fragment,
            kind: BindingKind::Texture2d { filterable: true },
        },
        LayoutEntry {
            binding: 1,
            visibility: ShaderStage::Fragment,
            kind: BindingKind::Sampler { filtering: true },
        },
    ];
    assert(r@ =~= texture_layout());
    r
}

/// The state of the sprite pipeline for a surface of the given format.
pub fn pipeline_state(surface_format: usize) -> (r: PipelineState)
    ensures
        r == sprite_state(surface_format),
{
    PipelineState {
        bind_group_layouts: 1,
        push_constant_range: None,
        target_format: surface_format,
        topology: Topology::TriangleStrip,
        front_face: FrontFace::Ccw,
        cull_mode: Some(Face::Back),
        blend: Some(Blend::AlphaBlending),
        write_mask: ColorWrites { red: true, green: true, blue: true, alpha: true },
        depth_stencil: None,
        sample_count: 1,
        multiview: None,
    }
}

/// Decides the outcome of building the pipeline for a surface of the given
/// format from what the shader compiler said: with a diagnostic there is no
/// pipeline, and the diagnostic is handed on; without one there is the
/// sprite pipeline.
pub fn build_pipeline(surface_format: usize, diagnostic: Option<String>) -> (r: Result<
    PipelineBundle,
    BuildError,
>)
    ensures
        diagnostic is None ==> r is Ok && r->Ok_0.is_sprite_pipeline(surface_format),
        diagnostic is Some ==> r == Err::<PipelineBundle, BuildError>(
            BuildError::ShaderCompileError(diagnostic->Some_0),
        ),
        r is Ok ==> tightly_packed(
            r->Ok_0.vertex_layout.array_stride,
            r->Ok_0.vertex_layout.attributes@,
        ),
{
    match diagnostic {
        Some(message) => Err(BuildError::ShaderCompileError(message)),
        None => Ok(
            PipelineBundle {
                bind_group_layout: texture_bind_group_layout(),
                vertices: quad_vertices(),
                vertex_buffer_usage: vertex_buffer_usage(),
                vertex_layout: vertex_layout(),
                state: pipeline_state(surface_format),
            },
        ),
    }
}

} // verus!
