//! The pipeline set: three render pipelines that share their fixed-function
//! state and differ in shader program, bind group layouts and vertex
//! buffers.

use crate::vertex::{vertex_layout, Vertex, VertexBufferLayout, VertexBufferLayoutView};
use vstd::prelude::*;
use vstd::slice::slice_to_vec;

verus! {

/// The shader programs of the engine.
#[derive(Copy, Clone, Debug, PartialEq, Eq, Structural)]
pub enum ShaderModule {
    /// Draws the textured geometry.
    Shader,
    /// Makes its own three vertices and takes no inputs.
    Challenge,
    /// The program of the fourth variant.
    Challenge4,
}

/// The two families of bind group layouts.
#[derive(Copy, Clone, Debug, PartialEq, Eq, Structural)]
pub enum BindGroupLayout {
    /// A texture view and its sampler, for the fragment stage.
    Texture,
    /// One uniform buffer that holds a 4x4 transform, for the vertex stage.
    Mat4x4,
}

/// How vertices are put together into primitives.
#[derive(Copy, Clone, Debug, PartialEq, Eq, Structural)]
pub enum PrimitiveTopology {
    PointList,
    LineList,
    LineStrip,
    TriangleList,
    TriangleStrip,
}

/// Which winding order is the front of a triangle.
#[derive(Copy, Clone, Debug, PartialEq, Eq, Structural)]
pub enum FrontFace {
    Ccw,
    Cw,
}

/// A side of a triangle.
#[derive(Copy, Clone, Debug, PartialEq, Eq, Structural)]
pub enum Face {
    Front,
    Back,
}

/// How a triangle is filled.
#[derive(Copy, Clone, Debug, PartialEq, Eq, Structural)]
pub enum PolygonMode {
    Fill,
    Line,
    Point,
}

/// How a fragment is combined with what the target holds.
#[derive(Copy, Clone, Debug, PartialEq, Eq, Structural)]
pub enum BlendState {
    Replace,
    AlphaBlending,
    PremultipliedAlphaBlending,
}

/// The fixed-function state that turns vertices into fragments.
#[derive(Copy, Clone, Debug, PartialEq, Eq, Structural)]
pub struct PrimitiveState {
    pub topology: PrimitiveTopology,
    pub front_face: FrontFace,
    pub cull_mode: Option<Face>,
    pub polygon_mode: PolygonMode,
    pub unclipped_depth: bool,
    pub conservative: bool,
}

/// The multisampling state.
#[derive(Copy, Clone, Debug, PartialEq, Eq, Structural)]
pub struct MultisampleState {
    /// Samples per pixel.
    pub count: u32,
    /// Which samples are written: one bit for each.
    pub mask: u64,
    pub alpha_to_coverage_enabled: bool,
}

/// The state of the one colour target. Its pixel format is that of the
/// surface.
#[derive(Copy, Clone, Debug, PartialEq, Eq, Structural)]
pub struct ColorTargetState {
    pub blend: Option<BlendState>,
    /// Which of the four channels are written: one bit for each.
    pub write_mask: u32,
}

/// What a pipeline expects to be bound: its bind group layouts by slot.
#[derive(Clone, Debug)]
pub struct PipelineLayoutDescriptor {
    pub label: &'static str,
    pub bind_group_layouts: Vec<BindGroupLayout>,
}

/// Everything that a render pipeline is made from.
#[derive(Clone, Debug)]
pub struct RenderPipelineDescriptor {
    pub label: &'static str,
    pub layout: PipelineLayoutDescriptor,
    /// The program of both stages.
    pub module: ShaderModule,
    pub vertex_entry_point: &'static str,
    pub fragment_entry_point: &'static str,
    /// The vertex buffers that the vertex stage reads.
    pub buffers: Vec<VertexBufferLayout>,
    pub target: ColorTargetState,
    pub primitive: PrimitiveState,
    /// Whether a depth and stencil test takes place.
    pub depth_stencil: bool,
    pub multisample: MultisampleState,
}

/// A pipeline layout as a value.
pub struct PipelineLayoutView {
    pub label: Seq<char>,
    pub bind_group_layouts: Seq<BindGroupLayout>,
}

/// A render pipeline descriptor as a value.
pub struct RenderPipelineView {
    pub label: Seq<char>,
    pub layout: PipelineLayoutView,
    pub module: ShaderModule,
    pub vertex_entry_point: Seq<char>,
    pub fragment_entry_point: Seq<char>,
    pub buffers: Seq<VertexBufferLayoutView>,
    pub target: ColorTargetState,
    pub primitive: PrimitiveState,
    pub depth_stencil: bool,
    pub multisample: MultisampleState,
}

impl View for PipelineLayoutDescriptor {
    type V = PipelineLayoutView;

    open spec fn view(&self) -> PipelineLayoutView {
        PipelineLayoutView { label: self.label@, bind_group_layouts: self.bind_group_layouts@ }
    }
}

impl View for RenderPipelineDescriptor {
    type V = RenderPipelineView;

    open spec fn view(&self) -> RenderPipelineView {
        RenderPipelineView {
            label: self.label@,
            layout: self.layout@,
            module: self.module,
            vertex_entry_point: self.vertex_entry_point@,
            fragment_entry_point: self.fragment_entry_point@,
            buffers: self.buffers@.map_values(|b: VertexBufferLayout| b@),
            target: self.target,
            primitive: self.primitive,
            depth_stencil: self.depth_stencil,
            multisample: self.multisample,
        }
    }
}

/// The state that all pipelines share: triangle lists, counter-clockwise
/// fronts, back faces culled, filled triangles.
pub open spec fn shared_primitive() -> PrimitiveState {
    PrimitiveState {
        topology: PrimitiveTopology::TriangleList,
        front_face: FrontFace::Ccw,
        cull_mode: Some(Face::Back),
        polygon_mode: PolygonMode::Fill,
        unclipped_depth: false,
        conservative: false,
    }
}

/// The multisampling that all pipelines share: one sample, all of it
/// written.
pub open spec fn shared_multisample() -> MultisampleState {
    MultisampleState { count: 1, mask: 0xFFFF_FFFF_FFFF_FFFF, alpha_to_coverage_enabled: false }
}

/// The colour target that all pipelines share: the fragment replaces what
/// was there, in all four channels.
pub open spec fn shared_target() -> ColorTargetState {
    ColorTargetState { blend: Some(BlendState::Replace), write_mask: 0xF }
}

/// The pipeline that is made from a layout, a shader program and a list of
/// vertex buffers. Everything else is the same for every pipeline.
pub open spec fn pipeline_of(
    layout: PipelineLayoutView,
    module: ShaderModule,
    buffers: Seq<VertexBufferLayoutView>,
) -> RenderPipelineView {
    RenderPipelineView {
        label: "Render pipeline"@,
        layout,
        module,
        vertex_entry_point: "vs_main"@,
        fragment_entry_point: "fs_main"@,
        buffers,
        target: shared_target(),
        primitive: shared_primitive(),
        depth_stencil: false,
        multisample: shared_multisample(),
    }
}

/// The primary pipeline: the textured geometry, with the bind group layouts
/// given and the vertex buffer of the scene.
pub open spec fn render_pipeline(bind_group_layouts: Seq<BindGroupLayout>) -> RenderPipelineView {
    pipeline_of(
        PipelineLayoutView { label: "Render Pipeline Layout"@, bind_group_layouts },
        ShaderModule::Shader,
        seq![vertex_layout()],
    )
}

/// The alternate pipeline: no bind groups and no vertex buffer, because its
/// vertex stage makes the geometry itself.
pub open spec fn challenge_pipeline() -> RenderPipelineView {
    pipeline_of(
        PipelineLayoutView {
            label: "Challenge Render Pipeline Layout"@,
            bind_group_layouts: Seq::empty(),
        },
        ShaderModule::Challenge,
        Seq::empty(),
    )
}

/// The tertiary pipeline: as the primary one, under a layout of its own.
pub open spec fn challenge4_pipeline(bind_group_layouts: Seq<BindGroupLayout>) -> RenderPipelineView {
    pipeline_of(
        PipelineLayoutView { label: "Challenge4 Pipeline Layout"@, bind_group_layouts },
        ShaderModule::Shader,
        seq![vertex_layout()],
    )
}

/// The descriptors of the three pipelines: primary, alternate, tertiary.
/// The primary and the tertiary pipeline expect the bind group layouts given,
/// slot by slot; the alternate pipeline expects none.
pub fn create_pipeline(bind_group_layouts: &[BindGroupLayout]) -> (pipelines: (
    RenderPipelineDescriptor,
    RenderPipelineDescriptor,
    RenderPipelineDescriptor,
))
    ensures
        pipelines.0@ == render_pipeline(bind_group_layouts@),
        pipelines.1@ == challenge_pipeline(),
        pipelines.2@ == challenge4_pipeline(bind_group_layouts@),
{
    let render_pipeline_layout = PipelineLayoutDescriptor {
        label: "Render Pipeline Layout",
        bind_group_layouts: slice_to_vec(bind_group_layouts),
    };

    let challenge_render_pipeline_layout = PipelineLayoutDescriptor {
        label: "Challenge Render Pipeline Layout",
        bind_group_layouts: Vec::new(),
    };

    let challenge4_pipeline_layout = PipelineLayoutDescriptor {
        label: "Challenge4 Pipeline Layout",
        bind_group_layouts: slice_to_vec(bind_group_layouts),
    };

    let render_pipeline = create_pipeline_int(
        render_pipeline_layout,
        ShaderModule::Shader,
        vec![Vertex::desc()],
    );

    let challenge_pipeline = create_pipeline_int(
        challenge_render_pipeline_layout,
        ShaderModule::Challenge,
        Vec::new(),
    );

    let challenge4_pipeline = create_pipeline_int(
        challenge4_pipeline_layout,
        ShaderModule::Shader,
        vec![Vertex::desc()],
    );

    proof {
        assert(render_pipeline@.buffers == seq![vertex_layout()]);
        assert(challenge_pipeline@.buffers == Seq::<VertexBufferLayoutView>::empty());
        assert(challenge4_pipeline@.buffers == seq![vertex_layout()]);
    }

    (render_pipeline, challenge_pipeline, challenge4_pipeline)
}

/// The descriptor of one pipeline: the parts given, and the state that all
/// pipelines share.
pub fn create_pipeline_int(
    pipeline_layout: PipelineLayoutDescriptor,
    shader: ShaderModule,
    buffers: Vec<VertexBufferLayout>,
) -> (pipeline: RenderPipelineDescriptor)
    ensures
        pipeline@ == pipeline_of(
            pipeline_layout@,
            shader,
            buffers@.map_values(|b: VertexBufferLayout| b@),
        ),
{
    assert(!0u64 == 0xFFFF_FFFF_FFFF_FFFFu64) by (bit_vector);
    RenderPipelineDescriptor {
        label: "Render pipeline",
        layout: pipeline_layout,
        module: shader,
        vertex_entry_point: "vs_main",
        fragment_entry_point: "fs_main",
        buffers,
        target: ColorTargetState { blend: Some(BlendState::Replace), write_mask: 0xF },
        primitive: PrimitiveState {
            topology: PrimitiveTopology::TriangleList,
            front_face: FrontFace::Ccw,
            cull_mode: Some(Face::Back),
            polygon_mode: PolygonMode::Fill,
            unclipped_depth: false,
            conservative: false,
        },
        depth_stencil: false,
        multisample: MultisampleState { count: 1, mask: !0, alpha_to_coverage_enabled: false },
    }
}

} // verus!
