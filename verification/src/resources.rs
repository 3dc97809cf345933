//! The resources that the engine owns for its whole life, by name: buffers,
//! textures, bind groups and pipelines, and how they fit together.

use crate::mat4x4_uniform::UNIFORM_SIZE;
use crate::pipeline::{
    challenge4_pipeline, challenge_pipeline, render_pipeline, BindGroupLayout, RenderPipelineView,
};
use crate::vertex::{challenge2_indices, primary_indices, vertex_table};
use vstd::prelude::*;

verus! {

/// The buffers of the engine.
#[derive(Copy, Clone, Debug, PartialEq, Eq, Structural)]
pub enum Buffer {
    /// The vertex list.
    Vertex,
    /// The primary triangulation.
    Index,
    /// The alternative triangulation.
    IndexChallenge2,
    /// The view-projection transform of the camera.
    Camera,
    /// The transform of the model.
    Model,
}

/// The textures of the engine.
#[derive(Copy, Clone, Debug, PartialEq, Eq, Structural)]
pub enum Texture {
    /// The texture of the default scene.
    Diffuse,
    /// The texture of the third variant.
    Challenge3,
}

/// The bind groups of the engine.
#[derive(Copy, Clone, Debug, PartialEq, Eq, Structural)]
pub enum BindGroup {
    /// The first texture and its sampler.
    Diffuse,
    /// The second texture and its sampler.
    Challenge3,
    /// The camera buffer.
    Camera,
    /// The model buffer.
    Model,
}

/// The pipelines of the engine.
#[derive(Copy, Clone, Debug, PartialEq, Eq, Structural)]
pub enum Pipeline {
    /// The primary pipeline.
    Render,
    /// The alternate pipeline.
    Challenge,
    /// The tertiary pipeline.
    Challenge4,
}

/// The layout that a bind group is made for.
pub open spec fn layout_of(group: BindGroup) -> BindGroupLayout {
    match group {
        BindGroup::Diffuse => BindGroupLayout::Texture,
        BindGroup::Challenge3 => BindGroupLayout::Texture,
        BindGroup::Camera => BindGroupLayout::Mat4x4,
        BindGroup::Model => BindGroupLayout::Mat4x4,
    }
}

/// The bind group layouts of the pipelines that take inputs, slot by slot:
/// a texture in slot 0, a transform in slot 1.
pub open spec fn pipeline_bind_group_layouts() -> Seq<BindGroupLayout> {
    seq![BindGroupLayout::Texture, BindGroupLayout::Mat4x4]
}

/// What each pipeline of the engine is made from.
pub open spec fn pipeline_descriptor(pipeline: Pipeline) -> RenderPipelineView {
    match pipeline {
        Pipeline::Render => render_pipeline(pipeline_bind_group_layouts()),
        Pipeline::Challenge => challenge_pipeline(),
        Pipeline::Challenge4 => challenge4_pipeline(pipeline_bind_group_layouts()),
    }
}

impl BindGroup {
    /// The layout that this bind group is made for.
    pub fn layout(&self) -> (layout: BindGroupLayout)
        ensures
            layout == layout_of(*self),
    {
        match self {
            BindGroup::Diffuse => BindGroupLayout::Texture,
            BindGroup::Challenge3 => BindGroupLayout::Texture,
            BindGroup::Camera => BindGroupLayout::Mat4x4,
            BindGroup::Model => BindGroupLayout::Mat4x4,
        }
    }
}

/// The bind group layouts that the primary and the tertiary pipeline are
/// made with.
pub fn bind_group_layouts() -> (layouts: Vec<BindGroupLayout>)
    ensures
        layouts@ == pipeline_bind_group_layouts(),
{
    vec![BindGroupLayout::Texture, BindGroupLayout::Mat4x4]
}

/// What a buffer may be used for.
#[derive(Copy, Clone, Debug, PartialEq, Eq, Structural)]
pub struct BufferUsages {
    /// Writes into the buffer may come from the queue.
    pub copy_dst: bool,
    pub index: bool,
    pub vertex: bool,
    pub uniform: bool,
}

/// The shader stage that sees a binding.
#[derive(Copy, Clone, Debug, PartialEq, Eq, Structural)]
pub enum ShaderStages {
    Vertex,
    Fragment,
}

/// The shapes of a texture view.
#[derive(Copy, Clone, Debug, PartialEq, Eq, Structural)]
pub enum TextureViewDimension {
    D1,
    D2,
    D2Array,
    Cube,
    CubeArray,
    D3,
}

/// What sampling a texture gives.
#[derive(Copy, Clone, Debug, PartialEq, Eq, Structural)]
pub enum TextureSampleType {
    Float { filterable: bool },
    Depth,
    Sint,
    Uint,
}

/// The kinds of samplers.
#[derive(Copy, Clone, Debug, PartialEq, Eq, Structural)]
pub enum SamplerBindingType {
    Filtering,
    NonFiltering,
    Comparison,
}

/// The kinds of buffer bindings.
#[derive(Copy, Clone, Debug, PartialEq, Eq, Structural)]
pub enum BufferBindingType {
    Uniform,
    Storage { read_only: bool },
}

/// What a binding of a layout expects.
#[derive(Copy, Clone, Debug, PartialEq, Eq, Structural)]
pub enum BindingType {
    Buffer { ty: BufferBindingType, has_dynamic_offset: bool, min_binding_size: Option<u64> },
    Sampler(SamplerBindingType),
    Texture {
        multisampled: bool,
        view_dimension: TextureViewDimension,
        sample_type: TextureSampleType,
    },
}

/// One binding of a bind group layout.
#[derive(Copy, Clone, Debug, PartialEq, Eq, Structural)]
pub struct BindGroupLayoutEntry {
    pub binding: u32,
    pub visibility: ShaderStages,
    pub ty: BindingType,
    /// The length of the array, where the binding is one.
    pub count: Option<u32>,
}

/// What is bound to a binding.
#[derive(Copy, Clone, Debug, PartialEq, Eq, Structural)]
pub enum BindingResource {
    /// The default view of a texture.
    TextureView(Texture),
    /// The sampler of a texture.
    Sampler(Texture),
    /// The whole of a buffer.
    Buffer(Buffer),
}

/// One binding of a bind group.
#[derive(Copy, Clone, Debug, PartialEq, Eq, Structural)]
pub struct BindGroupEntry {
    pub binding: u32,
    pub resource: BindingResource,
}

/// Everything that a bind group layout is made from.
#[derive(Clone, Debug)]
pub struct BindGroupLayoutDescriptor {
    pub label: &'static str,
    pub entries: Vec<BindGroupLayoutEntry>,
}

/// Everything that a bind group is made from.
#[derive(Clone, Debug)]
pub struct BindGroupDescriptor {
    pub label: &'static str,
    pub layout: BindGroupLayout,
    pub entries: Vec<BindGroupEntry>,
}

/// Everything that a buffer is made from.
#[derive(Clone, Debug)]
pub struct BufferInitDescriptor {
    pub label: &'static str,
    /// The bytes that the buffer holds at first. Their number is the size
    /// of the buffer.
    pub contents: Vec<u8>,
    pub usage: BufferUsages,
}

/// The bindings of each bind group layout. A texture layout has the texture
/// at binding 0 and its sampler at binding 1, both for the fragment stage; a
/// transform layout has one uniform buffer at binding 0, for the vertex
/// stage.
pub open spec fn layout_entries(layout: BindGroupLayout) -> Seq<BindGroupLayoutEntry> {
    match layout {
        BindGroupLayout::Texture => seq![
            BindGroupLayoutEntry {
                binding: 0,
                visibility: ShaderStages::Fragment,
                ty: BindingType::Texture {
                    multisampled: false,
                    view_dimension: TextureViewDimension::D2,
                    sample_type: TextureSampleType::Float { filterable: true },
                },
                count: None,
            },
            BindGroupLayoutEntry {
                binding: 1,
                visibility: ShaderStages::Fragment,
                ty: BindingType::Sampler(SamplerBindingType::Filtering),
                count: None,
            },
        ],
        BindGroupLayout::Mat4x4 => seq![
            BindGroupLayoutEntry {
                binding: 0,
                visibility: ShaderStages::Vertex,
                ty: BindingType::Buffer {
                    ty: BufferBindingType::Uniform,
                    has_dynamic_offset: false,
                    min_binding_size: None,
                },
                count: None,
            },
        ],
    }
}

/// The texture of a texture bind group.
pub open spec fn texture_of_group(group: BindGroup) -> Option<Texture> {
    match group {
        BindGroup::Diffuse => Some(Texture::Diffuse),
        BindGroup::Challenge3 => Some(Texture::Challenge3),
        _ => None,
    }
}

/// The buffer of a transform bind group.
pub open spec fn buffer_of_group(group: BindGroup) -> Option<Buffer> {
    match group {
        BindGroup::Camera => Some(Buffer::Camera),
        BindGroup::Model => Some(Buffer::Model),
        _ => None,
    }
}

/// The bindings of each bind group: a texture group binds the view of its
/// texture and then its sampler, a transform group binds its buffer.
pub open spec fn group_entries(group: BindGroup) -> Seq<BindGroupEntry> {
    match group {
        BindGroup::Diffuse => seq![
            BindGroupEntry { binding: 0, resource: BindingResource::TextureView(Texture::Diffuse) },
            BindGroupEntry { binding: 1, resource: BindingResource::Sampler(Texture::Diffuse) },
        ],
        BindGroup::Challenge3 => seq![
            BindGroupEntry {
                binding: 0,
                resource: BindingResource::TextureView(Texture::Challenge3),
            },
            BindGroupEntry { binding: 1, resource: BindingResource::Sampler(Texture::Challenge3) },
        ],
        BindGroup::Camera => seq![
            BindGroupEntry { binding: 0, resource: BindingResource::Buffer(Buffer::Camera) },
        ],
        BindGroup::Model => seq![
            BindGroupEntry { binding: 0, resource: BindingResource::Buffer(Buffer::Model) },
        ],
    }
}

/// What each buffer is used for: the geometry is only read, the uniforms
/// are also written while the engine runs.
pub open spec fn buffer_usage(buffer: Buffer) -> BufferUsages {
    match buffer {
        Buffer::Vertex => BufferUsages { copy_dst: false, index: false, vertex: true, uniform: false },
        Buffer::Index => BufferUsages { copy_dst: false, index: true, vertex: false, uniform: false },
        Buffer::IndexChallenge2 => BufferUsages {
            copy_dst: false,
            index: true,
            vertex: false,
            uniform: false,
        },
        Buffer::Camera => BufferUsages { copy_dst: true, index: false, vertex: false, uniform: true },
        Buffer::Model => BufferUsages { copy_dst: true, index: false, vertex: false, uniform: true },
    }
}

/// The label of each buffer.
pub open spec fn buffer_label(buffer: Buffer) -> Seq<char> {
    match buffer {
        Buffer::Vertex => "Vertex buffer"@,
        Buffer::Index => "Index buffer"@,
        Buffer::IndexChallenge2 => "Index buffer challenge"@,
        Buffer::Camera => "Camera buffer"@,
        Buffer::Model => "Model buffer"@,
    }
}

/// The size of each buffer in bytes. It is fixed when the buffer is made.
pub open spec fn buffer_size(buffer: Buffer) -> nat {
    match buffer {
        Buffer::Vertex => 20 * vertex_table().len(),
        Buffer::Index => 2 * primary_indices().len(),
        Buffer::IndexChallenge2 => 2 * challenge2_indices().len(),
        Buffer::Camera => UNIFORM_SIZE as nat,
        Buffer::Model => UNIFORM_SIZE as nat,
    }
}

/// Whether a resource can stand at a binding of the given type.
pub open spec fn resource_fits(resource: BindingResource, ty: BindingType) -> bool {
    match resource {
        BindingResource::TextureView(_) => ty is Texture,
        BindingResource::Sampler(_) => ty is Sampler,
        BindingResource::Buffer(buffer) => ty matches BindingType::Buffer {
            ty: BufferBindingType::Uniform,
            ..
        } && buffer_usage(buffer).uniform,
    }
}

impl View for BindGroupLayoutDescriptor {
    type V = (Seq<char>, Seq<BindGroupLayoutEntry>);

    open spec fn view(&self) -> (Seq<char>, Seq<BindGroupLayoutEntry>) {
        (self.label@, self.entries@)
    }
}

impl View for BindGroupDescriptor {
    type V = (Seq<char>, BindGroupLayout, Seq<BindGroupEntry>);

    open spec fn view(&self) -> (Seq<char>, BindGroupLayout, Seq<BindGroupEntry>) {
        (self.label@, self.layout, self.entries@)
    }
}

impl Buffer {
    /// What this buffer is used for.
    pub fn usage(&self) -> (usage: BufferUsages)
        ensures
            usage == buffer_usage(*self),
    {
        match self {
            Buffer::Vertex => BufferUsages {
                copy_dst: false,
                index: false,
                vertex: true,
                uniform: false,
            },
            Buffer::Index | Buffer::IndexChallenge2 => BufferUsages {
                copy_dst: false,
                index: true,
                vertex: false,
                uniform: false,
            },
            Buffer::Camera | Buffer::Model => BufferUsages {
                copy_dst: true,
                index: false,
                vertex: false,
                uniform: true,
            },
        }
    }

    /// The label of this buffer.
    pub fn label(&self) -> (label: &'static str)
        ensures
            label@ == buffer_label(*self),
    {
        match self {
            Buffer::Vertex => "Vertex buffer",
            Buffer::Index => "Index buffer",
            Buffer::IndexChallenge2 => "Index buffer challenge",
            Buffer::Camera => "Camera buffer",
            Buffer::Model => "Model buffer",
        }
    }
}

impl Texture {
    /// The label of this texture.
    pub fn label(&self) -> (label: &'static str)
        ensures
            label@ == match *self {
                Texture::Diffuse => "happy-tree.png texture"@,
                Texture::Challenge3 => "house.png texture"@,
            },
    {
        match self {
            Texture::Diffuse => "happy-tree.png texture",
            Texture::Challenge3 => "house.png texture",
        }
    }
}

/// The descriptor of a bind group layout: see [`layout_entries`].
pub fn bind_group_layout_descriptor(layout: BindGroupLayout) -> (descriptor:
    BindGroupLayoutDescriptor)
    ensures
        descriptor@ == (
            match layout {
                BindGroupLayout::Texture => "Texture binding group layout"@,
                BindGroupLayout::Mat4x4 => "Mat4x4 bind group layout"@,
            },
            layout_entries(layout),
        ),
{
    match layout {
        BindGroupLayout::Texture => BindGroupLayoutDescriptor {
            entries: vec![
                BindGroupLayoutEntry {
                    binding: 0,
                    visibility: ShaderStages::Fragment,
                    ty: BindingType::Texture {
                        multisampled: false,
                        view_dimension: TextureViewDimension::D2,
                        sample_type: TextureSampleType::Float { filterable: true },
                    },
                    count: None,
                },
                BindGroupLayoutEntry {
                    binding: 1,
                    visibility: ShaderStages::Fragment,
                    ty: BindingType::Sampler(SamplerBindingType::Filtering),
                    count: None,
                },
            ],
            label: "Texture binding group layout",
        },
        BindGroupLayout::Mat4x4 => BindGroupLayoutDescriptor {
            entries: vec![
                BindGroupLayoutEntry {
                    binding: 0,
                    visibility: ShaderStages::Vertex,
                    ty: BindingType::Buffer {
                        ty: BufferBindingType::Uniform,
                        has_dynamic_offset: false,
                        min_binding_size: None,
                    },
                    count: None,
                },
            ],
            label: "Mat4x4 bind group layout",
        },
    }
}

/// The descriptor of a bind group: see [`group_entries`].
pub fn bind_group_descriptor(group: BindGroup) -> (descriptor: BindGroupDescriptor)
    ensures
        descriptor@ == (
            match group {
                BindGroup::Diffuse => "Diffuse bind group descriptor"@,
                BindGroup::Challenge3 => "Challenge3 bind group descriptor"@,
                BindGroup::Camera => "Camera bind group"@,
                BindGroup::Model => "Model bind group"@,
            },
            layout_of(group),
            group_entries(group),
        ),
{
    match group {
        BindGroup::Diffuse => BindGroupDescriptor {
            layout: BindGroupLayout::Texture,
            entries: texture_entries(Texture::Diffuse),
            label: "Diffuse bind group descriptor",
        },
        BindGroup::Challenge3 => BindGroupDescriptor {
            layout: BindGroupLayout::Texture,
            entries: texture_entries(Texture::Challenge3),
            label: "Challenge3 bind group descriptor",
        },
        BindGroup::Camera => BindGroupDescriptor {
            layout: BindGroupLayout::Mat4x4,
            entries: vec![
                BindGroupEntry { binding: 0, resource: BindingResource::Buffer(Buffer::Camera) },
            ],
            label: "Camera bind group",
        },
        BindGroup::Model => BindGroupDescriptor {
            layout: BindGroupLayout::Mat4x4,
            entries: vec![
                BindGroupEntry { binding: 0, resource: BindingResource::Buffer(Buffer::Model) },
            ],
            label: "Model bind group",
        },
    }
}

/// The bindings of the bind group of a texture: its view, then its sampler.
fn texture_entries(texture: Texture) -> (entries: Vec<BindGroupEntry>)
    ensures
        entries@ == seq![
            BindGroupEntry { binding: 0, resource: BindingResource::TextureView(texture) },
            BindGroupEntry { binding: 1, resource: BindingResource::Sampler(texture) },
        ],
{
    vec![
        BindGroupEntry { binding: 0, resource: BindingResource::TextureView(texture) },
        BindGroupEntry { binding: 1, resource: BindingResource::Sampler(texture) },
    ]
}

/// Every bind group fills its layout: it has one resource for each binding
/// of the layout, under the same binding number and of the kind that the
/// binding expects.
pub proof fn lemma_group_fills_layout(group: BindGroup, i: int)
    requires
        0 <= i < layout_entries(layout_of(group)).len(),
    ensures
        group_entries(group).len() == layout_entries(layout_of(group)).len(),
        group_entries(group)[i].binding == layout_entries(layout_of(group))[i].binding,
        resource_fits(group_entries(group)[i].resource, layout_entries(layout_of(group))[i].ty),
{
}

/// A texture is sampled through its own sampler: the two resources of a
/// texture bind group belong to one texture.
pub proof fn lemma_texture_group_is_one_texture(group: BindGroup)
    requires
        layout_of(group) == BindGroupLayout::Texture,
    ensures
        texture_of_group(group) matches Some(texture) && group_entries(group) == seq![
            BindGroupEntry { binding: 0, resource: BindingResource::TextureView(texture) },
            BindGroupEntry { binding: 1, resource: BindingResource::Sampler(texture) },
        ],
{
}

/// Only the two uniform buffers take writes from the queue, and they are
/// the only buffers that bind groups hold.
pub proof fn lemma_written_buffers_are_uniforms(buffer: Buffer)
    ensures
        buffer_usage(buffer).copy_dst <==> (buffer == Buffer::Camera || buffer == Buffer::Model),
        buffer_usage(buffer).copy_dst <==> buffer_usage(buffer).uniform,
        buffer_usage(buffer).copy_dst ==> buffer_size(buffer) == UNIFORM_SIZE,
{
}

} // verus!
