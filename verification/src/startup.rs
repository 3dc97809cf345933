//! Start-up: the steps that bring the engine from a window to its first
//! frame, in an order in which every step finds what it needs.

use crate::pipeline::{BindGroupLayout, ShaderModule};
use crate::resources::{
    buffer_of_group, layout_of, pipeline_descriptor, texture_of_group, BindGroup, Buffer, Pipeline,
    Texture,
};
use vstd::prelude::*;

verus! {

/// One step of the start-up.
#[derive(Copy, Clone, Debug, PartialEq, Eq, Structural)]
pub enum InitStep {
    /// An adapter that can present to the surface is asked for. Without one
    /// the start-up ends.
    RequestAdapter,
    /// The adapter is asked for a device and its queue. Without them the
    /// start-up ends.
    RequestDevice,
    /// The surface is configured for the first time.
    ConfigureSurface,
    /// A bind group layout is created.
    CreateBindGroupLayout(BindGroupLayout),
    /// A texture is decoded, created and filled, with its view and its
    /// sampler. If it does not decode, the start-up ends.
    LoadTexture(Texture),
    /// A shader program is compiled.
    CreateShaderModule(ShaderModule),
    /// A render pipeline is created.
    CreatePipeline(Pipeline),
    /// A buffer is created with its first contents.
    CreateBuffer(Buffer),
    /// A bind group is created.
    CreateBindGroup(BindGroup),
    /// The cursor is put into the middle of the window. If that fails the
    /// start-up goes on.
    CenterCursor,
}

/// The steps of the start-up in their order.
pub open spec fn init_plan() -> Seq<InitStep> {
    seq![
        InitStep::RequestAdapter,
        InitStep::RequestDevice,
        InitStep::ConfigureSurface,
        InitStep::CreateBindGroupLayout(BindGroupLayout::Texture),
        InitStep::LoadTexture(Texture::Diffuse),
        InitStep::LoadTexture(Texture::Challenge3),
        InitStep::CreateBindGroup(BindGroup::Diffuse),
        InitStep::CreateBindGroup(BindGroup::Challenge3),
        InitStep::CreateBindGroupLayout(BindGroupLayout::Mat4x4),
        InitStep::CreateShaderModule(ShaderModule::Shader),
        InitStep::CreateShaderModule(ShaderModule::Challenge),
        InitStep::CreateShaderModule(ShaderModule::Challenge4),
        InitStep::CreatePipeline(Pipeline::Render),
        InitStep::CreatePipeline(Pipeline::Challenge),
        InitStep::CreatePipeline(Pipeline::Challenge4),
        InitStep::CreateBuffer(Buffer::Vertex),
        InitStep::CreateBuffer(Buffer::Index),
        InitStep::CreateBuffer(Buffer::IndexChallenge2),
        InitStep::CreateBuffer(Buffer::Camera),
        InitStep::CreateBindGroup(BindGroup::Camera),
        InitStep::CreateBuffer(Buffer::Model),
        InitStep::CreateBindGroup(BindGroup::Model),
        InitStep::CenterCursor,
    ]
}

/// The place of each step in the plan.
pub open spec fn place_of(step: InitStep) -> int {
    match step {
        InitStep::RequestAdapter => 0,
        InitStep::RequestDevice => 1,
        InitStep::ConfigureSurface => 2,
        InitStep::CreateBindGroupLayout(BindGroupLayout::Texture) => 3,
        InitStep::LoadTexture(Texture::Diffuse) => 4,
        InitStep::LoadTexture(Texture::Challenge3) => 5,
        InitStep::CreateBindGroup(BindGroup::Diffuse) => 6,
        InitStep::CreateBindGroup(BindGroup::Challenge3) => 7,
        InitStep::CreateBindGroupLayout(BindGroupLayout::Mat4x4) => 8,
        InitStep::CreateShaderModule(ShaderModule::Shader) => 9,
        InitStep::CreateShaderModule(ShaderModule::Challenge) => 10,
        InitStep::CreateShaderModule(ShaderModule::Challenge4) => 11,
        InitStep::CreatePipeline(Pipeline::Render) => 12,
        InitStep::CreatePipeline(Pipeline::Challenge) => 13,
        InitStep::CreatePipeline(Pipeline::Challenge4) => 14,
        InitStep::CreateBuffer(Buffer::Vertex) => 15,
        InitStep::CreateBuffer(Buffer::Index) => 16,
        InitStep::CreateBuffer(Buffer::IndexChallenge2) => 17,
        InitStep::CreateBuffer(Buffer::Camera) => 18,
        InitStep::CreateBindGroup(BindGroup::Camera) => 19,
        InitStep::CreateBuffer(Buffer::Model) => 20,
        InitStep::CreateBindGroup(BindGroup::Model) => 21,
        InitStep::CenterCursor => 22,
    }
}

/// Whether a step makes use of what another step brings. Everything but the
/// adapter comes from the device; a pipeline is made from its shader program
/// and its bind group layouts, for the format of the configured surface; a
/// bind group is made from its layout and from the texture or the buffer
/// that it holds.
pub open spec fn needs(step: InitStep, other: InitStep) -> bool {
    match step {
        InitStep::RequestAdapter => false,
        InitStep::RequestDevice => other == InitStep::RequestAdapter,
        InitStep::ConfigureSurface => other == InitStep::RequestAdapter || other
            == InitStep::RequestDevice,
        InitStep::CreateBindGroupLayout(_) => other == InitStep::RequestDevice,
        InitStep::LoadTexture(_) => other == InitStep::RequestDevice,
        InitStep::CreateShaderModule(_) => other == InitStep::RequestDevice,
        InitStep::CreateBuffer(_) => other == InitStep::RequestDevice,
        InitStep::CreatePipeline(pipeline) => {
            let descriptor = pipeline_descriptor(pipeline);
            ||| other == InitStep::RequestDevice
            ||| other == InitStep::ConfigureSurface
            ||| other == InitStep::CreateShaderModule(descriptor.module)
            ||| exists|slot: int|
                0 <= slot < descriptor.layout.bind_group_layouts.len() && other
                    == InitStep::CreateBindGroupLayout(
                    #[trigger] descriptor.layout.bind_group_layouts[slot],
                )
        },
        InitStep::CreateBindGroup(group) => {
            ||| other == InitStep::RequestDevice
            ||| other == InitStep::CreateBindGroupLayout(layout_of(group))
            ||| texture_of_group(group) matches Some(texture) && other == InitStep::LoadTexture(
                texture,
            )
            ||| buffer_of_group(group) matches Some(buffer) && other == InitStep::CreateBuffer(
                buffer,
            )
        },
        InitStep::CenterCursor => false,
    }
}

/// The steps of the start-up in their order: see [`init_plan`].
pub fn init_steps() -> (steps: Vec<InitStep>)
    ensures
        steps@ == init_plan(),
{
    vec![
        InitStep::RequestAdapter,
        InitStep::RequestDevice,
        InitStep::ConfigureSurface,
        InitStep::CreateBindGroupLayout(BindGroupLayout::Texture),
        InitStep::LoadTexture(Texture::Diffuse),
        InitStep::LoadTexture(Texture::Challenge3),
        InitStep::CreateBindGroup(BindGroup::Diffuse),
        InitStep::CreateBindGroup(BindGroup::Challenge3),
        InitStep::CreateBindGroupLayout(BindGroupLayout::Mat4x4),
        InitStep::CreateShaderModule(ShaderModule::Shader),
        InitStep::CreateShaderModule(ShaderModule::Challenge),
        InitStep::CreateShaderModule(ShaderModule::Challenge4),
        InitStep::CreatePipeline(Pipeline::Render),
        InitStep::CreatePipeline(Pipeline::Challenge),
        InitStep::CreatePipeline(Pipeline::Challenge4),
        InitStep::CreateBuffer(Buffer::Vertex),
        InitStep::CreateBuffer(Buffer::Index),
        InitStep::CreateBuffer(Buffer::IndexChallenge2),
        InitStep::CreateBuffer(Buffer::Camera),
        InitStep::CreateBindGroup(BindGroup::Camera),
        InitStep::CreateBuffer(Buffer::Model),
        InitStep::CreateBindGroup(BindGroup::Model),
        InitStep::CenterCursor,
    ]
}

/// Every step stands in the plan, once: at its place and nowhere else. So
/// every resource of the engine is made, and none is made twice.
pub proof fn lemma_plan_is_complete(step: InitStep, i: int)
    ensures
        0 <= place_of(step) < init_plan().len(),
        init_plan()[place_of(step)] == step,
        0 <= i < init_plan().len() && init_plan()[i] == step ==> i == place_of(step),
{
}

/// Every step comes after all that it needs.
pub proof fn lemma_plan_respects_needs(step: InitStep, other: InitStep)
    requires
        needs(step, other),
    ensures
        place_of(other) < place_of(step),
{
    match step {
        InitStep::CreatePipeline(pipeline) => {
            let layouts = pipeline_descriptor(pipeline).layout.bind_group_layouts;
            assert(forall|slot: int|
                0 <= slot < layouts.len() ==> place_of(
                    InitStep::CreateBindGroupLayout(#[trigger] layouts[slot]),
                ) < 12);
        },
        _ => {},
    }
}

} // verus!
