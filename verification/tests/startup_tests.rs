use town_links::pipeline::{create_pipeline, BindGroupLayout, ShaderModule};
use town_links::resources::{
    bind_group_descriptor, bind_group_layouts, BindGroup, BindingResource, Buffer, Pipeline,
    Texture,
};
use town_links::startup::{init_steps, InitStep};

fn place(step: InitStep) -> usize {
    let steps = init_steps();
    let places: Vec<usize> =
        steps.iter().enumerate().filter(|(_, s)| **s == step).map(|(i, _)| i).collect();
    assert_eq!(places.len(), 1, "{:?} stands in the plan once", step);
    places[0]
}

#[test]
fn plan_in_order() {
    assert_eq!(
        init_steps(),
        vec![
            InitStep::RequestAdapter,
            InitStep::RequestDevice,
            InitStep::ConfigureSurface,
            InitStep::CreateBindGroupLayout(BindGroupLayout::Texture),
            InitStep::LoadTexture(Texture::Diffuse),
            InitStep::LoadTexture(Texture::Challenge3),
            InitStep::CreateBindGroup(BindGroup::Diffuse),
            InitStep::CreateBindGroup(BindGroup::Challenge3),
            InitStep::CreateBindGroupLayout(BindGroupLayout::Mat4x4),
            InitStep::CreateShaderModule(ShaderModule::Shader),
            InitStep::CreateShaderModule(ShaderModule::Challenge),
            InitStep::CreateShaderModule(ShaderModule::Challenge4),
            InitStep::CreatePipeline(Pipeline::Render),
            InitStep::CreatePipeline(Pipeline::Challenge),
            InitStep::CreatePipeline(Pipeline::Challenge4),
            InitStep::CreateBuffer(Buffer::Vertex),
            InitStep::CreateBuffer(Buffer::Index),
            InitStep::CreateBuffer(Buffer::IndexChallenge2),
            InitStep::CreateBuffer(Buffer::Camera),
            InitStep::CreateBindGroup(BindGroup::Camera),
            InitStep::CreateBuffer(Buffer::Model),
            InitStep::CreateBindGroup(BindGroup::Model),
            InitStep::CenterCursor,
        ]
    );
}

#[test]
fn plan_makes_every_resource_once() {
    for layout in [BindGroupLayout::Texture, BindGroupLayout::Mat4x4] {
        place(InitStep::CreateBindGroupLayout(layout));
    }
    for texture in [Texture::Diffuse, Texture::Challenge3] {
        place(InitStep::LoadTexture(texture));
    }
    for module in [ShaderModule::Shader, ShaderModule::Challenge, ShaderModule::Challenge4] {
        place(InitStep::CreateShaderModule(module));
    }
    for pipeline in [Pipeline::Render, Pipeline::Challenge, Pipeline::Challenge4] {
        place(InitStep::CreatePipeline(pipeline));
    }
    for buffer in [
        Buffer::Vertex,
        Buffer::Index,
        Buffer::IndexChallenge2,
        Buffer::Camera,
        Buffer::Model,
    ] {
        place(InitStep::CreateBuffer(buffer));
    }
    for group in [BindGroup::Diffuse, BindGroup::Challenge3, BindGroup::Camera, BindGroup::Model] {
        place(InitStep::CreateBindGroup(group));
    }
    assert_eq!(init_steps().len(), 23);
}

#[test]
fn plan_starts_with_adapter_and_device_and_ends_with_the_cursor() {
    assert_eq!(place(InitStep::RequestAdapter), 0);
    assert_eq!(place(InitStep::RequestDevice), 1);
    assert_eq!(place(InitStep::ConfigureSurface), 2);
    assert_eq!(place(InitStep::CenterCursor), init_steps().len() - 1);
}

#[test]
fn bind_groups_come_after_what_they_hold() {
    for group in [BindGroup::Diffuse, BindGroup::Challenge3, BindGroup::Camera, BindGroup::Model] {
        let own = place(InitStep::CreateBindGroup(group));
        let descriptor = bind_group_descriptor(group);
        assert!(place(InitStep::CreateBindGroupLayout(descriptor.layout)) < own);
        for entry in descriptor.entries {
            let needed = match entry.resource {
                BindingResource::TextureView(texture) => InitStep::LoadTexture(texture),
                BindingResource::Sampler(texture) => InitStep::LoadTexture(texture),
                BindingResource::Buffer(buffer) => InitStep::CreateBuffer(buffer),
            };
            assert!(place(needed) < own);
        }
    }
}

#[test]
fn pipelines_come_after_their_shaders_and_layouts() {
    let (render, challenge, challenge4) = create_pipeline(&bind_group_layouts());
    for (pipeline, descriptor) in [
        (Pipeline::Render, render),
        (Pipeline::Challenge, challenge),
        (Pipeline::Challenge4, challenge4),
    ] {
        let own = place(InitStep::CreatePipeline(pipeline));
        assert!(place(InitStep::ConfigureSurface) < own);
        assert!(place(InitStep::CreateShaderModule(descriptor.module)) < own);
        for layout in descriptor.layout.bind_group_layouts {
            assert!(place(InitStep::CreateBindGroupLayout(layout)) < own);
        }
    }
}
