use render_core::{
    bind_group_layout, pipeline_layout, setup_order, BindGroup, BindingType, LayoutEntry,
    Resource, ShaderStage,
};

#[test]
fn setup_order_holds_every_resource_once() {
    let order = setup_order();
    assert_eq!(
        order,
        vec![
            Resource::Instance,
            Resource::Surface,
            Resource::Adapter,
            Resource::Device,
            Resource::UniformBuffer,
            Resource::UniformBindGroup,
            Resource::SwapChain,
            Resource::Texture,
            Resource::TextureBindGroup,
            Resource::Shader,
            Resource::VertexBuffer,
            Resource::IndexBuffer,
            Resource::PipelineLayout,
            Resource::RenderPipeline,
        ]
    );
    for (i, resource) in order.iter().enumerate() {
        assert_eq!(order.iter().position(|other| other == resource), Some(i));
    }
}

#[test]
fn every_resource_comes_after_what_it_is_made_from() {
    let order = setup_order();
    for (i, resource) in order.iter().enumerate() {
        for (j, other) in order.iter().enumerate() {
            if resource.is_made_from(other) {
                assert!(j < i);
            }
        }
    }
}

#[test]
fn what_each_resource_is_made_from() {
    let made_from = |resource: Resource| -> Vec<Resource> {
        setup_order().into_iter().filter(|other| resource.is_made_from(other)).collect()
    };
    assert_eq!(made_from(Resource::Instance), vec![]);
    assert_eq!(made_from(Resource::Surface), vec![Resource::Instance]);
    assert_eq!(made_from(Resource::Adapter), vec![Resource::Instance, Resource::Surface]);
    assert_eq!(made_from(Resource::Device), vec![Resource::Adapter]);
    assert_eq!(made_from(Resource::UniformBuffer), vec![Resource::Device]);
    assert_eq!(
        made_from(Resource::UniformBindGroup),
        vec![Resource::Device, Resource::UniformBuffer]
    );
    assert_eq!(
        made_from(Resource::SwapChain),
        vec![Resource::Surface, Resource::Adapter, Resource::Device]
    );
    assert_eq!(made_from(Resource::Texture), vec![Resource::Device]);
    assert_eq!(made_from(Resource::TextureBindGroup), vec![Resource::Device, Resource::Texture]);
    assert_eq!(made_from(Resource::Shader), vec![Resource::Device]);
    assert_eq!(made_from(Resource::VertexBuffer), vec![Resource::Device]);
    assert_eq!(made_from(Resource::IndexBuffer), vec![Resource::Device]);
    assert_eq!(
        made_from(Resource::PipelineLayout),
        vec![Resource::Device, Resource::UniformBindGroup, Resource::TextureBindGroup]
    );
    assert_eq!(
        made_from(Resource::RenderPipeline),
        vec![Resource::Device, Resource::SwapChain, Resource::Shader, Resource::PipelineLayout]
    );
}

#[test]
fn texture_group_holds_texture_and_sampler_for_the_fragment_stage() {
    assert_eq!(
        bind_group_layout(BindGroup::Texture),
        vec![
            LayoutEntry { binding: 0, visibility: ShaderStage::Fragment, ty: BindingType::Texture },
            LayoutEntry { binding: 1, visibility: ShaderStage::Fragment, ty: BindingType::Sampler },
        ]
    );
}

#[test]
fn uniform_group_holds_the_buffer_for_the_vertex_stage() {
    assert_eq!(
        bind_group_layout(BindGroup::Uniform),
        vec![LayoutEntry {
            binding: 0,
            visibility: ShaderStage::Vertex,
            ty: BindingType::UniformBuffer
        }]
    );
}

#[test]
fn pipeline_layout_puts_every_group_at_its_slot() {
    let groups = pipeline_layout();
    assert_eq!(groups, vec![BindGroup::Texture, BindGroup::Uniform]);
    for group in [BindGroup::Texture, BindGroup::Uniform] {
        assert_eq!(groups[group.slot() as usize], group);
    }
}
