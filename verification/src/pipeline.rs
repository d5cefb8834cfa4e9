//! The resources of the graphics device: in which order they are made,
//! and what the two bind groups hold.
use vstd::prelude::*;
use crate::frame::BindGroup;

verus! {

/// The resources that the setup makes.
#[derive(Clone, Copy, Debug, PartialEq, Eq, Structural)]
pub enum Resource {
    /// The handle to the graphics API.
    Instance,
    /// The surface of the window.
    Surface,
    /// The adapter that can draw to the surface.
    Adapter,
    /// The device and its queue.
    Device,
    /// The buffer that holds the model-view-projection matrix.
    UniformBuffer,
    /// The layout of the uniform bind group, and the group.
    UniformBindGroup,
    /// The swap chain of the surface.
    SwapChain,
    /// The texture, its view and its sampler.
    Texture,
    /// The layout of the texture bind group, and the group.
    TextureBindGroup,
    /// The shader module.
    Shader,
    VertexBuffer,
    IndexBuffer,
    PipelineLayout,
    RenderPipeline,
}

impl Resource {
    /// True when `self` is made from `other`, so that `other` has to be
    /// there first.
    pub open spec fn needs(self, other: Resource) -> bool {
        match self {
            Resource::Instance => false,
            Resource::Surface => other == Resource::Instance,
            Resource::Adapter => other == Resource::Instance || other == Resource::Surface,
            Resource::Device => other == Resource::Adapter,
            Resource::UniformBuffer => other == Resource::Device,
            Resource::UniformBindGroup => other == Resource::Device || other
                == Resource::UniformBuffer,
            Resource::SwapChain => other == Resource::Device || other == Resource::Surface
                || other == Resource::Adapter,
            Resource::Texture => other == Resource::Device,
            Resource::TextureBindGroup => other == Resource::Device || other == Resource::Texture,
            Resource::Shader => other == Resource::Device,
            Resource::VertexBuffer => other == Resource::Device,
            Resource::IndexBuffer => other == Resource::Device,
            Resource::PipelineLayout => other == Resource::Device || other
                == Resource::TextureBindGroup || other == Resource::UniformBindGroup,
            Resource::RenderPipeline => other == Resource::Device || other
                == Resource::PipelineLayout || other == Resource::Shader || other
                == Resource::SwapChain,
        }
    }

    /// The place of the resource in the order of the setup.
    pub open spec fn place(self) -> int {
        match self {
            Resource::Instance => 0,
            Resource::Surface => 1,
            Resource::Adapter => 2,
            Resource::Device => 3,
            Resource::UniformBuffer => 4,
            Resource::UniformBindGroup => 5,
            Resource::SwapChain => 6,
            Resource::Texture => 7,
            Resource::TextureBindGroup => 8,
            Resource::Shader => 9,
            Resource::VertexBuffer => 10,
            Resource::IndexBuffer => 11,
            Resource::PipelineLayout => 12,
            Resource::RenderPipeline => 13,
        }
    }

    /// Tells whether `self` is made from `other`.
    pub fn is_made_from(&self, other: &Resource) -> (r: bool)
        ensures
            r == self.needs(*other),
    {
        match self {
            Resource::Instance => false,
            Resource::Surface => matches!(other, Resource::Instance),
            Resource::Adapter => matches!(other, Resource::Instance | Resource::Surface),
            Resource::Device => matches!(other, Resource::Adapter),
            Resource::UniformBuffer => matches!(other, Resource::Device),
            Resource::UniformBindGroup => matches!(
                other,
                Resource::Device | Resource::UniformBuffer
            ),
            Resource::SwapChain => matches!(
                other,
                Resource::Device | Resource::Surface | Resource::Adapter
            ),
            Resource::Texture => matches!(other, Resource::Device),
            Resource::TextureBindGroup => matches!(other, Resource::Device | Resource::Texture),
            Resource::Shader => matches!(other, Resource::Device),
            Resource::VertexBuffer => matches!(other, Resource::Device),
            Resource::IndexBuffer => matches!(other, Resource::Device),
            Resource::PipelineLayout => matches!(
                other,
                Resource::Device | Resource::TextureBindGroup | Resource::UniformBindGroup
            ),
            Resource::RenderPipeline => matches!(
                other,
                Resource::Device | Resource::PipelineLayout | Resource::Shader
                    | Resource::SwapChain
            ),
        }
    }
}

/// The order in which the setup makes the resources.
pub open spec fn setup_sequence() -> Seq<Resource> {
    seq![
        Resource::Instance,
        Resource::Surface,
        Resource::Adapter,
        Resource::Device,
        Resource::UniformBuffer,
        Resource::UniformBindGroup,
        Resource::SwapChain,
        Resource::Texture,
        Resource::TextureBindGroup,
        Resource::Shader,
        Resource::VertexBuffer,
        Resource::IndexBuffer,
        Resource::PipelineLayout,
        Resource::RenderPipeline,
    ]
}

/// The resources in the order in which the setup makes them.
pub fn setup_order() -> (r: Vec<Resource>)
    ensures
        r@ == setup_sequence(),
{
    let mut order: Vec<Resource> = Vec::new();
    order.push(Resource::Instance);
    order.push(Resource::Surface);
    order.push(Resource::Adapter);
    order.push(Resource::Device);
    order.push(Resource::UniformBuffer);
    order.push(Resource::UniformBindGroup);
    order.push(Resource::SwapChain);
    order.push(Resource::Texture);
    order.push(Resource::TextureBindGroup);
    order.push(Resource::Shader);
    order.push(Resource::VertexBuffer);
    order.push(Resource::IndexBuffer);
    order.push(Resource::PipelineLayout);
    order.push(Resource::RenderPipeline);
    assert(order@ =~= setup_sequence());
    order
}

/// The order of the setup holds every resource once, at its place, and
/// every resource comes after all those it is made from.
pub proof fn lemma_setup_order_is_sound()
    ensures
        forall|r: Resource|
            0 <= #[trigger] r.place() < setup_sequence().len() && setup_sequence()[r.place()] == r,
        forall|i: int|
            0 <= i < setup_sequence().len() ==> (#[trigger] setup_sequence()[i]).place() == i,
        forall|r: Resource, from: Resource| #[trigger] r.needs(from) ==> from.place() < r.place(),
{
}

/// True when `wanted` stands in `order` before the place `end`.
pub open spec fn comes_before(order: Seq<Resource>, wanted: Resource, end: int) -> bool {
    exists|w: int| 0 <= w < end && w < order.len() && order[w] == wanted
}

/// True when every resource of `order` comes after all those it is made
/// from.
pub open spec fn buildable(order: Seq<Resource>) -> bool {
    forall|j: int, from: Resource|
        0 <= j < order.len() && (#[trigger] order[j]).needs(from) ==> #[trigger] comes_before(
            order,
            from,
            j,
        )
}

/// The order of the setup is buildable.
pub proof fn lemma_setup_order_is_buildable()
    ensures
        buildable(setup_sequence()),
{
    lemma_setup_order_is_sound();
    let order = setup_sequence();
    assert forall|j: int, from: Resource|
        0 <= j < order.len() && (#[trigger] order[j]).needs(from) implies #[trigger] comes_before(
        order,
        from,
        j,
    ) by {
        assert(order[j].place() == j);
        assert(order[from.place()] == from);
    }
}

/// The stage of the pipeline that sees a binding.
#[derive(Clone, Copy, Debug, PartialEq, Eq, Structural)]
pub enum ShaderStage {
    Vertex,
    Fragment,
}

/// What a binding holds.
#[derive(Clone, Copy, Debug, PartialEq, Eq, Structural)]
pub enum BindingType {
    /// A uniform buffer.
    UniformBuffer,
    /// A two-dimensional texture.
    Texture,
    /// A sampler that filters.
    Sampler,
}

/// One entry of the layout of a bind group.
#[derive(Clone, Copy, Debug, PartialEq, Eq, Structural)]
pub struct LayoutEntry {
    pub binding: u32,
    pub visibility: ShaderStage,
    pub ty: BindingType,
}

/// The layout of a bind group: the texture group holds the texture at
/// binding 0 and the sampler at binding 1, both for the fragment stage;
/// the uniform group holds the uniform buffer at binding 0, for the
/// vertex stage.
pub open spec fn layout_of(group: BindGroup) -> Seq<LayoutEntry> {
    match group {
        BindGroup::Texture => seq![
            LayoutEntry { binding: 0, visibility: ShaderStage::Fragment, ty: BindingType::Texture },
            LayoutEntry { binding: 1, visibility: ShaderStage::Fragment, ty: BindingType::Sampler },
        ],
        BindGroup::Uniform => seq![
            LayoutEntry {
                binding: 0,
                visibility: ShaderStage::Vertex,
                ty: BindingType::UniformBuffer,
            },
        ],
    }
}

/// The bind groups of the pipeline, each at the place of its slot.
pub open spec fn pipeline_groups() -> Seq<BindGroup> {
    seq![BindGroup::Texture, BindGroup::Uniform]
}

/// The layout of `group`.
pub fn bind_group_layout(group: BindGroup) -> (r: Vec<LayoutEntry>)
    ensures
        r@ == layout_of(group),
{
    let mut entries: Vec<LayoutEntry> = Vec::new();
    match group {
        BindGroup::Texture => {
            entries.push(
                LayoutEntry {
                    binding: 0,
                    visibility: ShaderStage::Fragment,
                    ty: BindingType::Texture,
                },
            );
            entries.push(
                LayoutEntry {
                    binding: 1,
                    visibility: ShaderStage::Fragment,
                    ty: BindingType::Sampler,
                },
            );
        },
        BindGroup::Uniform => {
            entries.push(
                LayoutEntry {
                    binding: 0,
                    visibility: ShaderStage::Vertex,
                    ty: BindingType::UniformBuffer,
                },
            );
        },
    }
    assert(entries@ =~= layout_of(group));
    entries
}

/// The bind groups of the pipeline layout, in the order of their slots.
pub fn pipeline_layout() -> (r: Vec<BindGroup>)
    ensures
        r@ == pipeline_groups(),
{
    let mut groups: Vec<BindGroup> = Vec::new();
    groups.push(BindGroup::Texture);
    groups.push(BindGroup::Uniform);
    assert(groups@ =~= pipeline_groups());
    groups
}

/// Every bind group stands in the pipeline layout at its slot, and the
/// entries of every layout are numbered from zero up.
pub proof fn lemma_layouts_are_consistent()
    ensures
        forall|group: BindGroup|
            0 <= #[trigger] group.slot_spec() < pipeline_groups().len() && pipeline_groups()[group.slot_spec() as int]
                == group,
        forall|group: BindGroup, i: int|
            0 <= i < layout_of(group).len() ==> (#[trigger] layout_of(group)[i]).binding == i,
{
}

} // verus!
