//! The sequence of one frame, and the configuration of the surface it is
//! shown on.
use vstd::prelude::*;
use crate::factor::Factor;

verus! {

/// The two bind groups of the pipeline.
#[derive(Clone, Copy, Debug, PartialEq, Eq, Structural)]
pub enum BindGroup {
    /// The texture and its sampler.
    Texture,
    /// The uniform buffer that holds the model-view-projection matrix.
    Uniform,
}

impl BindGroup {
    /// The slot of the pipeline that the group is bound at.
    pub open spec fn slot_spec(self) -> u32 {
        match self {
            BindGroup::Texture => 0,
            BindGroup::Uniform => 1,
        }
    }

    pub fn slot(&self) -> (r: u32)
        ensures
            r == self.slot_spec(),
    {
        match self {
            BindGroup::Texture => 0,
            BindGroup::Uniform => 1,
        }
    }
}

/// One step of a frame.
#[derive(Clone, Copy, Debug, PartialEq, Eq, Structural)]
pub enum FrameStep {
    /// Write the model-view-projection matrix into the uniform buffer.
    WriteUniform,
    /// Acquire the next image of the surface.
    AcquireFrame,
    /// Begin the render pass on the acquired image.
    BeginPass,
    SetPipeline,
    SetBindGroup { slot: u32, group: BindGroup },
    SetVertexBuffer { slot: u32 },
    SetIndexBuffer,
    /// Draw `index_count` indices from `first_index` on, `instances` times.
    DrawIndexed { first_index: u32, index_count: u32, instances: u32 },
    EndPass,
    /// Hand the encoded commands to the queue of the device.
    Submit,
    /// Show the acquired image.
    Present,
}

/// The steps of one frame, in order: the uniform is written, the image
/// acquired, one pass encoded that draws the whole index range once, the
/// commands submitted and the image shown.
pub open spec fn frame_sequence_of(num_indices: u32) -> Seq<FrameStep> {
    seq![
        FrameStep::WriteUniform,
        FrameStep::AcquireFrame,
        FrameStep::BeginPass,
        FrameStep::SetPipeline,
        FrameStep::SetBindGroup { slot: 0, group: BindGroup::Texture },
        FrameStep::SetBindGroup { slot: 1, group: BindGroup::Uniform },
        FrameStep::SetVertexBuffer { slot: 0 },
        FrameStep::SetIndexBuffer,
        FrameStep::DrawIndexed { first_index: 0, index_count: num_indices, instances: 1 },
        FrameStep::EndPass,
        FrameStep::Submit,
        FrameStep::Present,
    ]
}

/// The steps of one frame that draws `num_indices` indices.
pub fn frame_sequence(num_indices: u32) -> (r: Vec<FrameStep>)
    ensures
        r@ == frame_sequence_of(num_indices),
{
    let mut steps: Vec<FrameStep> = Vec::new();
    steps.push(FrameStep::WriteUniform);
    steps.push(FrameStep::AcquireFrame);
    steps.push(FrameStep::BeginPass);
    steps.push(FrameStep::SetPipeline);
    steps.push(FrameStep::SetBindGroup { slot: BindGroup::Texture.slot(), group: BindGroup::Texture });
    steps.push(FrameStep::SetBindGroup { slot: BindGroup::Uniform.slot(), group: BindGroup::Uniform });
    steps.push(FrameStep::SetVertexBuffer { slot: 0 });
    steps.push(FrameStep::SetIndexBuffer);
    steps.push(FrameStep::DrawIndexed { first_index: 0, index_count: num_indices, instances: 1 });
    steps.push(FrameStep::EndPass);
    steps.push(FrameStep::Submit);
    steps.push(FrameStep::Present);
    assert(steps@ =~= frame_sequence_of(num_indices));
    steps
}

/// One frame: what to write into the uniform buffer, and the steps to
/// carry out.
#[derive(Debug)]
pub struct Frame {
    pub uniform: Vec<Factor>,
    pub steps: Vec<FrameStep>,
}

/// How images are handed to the display.
#[derive(Clone, Copy, Debug, PartialEq, Eq, Structural)]
pub enum PresentMode {
    /// First in, first out: frames are shown in the order of submission,
    /// one per refresh of the display.
    Fifo,
}

/// The configuration of the presentation surface.
#[derive(Clone, Copy, Debug, PartialEq, Eq, Structural)]
pub struct SurfaceConfiguration {
    pub width: u32,
    pub height: u32,
    pub present_mode: PresentMode,
}

} // verus!
