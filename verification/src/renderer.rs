//! The registry of compute pipelines and the planning of a dispatch.

use vstd::prelude::*;
use crate::context::Context;
use crate::dispatch::{
    readback_len, recorded, rgba8_len, Command, DispatchError, DispatchPlan, WorkgroupCounts,
};

verus! {

/// Width and height of the image that `Renderer::test` dispatches for.
pub const TEST_IMAGE_SIZE: u32 = 640;

/// The file, in the working directory, that the image of `Renderer::test`
/// is written to.
pub const TEST_OUTPUT_PATH: &'static str = "test.png";

/// A compute pipeline as the registry knows it: the number of descriptor
/// set layouts in its pipeline layout, as derived from its shader's entry
/// point. It is not changed after it was registered.
#[derive(Clone, Copy, Debug, PartialEq, Eq, Structural)]
pub struct ComputePipeline {
    pub set_layout_count: usize,
}

/// The pipelines in the order they were registered, beside the context they
/// were built on.
#[derive(Clone, Debug)]
pub struct Renderer {
    pub context: Context,
    pub pipelines: Vec<ComputePipeline>,
}

impl Renderer {
    /// The plan of a dispatch of the pipeline at `index` into a `width` by
    /// `height` image, or the first reason there is none.
    pub open spec fn plan_choice(
        self,
        index: usize,
        width: u32,
        height: u32,
        workgroups: WorkgroupCounts,
    ) -> Result<DispatchPlan, DispatchError> {
        if index >= self.pipelines@.len() {
            Err(DispatchError::NoSuchPipeline)
        } else if width == 0 || height == 0 {
            Err(DispatchError::EmptyImage)
        } else if rgba8_len(width, height) > usize::MAX {
            Err(DispatchError::ImageTooLarge)
        } else if !self.context.device.queue_supports_compute {
            Err(DispatchError::QueueLacksCompute)
        } else if self.pipelines@[index as int].set_layout_count == 0 {
            Err(DispatchError::DescriptorSetFailed)
        } else {
            Ok(
                DispatchPlan {
                    pipeline_index: index,
                    queue_family_index: self.context.device.queue_family_index,
                    width,
                    height,
                    workgroups,
                    buffer_len: rgba8_len(width, height) as usize,
                },
            )
        }
    }

    /// A registry on `context` with `first` registered at index 0.
    pub fn new(context: Context, first: ComputePipeline) -> (renderer: Renderer)
        ensures
            renderer.context == context,
            renderer.pipelines@ == seq![first],
    {
        let mut pipelines: Vec<ComputePipeline> = Vec::new();
        pipelines.push(first);
        assert(pipelines@ =~= seq![first]);
        Renderer { context, pipelines }
    }

    /// Registers one more pipeline, behind those already there, and returns
    /// its index.
    pub fn add_pipeline(&mut self, pipeline: ComputePipeline) -> (index: usize)
        ensures
            final(self).context == old(self).context,
            final(self).pipelines@ == old(self).pipelines@.push(pipeline),
            index == old(self).pipelines@.len(),
    {
        let index = self.pipelines.len();
        self.pipelines.push(pipeline);
        index
    }

    /// Plans a dispatch of the pipeline at `index` into a `width` by `height`
    /// RGBA8 image that is then read back.
    pub fn plan(&self, index: usize, width: u32, height: u32, workgroups: WorkgroupCounts) -> (r:
        Result<DispatchPlan, DispatchError>)
        ensures
            r == self.plan_choice(index, width, height, workgroups),
    {
        if index >= self.pipelines.len() {
            return Err(DispatchError::NoSuchPipeline);
        }
        if width == 0 || height == 0 {
            return Err(DispatchError::EmptyImage);
        }
        let buffer_len = match readback_len(width, height) {
            None => {
                return Err(DispatchError::ImageTooLarge);
            },
            Some(len) => len,
        };
        if !self.context.device.queue_supports_compute {
            return Err(DispatchError::QueueLacksCompute);
        }
        if self.pipelines[index].set_layout_count == 0 {
            return Err(DispatchError::DescriptorSetFailed);
        }
        Ok(
            DispatchPlan {
                pipeline_index: index,
                queue_family_index: self.context.device.queue_family_index,
                width,
                height,
                workgroups,
                buffer_len,
            },
        )
    }

    /// Plans the fixed dispatch: the pipeline at index 0, a 640 by 640
    /// image, one workgroup per texel.
    pub fn test(&self) -> (r: Result<DispatchPlan, DispatchError>)
        ensures
            r == self.plan_choice(
                0,
                TEST_IMAGE_SIZE,
                TEST_IMAGE_SIZE,
                WorkgroupCounts { x: TEST_IMAGE_SIZE, y: TEST_IMAGE_SIZE, z: 1 },
            ),
    {
        self.plan(
            0,
            TEST_IMAGE_SIZE,
            TEST_IMAGE_SIZE,
            WorkgroupCounts { x: TEST_IMAGE_SIZE, y: TEST_IMAGE_SIZE, z: 1 },
        )
    }
}

/// A plan binds the pipeline that was asked for by its index, and the
/// descriptor set against that pipeline's own layout, whatever else is
/// registered.
pub proof fn lemma_plan_binds_requested_pipeline(
    renderer: Renderer,
    index: usize,
    width: u32,
    height: u32,
    workgroups: WorkgroupCounts,
)
    ensures
        renderer.plan_choice(index, width, height, workgroups) matches Ok(plan) ==> {
            &&& index < renderer.pipelines@.len()
            &&& plan.pipeline_index == index
            &&& renderer.pipelines@[index as int].set_layout_count > 0
            &&& recorded(plan)[0] == Command::BindPipeline(index)
            &&& recorded(plan)[1] == (Command::BindDescriptorSet {
                pipeline: index,
                first_set: 0,
                binding: 0,
            })
            &&& recorded(plan)[2] == Command::Dispatch(workgroups)
            &&& recorded(plan)[3] == Command::CopyImageToBuffer
            &&& recorded(plan).len() == 4
        },
{
}

/// A plan for an image with texels has a buffer of exactly four bytes per
/// texel; there is a plan for every such image that fits in memory, of a
/// registered pipeline with a set layout, on a queue that can compute.
pub proof fn lemma_plan_buffer_is_exact(
    renderer: Renderer,
    index: usize,
    width: u32,
    height: u32,
    workgroups: WorkgroupCounts,
)
    requires
        width > 0,
        height > 0,
    ensures
        renderer.plan_choice(index, width, height, workgroups) matches Ok(plan) ==> plan.buffer_len
            == 4 * width * height && plan.width == width && plan.height == height,
        renderer.plan_choice(index, width, height, workgroups) is Ok <==> {
            &&& index < renderer.pipelines@.len()
            &&& 4 * width * height <= usize::MAX
            &&& renderer.context.device.queue_supports_compute
            &&& renderer.pipelines@[index as int].set_layout_count > 0
        },
{
}

/// Registering a pipeline changes no plan of a pipeline registered before.
pub proof fn lemma_registration_keeps_plans(
    before: Renderer,
    after: Renderer,
    pipeline: ComputePipeline,
    index: usize,
    width: u32,
    height: u32,
    workgroups: WorkgroupCounts,
)
    requires
        after.context == before.context,
        after.pipelines@ == before.pipelines@.push(pipeline),
        index < before.pipelines@.len(),
    ensures
        after.plan_choice(index, width, height, workgroups) == before.plan_choice(
            index,
            width,
            height,
            workgroups,
        ),
{
}

} // verus!
