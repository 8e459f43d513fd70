//! One compute dispatch with readback: what is allocated, what is recorded
//! into the command buffer and in which order, and how the stages follow
//! each other until the image is written.

use vstd::prelude::*;

verus! {

/// Why a dispatch did not produce its image. Each failing stage has its own
/// value.
#[derive(Clone, Copy, Debug, PartialEq, Eq, Structural)]
pub enum DispatchError {
    NoSuchPipeline,
    EmptyImage,
    ImageTooLarge,
    QueueLacksCompute,
    ImageCreationFailed,
    DescriptorSetFailed,
    BufferAllocationFailed,
    SubmissionFailed,
    WaitFailed,
    ReadbackFailed,
    DecodeFailed,
    EncodeFailed,
    WriteFailed,
}

/// The number of workgroups along each axis.
#[derive(Clone, Copy, Debug, PartialEq, Eq, Structural)]
pub struct WorkgroupCounts {
    pub x: u32,
    pub y: u32,
    pub z: u32,
}

/// One command of the single-use command buffer.
#[derive(Clone, Copy, Debug, PartialEq, Eq, Structural)]
pub enum Command {
    /// Bind the compute pipeline registered at this index.
    BindPipeline(usize),
    /// Bind the descriptor set that exposes the output image at `binding`,
    /// as set `first_set` of the layout of the pipeline registered at index
    /// `pipeline`.
    BindDescriptorSet { pipeline: usize, first_set: u32, binding: u32 },
    /// Run the pipeline over this many workgroups.
    Dispatch(WorkgroupCounts),
    /// Copy the output image into the host-visible buffer.
    CopyImageToBuffer,
}

/// Everything one dispatch is made of, fixed before anything is allocated.
#[derive(Clone, Copy, Debug, PartialEq, Eq, Structural)]
pub struct DispatchPlan {
    pub pipeline_index: usize,
    pub queue_family_index: u32,
    pub width: u32,
    pub height: u32,
    pub workgroups: WorkgroupCounts,
    pub buffer_len: usize,
}

/// The slot at which the output image is bound.
pub const OUTPUT_BINDING: u32 = 0;

/// The descriptor set, among those of a pipeline's layout, that holds the
/// output image.
pub const OUTPUT_SET: u32 = 0;

/// The bytes of a `width` by `height` RGBA8 image.
pub open spec fn rgba8_len(width: u32, height: u32) -> int {
    4 * width * height
}

/// The commands of a plan, in recording order.
pub open spec fn recorded(plan: DispatchPlan) -> Seq<Command> {
    seq![
        Command::BindPipeline(plan.pipeline_index),
        Command::BindDescriptorSet {
            pipeline: plan.pipeline_index,
            first_set: OUTPUT_SET,
            binding: OUTPUT_BINDING,
        },
        Command::Dispatch(plan.workgroups),
        Command::CopyImageToBuffer,
    ]
}

/// The size in bytes of the buffer that takes a `width` by `height` RGBA8
/// image, where `usize` can hold it.
pub fn readback_len(width: u32, height: u32) -> (len: Option<usize>)
    ensures
        match len {
            Some(n) => n == rgba8_len(width, height),
            None => rgba8_len(width, height) > usize::MAX,
        },
{
    assert(width * height <= 0xffff_ffff * 0xffff_ffff) by (nonlinear_arith)
        requires
            width <= 0xffff_ffff,
            height <= 0xffff_ffff,
    ;
    let texels: u64 = (width as u64) * (height as u64);
    assert(4 * width * height == 4 * texels) by (nonlinear_arith)
        requires
            texels == width * height,
    ;
    if texels > (usize::MAX as u64) / 4 {
        return None;
    }
    Some((texels as usize) * 4)
}

impl DispatchPlan {
    /// The commands to record, in order: bind the pipeline, bind the
    /// descriptor set, dispatch, copy the image to the buffer.
    pub fn commands(&self) -> (list: Vec<Command>)
        ensures
            list@ == recorded(*self),
    {
        let mut list: Vec<Command> = Vec::new();
        list.push(Command::BindPipeline(self.pipeline_index));
        list.push(
            Command::BindDescriptorSet {
                pipeline: self.pipeline_index,
                first_set: OUTPUT_SET,
                binding: OUTPUT_BINDING,
            },
        );
        list.push(Command::Dispatch(self.workgroups));
        list.push(Command::CopyImageToBuffer);
        assert(list@ =~= recorded(*self));
        list
    }
}

/// What the host reports after serving a request of a dispatch.
#[derive(Clone, Copy, Debug, PartialEq, Eq, Structural)]
pub enum DispatchReport {
    ImageCreated,
    ImageFailed,
    DescriptorSetCreated,
    DescriptorSetFailed,
    BufferAllocated,
    BufferFailed,
    Submitted,
    SubmissionFailed,
    Completed,
    WaitFailed,
    ReadFailed,
    Written,
    WriteFailed,
}

/// What the host is asked to do next for a dispatch.
#[derive(Clone, Copy, Debug, PartialEq, Eq, Structural)]
pub enum DispatchRequest {
    /// Allocate the RGBA8 output image and a view of it.
    CreateImage { width: u32, height: u32, queue_family_index: u32 },
    /// Build the descriptor set that binds the view at `binding`, against
    /// set layout `set` of the pipeline registered at index `pipeline`.
    CreateDescriptorSet { pipeline: usize, set: u32, binding: u32 },
    /// Allocate the host-visible buffer of `len` bytes.
    AllocateBuffer { len: usize },
    /// Record the plan's commands once and submit them to the queue.
    Submit,
    /// Block until the completion signal fires.
    Wait,
    /// Map the buffer and hand its bytes to `read_back`, or report that it
    /// could not be mapped.
    ReadBuffer,
    /// Write the encoded file that `read_back` returned.
    WriteFile,
    /// Nothing is left to do.
    Finished,
    /// Release what was created and give up with this error.
    Abort(DispatchError),
}

/// The stages of one dispatch. The buffer is read only in `AwaitingReadback`,
/// which follows the completion signal, and a file is written only in
/// `AwaitingWrite`, which follows a successful encoding.
#[derive(Clone, Copy, Debug, PartialEq, Eq, Structural)]
pub enum Dispatch {
    AwaitingImage(DispatchPlan),
    AwaitingDescriptorSet(DispatchPlan),
    AwaitingBuffer(DispatchPlan),
    AwaitingSubmission(DispatchPlan),
    AwaitingCompletion(DispatchPlan),
    AwaitingReadback(DispatchPlan),
    AwaitingWrite(DispatchPlan),
    Done(DispatchPlan),
    Failed(DispatchError),
}

impl Dispatch {
    /// The stage that follows `self` on `report`. A report that does not
    /// answer the pending request changes nothing; `Done` and `Failed` are
    /// final, and the only report that leads out of `AwaitingReadback` is
    /// that the buffer could not be read.
    pub open spec fn next(self, report: DispatchReport) -> Dispatch {
        match (self, report) {
            (Dispatch::AwaitingImage(plan), DispatchReport::ImageCreated) => {
                Dispatch::AwaitingDescriptorSet(plan)
            },
            (Dispatch::AwaitingImage(_), DispatchReport::ImageFailed) => Dispatch::Failed(
                DispatchError::ImageCreationFailed,
            ),
            (Dispatch::AwaitingDescriptorSet(plan), DispatchReport::DescriptorSetCreated) => {
                Dispatch::AwaitingBuffer(plan)
            },
            (Dispatch::AwaitingDescriptorSet(_), DispatchReport::DescriptorSetFailed) => {
                Dispatch::Failed(DispatchError::DescriptorSetFailed)
            },
            (Dispatch::AwaitingBuffer(plan), DispatchReport::BufferAllocated) => {
                Dispatch::AwaitingSubmission(plan)
            },
            (Dispatch::AwaitingBuffer(_), DispatchReport::BufferFailed) => Dispatch::Failed(
                DispatchError::BufferAllocationFailed,
            ),
            (Dispatch::AwaitingSubmission(plan), DispatchReport::Submitted) => {
                Dispatch::AwaitingCompletion(plan)
            },
            (Dispatch::AwaitingSubmission(_), DispatchReport::SubmissionFailed) => {
                Dispatch::Failed(DispatchError::SubmissionFailed)
            },
            (Dispatch::AwaitingCompletion(plan), DispatchReport::Completed) => {
                Dispatch::AwaitingReadback(plan)
            },
            (Dispatch::AwaitingCompletion(_), DispatchReport::WaitFailed) => Dispatch::Failed(
                DispatchError::WaitFailed,
            ),
            (Dispatch::AwaitingReadback(_), DispatchReport::ReadFailed) => Dispatch::Failed(
                DispatchError::ReadbackFailed,
            ),
            (Dispatch::AwaitingWrite(plan), DispatchReport::Written) => Dispatch::Done(plan),
            (Dispatch::AwaitingWrite(_), DispatchReport::WriteFailed) => Dispatch::Failed(
                DispatchError::WriteFailed,
            ),
            (stage, _) => stage,
        }
    }

    /// The request the host has to serve in this stage.
    pub open spec fn pending(self) -> DispatchRequest {
        match self {
            Dispatch::AwaitingImage(plan) => DispatchRequest::CreateImage {
                width: plan.width,
                height: plan.height,
                queue_family_index: plan.queue_family_index,
            },
            Dispatch::AwaitingDescriptorSet(plan) => DispatchRequest::CreateDescriptorSet {
                pipeline: plan.pipeline_index,
                set: OUTPUT_SET,
                binding: OUTPUT_BINDING,
            },
            Dispatch::AwaitingBuffer(plan) => DispatchRequest::AllocateBuffer {
                len: plan.buffer_len,
            },
            Dispatch::AwaitingSubmission(_) => DispatchRequest::Submit,
            Dispatch::AwaitingCompletion(_) => DispatchRequest::Wait,
            Dispatch::AwaitingReadback(_) => DispatchRequest::ReadBuffer,
            Dispatch::AwaitingWrite(_) => DispatchRequest::WriteFile,
            Dispatch::Done(_) => DispatchRequest::Finished,
            Dispatch::Failed(e) => DispatchRequest::Abort(e),
        }
    }

    /// The first stage of a planned dispatch.
    pub fn begin(plan: DispatchPlan) -> (stage: Dispatch)
        ensures
            stage == Dispatch::AwaitingImage(plan),
    {
        Dispatch::AwaitingImage(plan)
    }

    /// Takes the host's report and moves to the next stage.
    pub fn advance(self, report: DispatchReport) -> (stage: Dispatch)
        ensures
            stage == self.next(report),
    {
        match self {
            Dispatch::AwaitingImage(plan) => match report {
                DispatchReport::ImageCreated => Dispatch::AwaitingDescriptorSet(plan),
                DispatchReport::ImageFailed => Dispatch::Failed(
                    DispatchError::ImageCreationFailed,
                ),
                _ => self,
            },
            Dispatch::AwaitingDescriptorSet(plan) => match report {
                DispatchReport::DescriptorSetCreated => Dispatch::AwaitingBuffer(plan),
                DispatchReport::DescriptorSetFailed => Dispatch::Failed(
                    DispatchError::DescriptorSetFailed,
                ),
                _ => self,
            },
            Dispatch::AwaitingBuffer(plan) => match report {
                DispatchReport::BufferAllocated => Dispatch::AwaitingSubmission(plan),
                DispatchReport::BufferFailed => Dispatch::Failed(
                    DispatchError::BufferAllocationFailed,
                ),
                _ => self,
            },
            Dispatch::AwaitingSubmission(plan) => match report {
                DispatchReport::Submitted => Dispatch::AwaitingCompletion(plan),
                DispatchReport::SubmissionFailed => Dispatch::Failed(
                    DispatchError::SubmissionFailed,
                ),
                _ => self,
            },
            Dispatch::AwaitingCompletion(plan) => match report {
                DispatchReport::Completed => Dispatch::AwaitingReadback(plan),
                DispatchReport::WaitFailed => Dispatch::Failed(DispatchError::WaitFailed),
                _ => self,
            },
            Dispatch::AwaitingReadback(_) => match report {
                DispatchReport::ReadFailed => Dispatch::Failed(DispatchError::ReadbackFailed),
                _ => self,
            },
            Dispatch::AwaitingWrite(plan) => match report {
                DispatchReport::Written => Dispatch::Done(plan),
                DispatchReport::WriteFailed => Dispatch::Failed(DispatchError::WriteFailed),
                _ => self,
            },
            _ => self,
        }
    }

    /// The request the host has to serve in this stage.
    pub fn request(&self) -> (r: DispatchRequest)
        ensures
            r == self.pending(),
    {
        match self {
            Dispatch::AwaitingImage(plan) => DispatchRequest::CreateImage {
                width: plan.width,
                height: plan.height,
                queue_family_index: plan.queue_family_index,
            },
            Dispatch::AwaitingDescriptorSet(plan) => DispatchRequest::CreateDescriptorSet {
                pipeline: plan.pipeline_index,
                set: OUTPUT_SET,
                binding: OUTPUT_BINDING,
            },
            Dispatch::AwaitingBuffer(plan) => DispatchRequest::AllocateBuffer {
                len: plan.buffer_len,
            },
            Dispatch::AwaitingSubmission(_) => DispatchRequest::Submit,
            Dispatch::AwaitingCompletion(_) => DispatchRequest::Wait,
            Dispatch::AwaitingReadback(_) => DispatchRequest::ReadBuffer,
            Dispatch::AwaitingWrite(_) => DispatchRequest::WriteFile,
            Dispatch::Done(_) => DispatchRequest::Finished,
            Dispatch::Failed(e) => DispatchRequest::Abort(*e),
        }
    }
}

/// The buffer is read only once the completion signal has fired.
pub proof fn lemma_readback_follows_completion(stage: Dispatch, report: DispatchReport)
    requires
        stage.next(report).pending() == DispatchRequest::ReadBuffer,
    ensures
        stage is AwaitingReadback || (stage is AwaitingCompletion && report
            == DispatchReport::Completed),
{
}

/// No report of the host opens the way to writing a file.
pub proof fn lemma_no_report_allows_write(stage: Dispatch, report: DispatchReport)
    requires
        stage.next(report).pending() == DispatchRequest::WriteFile,
    ensures
        stage is AwaitingWrite,
{
}

/// A final stage stays as it is, whatever is reported.
pub proof fn lemma_final_dispatch_absorbs(stage: Dispatch, report: DispatchReport)
    requires
        stage is Done || stage is Failed,
    ensures
        stage.next(report) == stage,
{
}

/// Each failure report, in the stage it answers, gives an error of its own.
pub proof fn lemma_stage_errors_distinct(plan: DispatchPlan)
    ensures
        Dispatch::AwaitingImage(plan).next(DispatchReport::ImageFailed) == Dispatch::Failed(
            DispatchError::ImageCreationFailed,
        ),
        Dispatch::AwaitingDescriptorSet(plan).next(DispatchReport::DescriptorSetFailed)
            == Dispatch::Failed(DispatchError::DescriptorSetFailed),
        Dispatch::AwaitingBuffer(plan).next(DispatchReport::BufferFailed) == Dispatch::Failed(
            DispatchError::BufferAllocationFailed,
        ),
        Dispatch::AwaitingSubmission(plan).next(DispatchReport::SubmissionFailed)
            == Dispatch::Failed(DispatchError::SubmissionFailed),
        Dispatch::AwaitingCompletion(plan).next(DispatchReport::WaitFailed) == Dispatch::Failed(
            DispatchError::WaitFailed,
        ),
        Dispatch::AwaitingReadback(plan).next(DispatchReport::ReadFailed) == Dispatch::Failed(
            DispatchError::ReadbackFailed,
        ),
        Dispatch::AwaitingWrite(plan).next(DispatchReport::WriteFailed) == Dispatch::Failed(
            DispatchError::WriteFailed,
        ),
{
}

} // verus!
