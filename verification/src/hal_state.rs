//! The state of the renderer between frames and the per-frame state machine.
//!
//! All device work is done by the caller. This module decides: `init` settles
//! adapter, device and swapchain configuration and sizes the ring of frame
//! resources; `draw_triangle_frame` takes the outcome of the step that the
//! caller has just performed and answers with the next step to perform.

use vstd::prelude::*;
use crate::gfx_utils::{
    spec_device, spec_swapchain_config, swapchain_settled, Adapter, CompositeAlpha, DeviceOpening,
    DeviceSelection, Extent2D, GfxUtils, NegotiationError, PresentMode, SurfaceCapabilities,
    SwapchainConfig,
};
use crate::mesh::{DrawPlan, LayoutError, PipelineDesc, UploadPlan};
use crate::pipeline::Pipeline;
use crate::utils::first_match;

verus! {

/// Timeout handed to every blocking device call: none to speak of. A device
/// that hangs therefore hangs the render loop.
pub const NO_TIMEOUT: u64 = u64::MAX;

/// What the caller prefers where the surface leaves a choice.
#[derive(Clone, Debug)]
pub struct HalStateOptions {
    /// Presentation modes, most wanted first.
    pub pm_order: Vec<PresentMode>,
    /// Compositing modes, most wanted first.
    pub ca_order: Vec<CompositeAlpha>,
}

/// The steps of one frame, in the order in which they are taken.
#[derive(Clone, Copy, Debug, PartialEq, Eq, Structural)]
pub enum FrameStep {
    Acquire,
    WaitFence,
    Upload,
    Record,
    Submit,
    Present,
}

/// Where the frame in progress stands. `Idle` is the state between frames.
#[derive(Clone, Copy, Debug, PartialEq, Eq, Structural)]
pub enum FrameStage {
    Idle,
    Acquiring,
    Waiting,
    Uploading,
    Recording,
    Submitting,
    Presenting,
}

/// What went wrong in a step.
#[derive(Clone, Copy, Debug, PartialEq, Eq, Structural)]
pub enum FrameFault {
    /// The surface changed and the swapchain no longer fits it.
    SwapchainOutOfDate,
    /// The swapchain still presents, but no longer matches the surface well.
    SwapchainSuboptimal,
    /// The swapchain handed out an image for which no frame resources exist.
    ImageOutOfRange,
    /// A frame was started before any vertex buffer was set.
    MissingVertexBuffer,
    /// More objects than the instance array holds.
    TooManyObjects,
    /// More lights than the uniform arguments hold.
    TooManyLights,
    /// The device refused or failed the work of the step.
    DeviceFailure,
    /// The caller reported something other than the outcome of the step that
    /// it had been told to perform.
    OutOfOrder,
}

/// A frame that did not reach presentation. Whatever the fault, the way back
/// is to tear the swapchain and its frame resources down and to rebuild them
/// from the surface's capabilities as they are now.
#[derive(Clone, Copy, Debug, PartialEq, Eq, Structural)]
pub struct FrameError {
    pub step: FrameStep,
    pub fault: FrameFault,
}

/// What the caller reports to the state machine.
#[derive(Clone, Copy, Debug, PartialEq, Eq, Structural)]
pub enum FrameEvent {
    /// A new frame is wanted, with this many objects and lights in it.
    Tick { objects: usize, lights: usize },
    /// The swapchain handed out the image with this index.
    ImageAcquired(u32),
    /// The fence was waited for and reset.
    FenceSignaled,
    /// This frame's data was written.
    Uploaded,
    /// The command buffer was recorded.
    Recorded,
    /// The command buffer was handed to the graphics queue.
    Submitted,
    /// The image was queued for presentation; `suboptimal` as the swapchain
    /// reported it.
    Presented { suboptimal: bool },
    /// The step could not be performed.
    Failed(FrameFault),
}

/// What the caller is to do next. Fences, command buffers and framebuffers are
/// named by swapchain image, semaphores by frame slot.
#[derive(Clone, Copy, Debug, PartialEq, Eq, Structural)]
pub enum FrameAction {
    /// Acquire the next image; have the slot's image-available semaphore
    /// signalled when it is ready.
    AcquireImage { timeout_ns: u64, signal_semaphore: usize },
    /// Block until the fence signals that the image's previous submission has
    /// completed, then reset the fence.
    WaitAndResetFence { fence: usize, timeout_ns: u64 },
    /// Write this frame's data. The vertex buffer holds `bundle_size` bytes.
    /// Where a frame buffer is laid out, `plan` says what goes where in the
    /// region of frame resource `slot`.
    Upload { slot: usize, bundle_size: usize, plan: Option<UploadPlan> },
    /// Record the command buffer: one render pass over `render_area` into the
    /// framebuffer. Where a frame buffer is laid out, `draw` says what to bind
    /// and to draw.
    Record {
        command_buffer: usize,
        framebuffer: usize,
        render_area: Extent2D,
        draw: Option<DrawPlan>,
    },
    /// Submit the command buffer, waiting on `wait_semaphore` at the colour
    /// attachment output stage, signalling `signal_semaphore` and `fence`.
    Submit { command_buffer: usize, wait_semaphore: usize, signal_semaphore: usize, fence: usize },
    /// Present the image once `wait_semaphore` is signalled.
    Present { image: u32, wait_semaphore: usize },
    /// The frame is on its way to the display; nothing to do until the next
    /// tick.
    Finished,
}

/// What the renderer holds of the device layer, in the order in which it is
/// acquired.
#[derive(Clone, Copy, Debug, PartialEq, Eq, Structural)]
pub enum Resource {
    Instance,
    Surface,
    Device,
    Swapchain,
    RenderPass,
    ImageViews,
    Framebuffers,
    CommandPool,
    CommandBuffers,
}

/// The order in which the renderer's resources are acquired. Each is created
/// from those before it.
pub open spec fn acquisition_order() -> Seq<Resource> {
    seq![
        Resource::Instance,
        Resource::Surface,
        Resource::Device,
        Resource::Swapchain,
        Resource::RenderPass,
        Resource::ImageViews,
        Resource::Framebuffers,
        Resource::CommandPool,
        Resource::CommandBuffers,
    ]
}

/// The order in which the renderer's resources are to be released: strictly
/// the reverse of their acquisition, so that nothing is destroyed while
/// something made from it still exists.
pub fn teardown_order() -> (r: Vec<Resource>)
    ensures
        r@ == acquisition_order().reverse(),
{
    let order = vec![
        Resource::CommandBuffers,
        Resource::CommandPool,
        Resource::Framebuffers,
        Resource::ImageViews,
        Resource::RenderPass,
        Resource::Swapchain,
        Resource::Device,
        Resource::Surface,
        Resource::Instance,
    ];
    assert(order@ =~= acquisition_order().reverse());
    order
}

/// The vertex buffer could not be allocated.
#[derive(Clone, Copy, Debug, PartialEq, Eq, Structural)]
pub struct BufferUnavailable;

/// The renderer's state as the contracts see it.
pub struct HalStateView {
    /// Frames begun since the renderer was first initialised.
    pub frame_counter: nat,
    /// For each fence, whether work submitted with it is still outstanding.
    /// There are as many fences as frames in flight, all signalled at first.
    pub in_flight: Seq<bool>,
    /// Number of swapchain images, each with its framebuffer and command
    /// buffer.
    pub image_count: u32,
    pub stage: FrameStage,
    /// Frame slot whose semaphores the frame in progress uses.
    pub semaphore: usize,
    /// Image that the frame in progress renders to.
    pub image: u32,
    /// Size of the vertex buffer, once one is set.
    pub vertices: Option<usize>,
    /// The frame buffer's layout, once one is set: a region and a descriptor
    /// set for each fence.
    pub frame_data: Option<crate::mesh::Pipeline>,
    /// Number of objects in the frame in progress.
    pub objects: usize,
    /// Number of lights in the frame in progress.
    pub lights: usize,
    pub config: SwapchainConfig,
    /// Position of the adapter in use among those that were offered.
    pub adapter: usize,
    pub device: DeviceSelection,
    pub pipeline: Pipeline,
}

impl HalStateView {
    /// Number of frames that may be in flight at once.
    pub open spec fn frames_in_flight(self) -> nat {
        self.in_flight.len()
    }

    /// The frame in progress has an image, and frame resources exist for it.
    pub open spec fn image_valid(self) -> bool {
        self.image < self.image_count && self.image < self.in_flight.len()
    }

    /// There is at least one fence, and as many as images were asked for; the
    /// frame in progress uses semaphores and an image that exist; between the
    /// fence wait and the submission nothing of the image's slot is in flight;
    /// and a frame buffer, once laid out, has a region for every fence.
    pub open spec fn wf(self) -> bool {
        &&& self.in_flight.len() >= 1
        &&& self.in_flight.len() == self.config.image_count
        &&& self.stage != FrameStage::Idle ==> self.semaphore < self.in_flight.len()
        &&& self.stage != FrameStage::Idle && self.stage != FrameStage::Acquiring
            ==> self.image_valid()
        &&& (self.stage == FrameStage::Uploading || self.stage == FrameStage::Recording
            || self.stage == FrameStage::Submitting) ==> !self.in_flight[self.image as int]
        &&& self.frame_data matches Some(data) ==> data.wf() && data.frames
            == self.in_flight.len()
    }

    /// What the upload of the frame in progress comes to: nothing to plan
    /// where no frame buffer is laid out, else the plan for the acquired
    /// image's slot, or the refusal of a frame that holds more than the slot
    /// was sized for.
    pub open spec fn upload(self) -> Result<Option<UploadPlan>, FrameFault> {
        match self.frame_data {
            None => Ok(None),
            Some(data) => if self.objects > data.max_objects {
                Err(FrameFault::TooManyObjects)
            } else if self.lights > data.max_lights {
                Err(FrameFault::TooManyLights)
            } else {
                Ok(Some(data.upload_plan(self.image as int, self.objects as int)))
            },
        }
    }

    /// What the frame in progress draws, where a frame buffer is laid out.
    pub open spec fn draw(self) -> Option<DrawPlan> {
        match self.frame_data {
            None => None,
            Some(data) => Some(data.draw_plan(self.image as int)),
        }
    }

    /// The state in which a frame ends, whether it reached presentation or not.
    pub open spec fn idle(self) -> Self {
        HalStateView { stage: FrameStage::Idle, ..self }
    }

    /// The failure of the step in progress.
    pub open spec fn fail(self, fault: FrameFault) -> (Self, Result<FrameAction, FrameError>) {
        (self.idle(), Err(FrameError { step: step_of(self.stage), fault }))
    }
}

/// The step that is in progress at `stage`; between frames, the step that
/// comes next.
pub open spec fn step_of(stage: FrameStage) -> FrameStep {
    match stage {
        FrameStage::Idle => FrameStep::Acquire,
        FrameStage::Acquiring => FrameStep::Acquire,
        FrameStage::Waiting => FrameStep::WaitFence,
        FrameStage::Uploading => FrameStep::Upload,
        FrameStage::Recording => FrameStep::Record,
        FrameStage::Submitting => FrameStep::Submit,
        FrameStage::Presenting => FrameStep::Present,
    }
}

/// One transition of the frame state machine: the state after `event` and the
/// answer to the caller.
///
/// A frame runs `Idle`, `Acquiring`, `Waiting`, `Uploading`, `Recording`,
/// `Submitting`, `Presenting` and back to `Idle`. The semaphores are those of
/// frame slot `frame_counter mod frames_in_flight`; fence, command buffer and
/// data region are those of the acquired image. The fence wait comes before the
/// upload, so the data of a slot is never overwritten while the device may still
/// read it. A frame without a vertex buffer, or with more objects or lights
/// than its slot holds, fails in the upload step. A reported failure, or an
/// event that is not the outcome of the step in progress, ends the frame with an
/// error that names the step.
pub open spec fn spec_step(v: HalStateView, event: FrameEvent) -> (
    HalStateView,
    Result<FrameAction, FrameError>,
) {
    match (v.stage, event) {
        (FrameStage::Idle, FrameEvent::Tick { objects, lights }) => {
            let semaphore = (v.frame_counter % v.frames_in_flight()) as usize;
            (
                HalStateView {
                    stage: FrameStage::Acquiring,
                    semaphore,
                    objects,
                    lights,
                    frame_counter: v.frame_counter + 1,
                    ..v
                },
                Ok(FrameAction::AcquireImage { timeout_ns: NO_TIMEOUT, signal_semaphore: semaphore }),
            )
        },
        (FrameStage::Acquiring, FrameEvent::ImageAcquired(image)) => {
            if image < v.image_count && image < v.in_flight.len() {
                (
                    HalStateView { stage: FrameStage::Waiting, image, ..v },
                    Ok(
                        FrameAction::WaitAndResetFence {
                            fence: image as usize,
                            timeout_ns: NO_TIMEOUT,
                        },
                    ),
                )
            } else {
                v.fail(FrameFault::ImageOutOfRange)
            }
        },
        (FrameStage::Waiting, FrameEvent::FenceSignaled) => {
            let retired = HalStateView { in_flight: v.in_flight.update(v.image as int, false), ..v };
            match v.vertices {
                Some(bundle_size) => match v.upload() {
                    Ok(plan) => (
                        HalStateView { stage: FrameStage::Uploading, ..retired },
                        Ok(FrameAction::Upload { slot: v.image as usize, bundle_size, plan }),
                    ),
                    Err(fault) => (
                        retired.idle(),
                        Err(FrameError { step: FrameStep::Upload, fault }),
                    ),
                },
                None => (
                    retired.idle(),
                    Err(
                        FrameError {
                            step: FrameStep::Upload,
                            fault: FrameFault::MissingVertexBuffer,
                        },
                    ),
                ),
            }
        },
        (FrameStage::Uploading, FrameEvent::Uploaded) => (
            HalStateView { stage: FrameStage::Recording, ..v },
            Ok(
                FrameAction::Record {
                    command_buffer: v.image as usize,
                    framebuffer: v.image as usize,
                    render_area: v.config.extent,
                    draw: v.draw(),
                },
            ),
        ),
        (FrameStage::Recording, FrameEvent::Recorded) => (
            HalStateView { stage: FrameStage::Submitting, ..v },
            Ok(
                FrameAction::Submit {
                    command_buffer: v.image as usize,
                    wait_semaphore: v.semaphore,
                    signal_semaphore: v.semaphore,
                    fence: v.image as usize,
                },
            ),
        ),
        (FrameStage::Submitting, FrameEvent::Submitted) => (
            HalStateView {
                stage: FrameStage::Presenting,
                in_flight: v.in_flight.update(v.image as int, true),
                ..v
            },
            Ok(FrameAction::Present { image: v.image, wait_semaphore: v.semaphore }),
        ),
        (FrameStage::Presenting, FrameEvent::Presented { suboptimal }) => {
            if suboptimal {
                v.fail(FrameFault::SwapchainSuboptimal)
            } else {
                (v.idle(), Ok(FrameAction::Finished))
            }
        },
        (FrameStage::Idle, _) => v.fail(FrameFault::OutOfOrder),
        (_, FrameEvent::Failed(fault)) => v.fail(fault),
        _ => v.fail(FrameFault::OutOfOrder),
    }
}

/// The stage that follows `stage` in a frame that goes well.
pub open spec fn successor(stage: FrameStage) -> FrameStage {
    match stage {
        FrameStage::Idle => FrameStage::Acquiring,
        FrameStage::Acquiring => FrameStage::Waiting,
        FrameStage::Waiting => FrameStage::Uploading,
        FrameStage::Uploading => FrameStage::Recording,
        FrameStage::Recording => FrameStage::Submitting,
        FrameStage::Submitting => FrameStage::Presenting,
        FrameStage::Presenting => FrameStage::Idle,
    }
}

/// The action that is the caller's to perform at `stage`.
pub open spec fn performs(stage: FrameStage, action: FrameAction) -> bool {
    match stage {
        FrameStage::Idle => action is Finished,
        FrameStage::Acquiring => action is AcquireImage,
        FrameStage::Waiting => action is WaitAndResetFence,
        FrameStage::Uploading => action is Upload,
        FrameStage::Recording => action is Record,
        FrameStage::Submitting => action is Submit,
        FrameStage::Presenting => action is Present,
    }
}

/// The steps of a frame are taken strictly one after the other: a transition
/// that goes well leads to the next stage and answers with that stage's
/// action, so that within a frame the fence wait comes before the upload, the
/// upload before the recording, the recording before the submission and the
/// submission before the presentation. A transition that fails ends the frame.
/// The frame counter goes up by one where a frame begins and stays otherwise.
pub proof fn lemma_steps_in_order(v: HalStateView, event: FrameEvent)
    ensures
        spec_step(v, event).1 matches Ok(action) ==> spec_step(v, event).0.stage == successor(
            v.stage,
        ) && performs(spec_step(v, event).0.stage, action),
        spec_step(v, event).1 is Err ==> spec_step(v, event).0.stage == FrameStage::Idle,
        spec_step(v, event).0.frame_counter == if v.stage == FrameStage::Idle && event is Tick {
            v.frame_counter + 1
        } else {
            v.frame_counter
        },
{
}

/// Number of fences with outstanding work: the frames that are in flight.
pub open spec fn count_in_flight(flags: Seq<bool>) -> nat
    decreases flags.len(),
{
    if flags.len() == 0 {
        0
    } else {
        count_in_flight(flags.drop_last()) + if flags.last() {
            1nat
        } else {
            0nat
        }
    }
}

/// The state after a run of events.
pub open spec fn run(v: HalStateView, events: Seq<FrameEvent>) -> HalStateView
    decreases events.len(),
{
    if events.len() == 0 {
        v
    } else {
        run(spec_step(v, events.first()).0, events.drop_first())
    }
}

/// No more frames are in flight than there are fences.
pub proof fn lemma_count_bounded(flags: Seq<bool>)
    ensures
        count_in_flight(flags) <= flags.len(),
    decreases flags.len(),
{
    if flags.len() > 0 {
        lemma_count_bounded(flags.drop_last());
    }
}

/// Every transition keeps the state well formed, changes neither the number of
/// fences nor the swapchain, and never lets the frame counter go back.
pub proof fn lemma_step_preserves(v: HalStateView, event: FrameEvent)
    requires
        v.wf(),
    ensures
        spec_step(v, event).0.wf(),
        spec_step(v, event).0.frames_in_flight() == v.frames_in_flight(),
        spec_step(v, event).0.config == v.config,
        spec_step(v, event).0.frame_counter >= v.frame_counter,
{
    let semaphore = v.frame_counter % v.frames_in_flight();
    assert(0 <= semaphore < v.frames_in_flight()) by (nonlinear_arith)
        requires
            v.frames_in_flight() >= 1,
            semaphore == v.frame_counter % v.frames_in_flight(),
    ;
}

/// Backpressure: whatever the caller reports, and however long the run, the
/// number of frames in flight never exceeds the number of frames in flight that
/// the renderer was set up for.
pub proof fn lemma_backpressure(v: HalStateView, events: Seq<FrameEvent>)
    requires
        v.wf(),
    ensures
        run(v, events).wf(),
        run(v, events).frames_in_flight() == v.frames_in_flight(),
        count_in_flight(run(v, events).in_flight) <= v.frames_in_flight(),
        run(v, events).frame_counter >= v.frame_counter,
    decreases events.len(),
{
    if events.len() == 0 {
        lemma_count_bounded(v.in_flight);
    } else {
        lemma_step_preserves(v, events.first());
        lemma_backpressure(spec_step(v, events.first()).0, events.drop_first());
    }
}

/// Work is only ever submitted with a fence whose earlier work has completed:
/// the frame that a submission puts in flight is one more than were in flight
/// before, and the data upload and the recording of a slot happen only while
/// nothing of that slot is in flight.
pub proof fn lemma_submit_after_wait(v: HalStateView, event: FrameEvent)
    requires
        v.wf(),
    ensures
        spec_step(v, event).1 matches Ok(FrameAction::Upload { slot, .. }) ==> !spec_step(
            v,
            event,
        ).0.in_flight[slot as int],
        spec_step(v, event).1 matches Ok(FrameAction::Record { command_buffer, .. })
            ==> !spec_step(v, event).0.in_flight[command_buffer as int],
        spec_step(v, event).1 matches Ok(FrameAction::Submit { fence, .. }) ==> !spec_step(
            v,
            event,
        ).0.in_flight[fence as int],
        spec_step(v, event).1 matches Ok(FrameAction::Present { .. }) ==> count_in_flight(
            spec_step(v, event).0.in_flight,
        ) == count_in_flight(v.in_flight) + 1,
{
    if v.stage == FrameStage::Submitting && event == FrameEvent::Submitted {
        lemma_count_update(v.in_flight, v.image as int);
    }
}

/// Setting one clear flag raises the count by one.
proof fn lemma_count_update(flags: Seq<bool>, index: int)
    requires
        0 <= index < flags.len(),
        !flags[index],
    ensures
        count_in_flight(flags.update(index, true)) == count_in_flight(flags) + 1,
    decreases flags.len(),
{
    let updated = flags.update(index, true);
    if index == flags.len() - 1 {
        assert(updated.drop_last() == flags.drop_last());
    } else {
        assert(updated.drop_last() == flags.drop_last().update(index, true));
        lemma_count_update(flags.drop_last(), index);
    }
}

/// What `init` settles before any frame resource exists: the adapter, the
/// device opened on it and the swapchain configuration that `caps`, the
/// surface's capabilities on that adapter, allow; or the first failure on the
/// way.
pub open spec fn spec_negotiation(
    adapters: Seq<Adapter>,
    caps: SurfaceCapabilities,
    window_client_area: Option<Extent2D>,
    opening: DeviceOpening,
    pm_order: Seq<PresentMode>,
    ca_order: Seq<CompositeAlpha>,
) -> Result<(usize, DeviceSelection, SwapchainConfig), NegotiationError> {
    match first_match(adapters, |a: Adapter| a.suitable()) {
        None => Err(NegotiationError::NoSuitableAdapter),
        Some(i) => match spec_device(adapters[i], opening) {
            Err(e) => Err(e),
            Ok(device) => match spec_swapchain_config(caps, window_client_area, pm_order, ca_order) {
                Err(e) => Err(e),
                Ok(config) => Ok((i as usize, device, config)),
            },
        },
    }
}

/// Every choice of the negotiation can be settled: an adapter is suitable, its
/// device opened with a queue, and the swapchain configuration can be settled.
pub open spec fn negotiation_settled(
    adapters: Seq<Adapter>,
    caps: SurfaceCapabilities,
    window_client_area: Option<Extent2D>,
    opening: DeviceOpening,
    pm_order: Seq<PresentMode>,
    ca_order: Seq<CompositeAlpha>,
) -> bool {
    &&& first_match(adapters, |a: Adapter| a.suitable()) matches Some(i)
    &&& spec_device(adapters[i], opening) is Ok
    &&& swapchain_settled(caps, window_client_area, pm_order, ca_order)
}

/// The state right after the frame resources were created: between frames,
/// every fence signalled, no vertex buffer yet.
pub open spec fn fresh_state(
    negotiated: (usize, DeviceSelection, SwapchainConfig),
    backbuffer_images: u32,
    pipeline: Pipeline,
    frame_counter: nat,
) -> HalStateView {
    HalStateView {
        frame_counter,
        in_flight: Seq::new(negotiated.2.image_count as nat, |i: int| false),
        image_count: backbuffer_images,
        stage: FrameStage::Idle,
        semaphore: 0,
        image: 0,
        vertices: None,
        frame_data: None,
        objects: 0,
        lights: 0,
        config: negotiated.2,
        adapter: negotiated.0,
        device: negotiated.1,
        pipeline,
    }
}

/// Where the negotiation can be settled, the image-count range reaches far
/// enough for one image to be in flight: its upper end, which is never asked
/// for itself, is at least 2. Nothing is asked of capabilities that the
/// negotiation never comes to use.
pub open spec fn image_counts_usable(
    adapters: Seq<Adapter>,
    caps: SurfaceCapabilities,
    window_client_area: Option<Extent2D>,
    opening: DeviceOpening,
    pm_order: Seq<PresentMode>,
    ca_order: Seq<CompositeAlpha>,
) -> bool {
    negotiation_settled(adapters, caps, window_client_area, opening, pm_order, ca_order)
        ==> caps.image_count_max >= 2
}

/// A copy of `flags` with the flag at `index` set to `value`.
fn with_flag(flags: &Vec<bool>, index: usize, value: bool) -> (r: Vec<bool>)
    requires
        index < flags@.len(),
    ensures
        r@ == flags@.update(index as int, value),
{
    let mut updated: Vec<bool> = Vec::new();
    let mut i: usize = 0;
    while i < flags.len()
        invariant
            i <= flags.len(),
            index < flags@.len(),
            updated@ == flags@.update(index as int, value).take(i as int),
        decreases flags.len() - i,
    {
        updated.push(if i == index {
            value
        } else {
            flags[i]
        });
        assert(flags@.update(index as int, value).take(i + 1) == flags@.update(
            index as int,
            value,
        ).take(i as int).push(flags@.update(index as int, value)[i as int]));
        i += 1;
    }
    assert(flags@.update(index as int, value).take(i as int) == flags@.update(index as int, value));
    updated
}

/// The renderer's state: what was negotiated, the ring of frame resources and
/// the frame in progress.
pub struct GenericHalState {
    frame_counter: u64,
    in_flight: Vec<bool>,
    image_count: u32,
    stage: FrameStage,
    semaphore: usize,
    image: u32,
    vertices: Option<usize>,
    frame_data: Option<crate::mesh::Pipeline>,
    objects: usize,
    lights: usize,
    config: SwapchainConfig,
    adapter: usize,
    device: DeviceSelection,
    pipeline: Pipeline,
}

/// The renderer's state on the one backend that the program is built for.
pub type HalState = GenericHalState;

impl View for GenericHalState {
    type V = HalStateView;

    closed spec fn view(&self) -> HalStateView {
        HalStateView {
            frame_counter: self.frame_counter as nat,
            in_flight: self.in_flight@,
            image_count: self.image_count,
            stage: self.stage,
            semaphore: self.semaphore,
            image: self.image,
            vertices: self.vertices,
            frame_data: self.frame_data,
            objects: self.objects,
            lights: self.lights,
            config: self.config,
            adapter: self.adapter,
            device: self.device,
            pipeline: self.pipeline,
        }
    }
}

impl GenericHalState {
    #[verifier::type_invariant]
    spec fn well_formed(self) -> bool {
        self@.wf()
    }

    fn negotiate(
        adapters: &Vec<Adapter>,
        capabilities: &SurfaceCapabilities,
        window_client_area: Option<Extent2D>,
        opening: DeviceOpening,
        opt: &HalStateOptions,
    ) -> (r: Result<(usize, DeviceSelection, SwapchainConfig), NegotiationError>)
        requires
            image_counts_usable(
                adapters@,
                *capabilities,
                window_client_area,
                opening,
                opt.pm_order@,
                opt.ca_order@,
            ),
        ensures
            r == spec_negotiation(
                adapters@,
                *capabilities,
                window_client_area,
                opening,
                opt.pm_order@,
                opt.ca_order@,
            ),
            r is Ok <==> negotiation_settled(
                adapters@,
                *capabilities,
                window_client_area,
                opening,
                opt.pm_order@,
                opt.ca_order@,
            ),
            r matches Ok(n) ==> n.2.image_count >= 1,
    {
        let adapter = match GfxUtils::pick_adapter(adapters) {
            Ok(adapter) => adapter,
            Err(e) => {
                return Err(e);
            },
        };
        let device = match GfxUtils::get_device(&adapters[adapter], opening) {
            Ok(device) => device,
            Err(e) => {
                return Err(e);
            },
        };
        let config = match GfxUtils::get_swapchain(
            capabilities,
            window_client_area,
            &opt.pm_order,
            &opt.ca_order,
        ) {
            Ok(config) => config,
            Err(e) => {
                return Err(e);
            },
        };
        Ok((adapter, device, config))
    }

    fn assemble(
        negotiated: (usize, DeviceSelection, SwapchainConfig),
        backbuffer_images: u32,
        pipeline: Pipeline,
        frame_counter: u64,
    ) -> (r: Self)
        requires
            negotiated.2.image_count >= 1,
        ensures
            r@ == fresh_state(negotiated, backbuffer_images, pipeline, frame_counter as nat),
            r@.wf(),
    {
        let mut in_flight: Vec<bool> = Vec::new();
        let mut i: u32 = 0;
        while i < negotiated.2.image_count
            invariant
                i <= negotiated.2.image_count,
                in_flight@.len() == i,
                forall|j: int| 0 <= j < i ==> !in_flight@[j],
            decreases negotiated.2.image_count - i,
        {
            in_flight.push(false);
            i += 1;
        }
        assert(in_flight@ == Seq::new(negotiated.2.image_count as nat, |i: int| false));
        GenericHalState {
            frame_counter,
            in_flight,
            image_count: backbuffer_images,
            stage: FrameStage::Idle,
            semaphore: 0,
            image: 0,
            vertices: None,
            frame_data: None,
            objects: 0,
            lights: 0,
            config: negotiated.2,
            adapter: negotiated.0,
            device: negotiated.1,
            pipeline,
        }
    }

    /// Sets the renderer up. Picks the first suitable adapter, judges the
    /// opening of its device, settles the swapchain configuration from
    /// `capabilities`, which are what the surface supports on that adapter, and
    /// sizes the ring of frame resources: one fence and one pair of semaphores
    /// for each image asked for, every fence signalled so that the first frames
    /// do not block, and one command buffer for each of the `backbuffer_images`
    /// that the swapchain really has.
    pub fn init(
        adapters: &Vec<Adapter>,
        capabilities: &SurfaceCapabilities,
        window_client_area: Option<Extent2D>,
        opening: DeviceOpening,
        backbuffer_images: u32,
        pipeline: Pipeline,
        opt: &HalStateOptions,
    ) -> (r: Result<Self, NegotiationError>)
        requires
            image_counts_usable(
                adapters@,
                *capabilities,
                window_client_area,
                opening,
                opt.pm_order@,
                opt.ca_order@,
            ),
        ensures
            match spec_negotiation(
                adapters@,
                *capabilities,
                window_client_area,
                opening,
                opt.pm_order@,
                opt.ca_order@,
            ) {
                Ok(negotiated) => r matches Ok(state) && state@ == fresh_state(
                    negotiated,
                    backbuffer_images,
                    pipeline,
                    0,
                ),
                Err(e) => r matches Err(error) && error == e,
            },
            r is Ok <==> negotiation_settled(
                adapters@,
                *capabilities,
                window_client_area,
                opening,
                opt.pm_order@,
                opt.ca_order@,
            ),
            r matches Ok(state) ==> state@.wf(),
    {
        match Self::negotiate(adapters, capabilities, window_client_area, opening, opt) {
            Ok(negotiated) => Ok(Self::assemble(negotiated, backbuffer_images, pipeline, 0)),
            Err(e) => Err(e),
        }
    }

    /// Tears the swapchain and its frame resources down and sets them up anew
    /// from the surface's capabilities as they are now, as `init` does. The
    /// frame counter goes on where it was.
    pub fn rebuild(
        self,
        adapters: &Vec<Adapter>,
        capabilities: &SurfaceCapabilities,
        window_client_area: Option<Extent2D>,
        opening: DeviceOpening,
        backbuffer_images: u32,
        pipeline: Pipeline,
        opt: &HalStateOptions,
    ) -> (r: Result<Self, NegotiationError>)
        requires
            image_counts_usable(
                adapters@,
                *capabilities,
                window_client_area,
                opening,
                opt.pm_order@,
                opt.ca_order@,
            ),
        ensures
            match spec_negotiation(
                adapters@,
                *capabilities,
                window_client_area,
                opening,
                opt.pm_order@,
                opt.ca_order@,
            ) {
                Ok(negotiated) => r matches Ok(state) && state@ == fresh_state(
                    negotiated,
                    backbuffer_images,
                    pipeline,
                    self@.frame_counter,
                ),
                Err(e) => r matches Err(error) && error == e,
            },
            r is Ok <==> negotiation_settled(
                adapters@,
                *capabilities,
                window_client_area,
                opening,
                opt.pm_order@,
                opt.ca_order@,
            ),
            r matches Ok(state) ==> state@.wf(),
    {
        match Self::negotiate(adapters, capabilities, window_client_area, opening, opt) {
            Ok(negotiated) => Ok(
                Self::assemble(negotiated, backbuffer_images, pipeline, self.frame_counter),
            ),
            Err(e) => Err(e),
        }
    }

    /// Records the vertex buffer of `size` bytes that the caller has tried to
    /// allocate. Where the allocation failed, nothing changes.
    pub fn set_buffer_bundle(&mut self, size: usize, allocated: bool) -> (r: Result<
        (),
        BufferUnavailable,
    >)
        ensures
            allocated ==> r is Ok && final(self)@ == (HalStateView {
                vertices: Some(size),
                ..old(self)@
            }),
            !allocated ==> r is Err && final(self)@ == old(self)@,
    {
        if allocated {
            proof {
                use_type_invariant(&*self);
            }
            self.vertices = Some(size);
            Ok(())
        } else {
            Err(BufferUnavailable)
        }
    }

    /// Lays the frame buffer out for as many frame slots as there are fences,
    /// on a device with offset alignment `align`, for a mesh of `index_count`
    /// indices. Where it cannot be laid out, nothing changes.
    pub fn set_frame_data(&mut self, desc: PipelineDesc, align: u64, index_count: u32) -> (r:
        Result<(), LayoutError>)
        ensures
            r is Ok <==> desc.buildable(old(self)@.frames_in_flight() as int, align),
            r matches Err(e) ==> (e == LayoutError::ZeroAlignment <==> align == 0) && final(self)@
                == old(self)@,
            r is Ok ==> {
                &&& final(self)@.frame_data matches Some(data)
                &&& data.wf()
                &&& data.layout == desc.layout(align)
                &&& data.frames == old(self)@.frames_in_flight()
                &&& data.model_size == desc.model_size
                &&& data.max_objects == desc.max_objects
                &&& data.max_lights == desc.max_lights
                &&& data.index_count == index_count
                &&& final(self)@ == (HalStateView {
                    frame_data: final(self)@.frame_data,
                    ..old(self)@
                })
            },
    {
        proof {
            use_type_invariant(&*self);
        }
        match desc.build(self.config.image_count, align, index_count) {
            Ok(data) => {
                self.frame_data = Some(data);
                Ok(())
            },
            Err(e) => Err(e),
        }
    }

    /// The frame buffer's layout, once one is set.
    pub fn frame_data(&self) -> (r: &Option<crate::mesh::Pipeline>)
        ensures
            *r == self@.frame_data,
    {
        &self.frame_data
    }

    /// Frames begun since the renderer was first initialised.
    pub fn frame_counter(&self) -> (r: u64)
        ensures
            r == self@.frame_counter,
    {
        self.frame_counter
    }

    /// Frame slot whose semaphores the next frame will use.
    pub fn current_frame(&self) -> (r: usize)
        ensures
            r == self@.frame_counter % self@.frames_in_flight(),
    {
        proof {
            use_type_invariant(self);
        }
        (self.frame_counter % (self.in_flight.len() as u64)) as usize
    }

    /// Number of frames that may be in flight at once.
    pub fn frames_in_flight(&self) -> (r: u32)
        ensures
            r == self@.frames_in_flight(),
            r >= 1,
    {
        proof {
            use_type_invariant(self);
        }
        self.config.image_count
    }

    /// Number of frames that are in flight now.
    pub fn frames_pending(&self) -> (r: usize)
        ensures
            r == count_in_flight(self@.in_flight),
            r <= self@.frames_in_flight(),
    {
        let mut count: usize = 0;
        let mut i: usize = 0;
        while i < self.in_flight.len()
            invariant
                i <= self.in_flight.len(),
                count == count_in_flight(self.in_flight@.take(i as int)),
                count <= i,
            decreases self.in_flight.len() - i,
        {
            proof {
                assert(self.in_flight@.take(i + 1).drop_last() == self.in_flight@.take(i as int));
            }
            if self.in_flight[i] {
                count += 1;
            }
            i += 1;
        }
        assert(self.in_flight@.take(i as int) == self.in_flight@);
        count
    }

    /// Number of swapchain images.
    pub fn image_count(&self) -> (r: u32)
        ensures
            r == self@.image_count,
    {
        self.image_count
    }

    /// Where the frame in progress stands.
    pub fn stage(&self) -> (r: FrameStage)
        ensures
            r == self@.stage,
    {
        self.stage
    }

    /// The swapchain configuration in use.
    pub fn config(&self) -> (r: SwapchainConfig)
        ensures
            r == self@.config,
    {
        self.config
    }

    /// The area that every frame renders to: the whole swapchain extent.
    pub fn render_area(&self) -> (r: Extent2D)
        ensures
            r == self@.config.extent,
    {
        self.config.extent
    }

    /// Position of the adapter in use among those that were offered.
    pub fn adapter(&self) -> (r: usize)
        ensures
            r == self@.adapter,
    {
        self.adapter
    }

    /// The queue family and queue count of the device in use.
    pub fn device(&self) -> (r: DeviceSelection)
        ensures
            r == self@.device,
    {
        self.device
    }

    /// The pipeline that every frame is recorded with.
    pub fn pipeline(&self) -> (r: &Pipeline)
        ensures
            *r == self@.pipeline,
    {
        &self.pipeline
    }

    fn fail(&mut self, fault: FrameFault) -> (r: Result<FrameAction, FrameError>)
        ensures
            (final(self)@, r) == old(self)@.fail(fault),
    {
        proof {
            use_type_invariant(&*self);
        }
        let step = match self.stage {
            FrameStage::Idle => FrameStep::Acquire,
            FrameStage::Acquiring => FrameStep::Acquire,
            FrameStage::Waiting => FrameStep::WaitFence,
            FrameStage::Uploading => FrameStep::Upload,
            FrameStage::Recording => FrameStep::Record,
            FrameStage::Submitting => FrameStep::Submit,
            FrameStage::Presenting => FrameStep::Present,
        };
        self.stage = FrameStage::Idle;
        Err(FrameError { step, fault })
    }

    /// Advances the frame in progress by one step: takes what the caller
    /// reports and answers with what to do next, or with the error that ends
    /// the frame.
    pub fn draw_triangle_frame(&mut self, event: FrameEvent) -> (r: Result<
        FrameAction,
        FrameError,
    >)
        requires
            event is Tick && old(self)@.stage == FrameStage::Idle ==> old(self)@.frame_counter
                < u64::MAX,
        ensures
            (final(self)@, r) == spec_step(old(self)@, event),
            old(self)@.wf(),
            final(self)@.wf(),
    {
        proof {
            use_type_invariant(&*self);
            lemma_step_preserves(self@, event);
        }
        match (self.stage, event) {
            (FrameStage::Idle, FrameEvent::Tick { objects, lights }) => {
                let semaphore = (self.frame_counter % (self.in_flight.len() as u64)) as usize;
                self.semaphore = semaphore;
                self.objects = objects;
                self.lights = lights;
                self.stage = FrameStage::Acquiring;
                self.frame_counter = self.frame_counter + 1;
                Ok(FrameAction::AcquireImage { timeout_ns: NO_TIMEOUT, signal_semaphore: semaphore })
            },
            (FrameStage::Acquiring, FrameEvent::ImageAcquired(image)) => {
                if image < self.image_count && (image as usize) < self.in_flight.len() {
                    self.image = image;
                    self.stage = FrameStage::Waiting;
                    Ok(
                        FrameAction::WaitAndResetFence {
                            fence: image as usize,
                            timeout_ns: NO_TIMEOUT,
                        },
                    )
                } else {
                    self.fail(FrameFault::ImageOutOfRange)
                }
            },
            (FrameStage::Waiting, FrameEvent::FenceSignaled) => {
                self.in_flight = with_flag(&self.in_flight, self.image as usize, false);
                match self.vertices {
                    Some(bundle_size) => {
                        let planned = match &self.frame_data {
                            None => Ok(None),
                            Some(data) => match data.prepare(
                                self.image as usize,
                                self.objects,
                                self.lights,
                            ) {
                                Ok(plan) => Ok(Some(plan)),
                                Err(fault) => Err(fault),
                            },
                        };
                        match planned {
                            Ok(plan) => {
                                self.stage = FrameStage::Uploading;
                                Ok(
                                    FrameAction::Upload {
                                        slot: self.image as usize,
                                        bundle_size,
                                        plan,
                                    },
                                )
                            },
                            Err(fault) => {
                                self.stage = FrameStage::Idle;
                                Err(FrameError { step: FrameStep::Upload, fault })
                            },
                        }
                    },
                    None => {
                        self.stage = FrameStage::Idle;
                        Err(
                            FrameError {
                                step: FrameStep::Upload,
                                fault: FrameFault::MissingVertexBuffer,
                            },
                        )
                    },
                }
            },
            (FrameStage::Uploading, FrameEvent::Uploaded) => {
                let draw = match &self.frame_data {
                    None => None,
                    Some(data) => Some(data.draw(self.image as usize)),
                };
                self.stage = FrameStage::Recording;
                Ok(
                    FrameAction::Record {
                        command_buffer: self.image as usize,
                        framebuffer: self.image as usize,
                        render_area: self.config.extent,
                        draw,
                    },
                )
            },
            (FrameStage::Recording, FrameEvent::Recorded) => {
                self.stage = FrameStage::Submitting;
                Ok(
                    FrameAction::Submit {
                        command_buffer: self.image as usize,
                        wait_semaphore: self.semaphore,
                        signal_semaphore: self.semaphore,
                        fence: self.image as usize,
                    },
                )
            },
            (FrameStage::Submitting, FrameEvent::Submitted) => {
                self.stage = FrameStage::Presenting;
                self.in_flight = with_flag(&self.in_flight, self.image as usize, true);
                Ok(FrameAction::Present { image: self.image, wait_semaphore: self.semaphore })
            },
            (FrameStage::Presenting, FrameEvent::Presented { suboptimal }) => {
                if suboptimal {
                    self.fail(FrameFault::SwapchainSuboptimal)
                } else {
                    self.stage = FrameStage::Idle;
                    Ok(FrameAction::Finished)
                }
            },
            (FrameStage::Idle, _) => self.fail(FrameFault::OutOfOrder),
            (_, FrameEvent::Failed(fault)) => self.fail(fault),
            _ => self.fail(FrameFault::OutOfOrder),
        }
    }
}

} // verus!
