use avenir::gfx_utils::{
    Adapter, CompositeAlpha, DeviceOpening, DeviceSelection, Extent2D, NegotiationError,
    PresentMode, QueueFamily, SurfaceCapabilities, COLOR_ATTACHMENT,
};
use avenir::hal_state::{
    BufferUnavailable, FrameAction, FrameError, FrameEvent, FrameFault, FrameStage, FrameStep,
    teardown_order, GenericHalState, HalState, HalStateOptions, Resource, NO_TIMEOUT,
};
use avenir::mesh::{
    DescriptorRange, DrawIndexedCommand, DrawPlan, LayoutError, PipelineDesc, Region, UploadPlan,
};
use avenir::pipeline::{Pipeline, PipelineBuilder, ShaderModule};
use avenir::utils::{Build, With};
use gfx_hal::format::Format;
use gfx_hal::pso::{BakedStates, BlendDesc, DepthStencilDesc, InputAssemblerDesc, Rasterizer};
use gfx_hal::Primitive;

fn pipeline(extent: Extent2D) -> Pipeline {
    PipelineBuilder::new(extent, true)
        .unwrap()
        .with(InputAssemblerDesc::new(Primitive::TriangleList))
        .with(Rasterizer::FILL)
        .with(DepthStencilDesc::default())
        .with(BlendDesc::default())
        .with(BakedStates::default())
        .with_vertex("triangle.vert".to_string(), Ok(ShaderModule { id: 1 }))
        .unwrap()
        .build()
        .unwrap()
}

fn adapter() -> Adapter {
    Adapter {
        queue_families: vec![QueueFamily { id: 0, supports_graphics: true, supported_by_surface: true }],
    }
}

fn unsuitable() -> Adapter {
    Adapter {
        queue_families: vec![QueueFamily { id: 0, supports_graphics: true, supported_by_surface: false }],
    }
}

fn capabilities(present_modes: Vec<PresentMode>, min: u32, max: u32) -> SurfaceCapabilities {
    SurfaceCapabilities {
        formats: Some(vec![Format::Rgba8Srgb, Format::Bgra8Unorm]),
        present_modes,
        composite_alphas: vec![CompositeAlpha::Opaque],
        image_count_min: min,
        image_count_max: max,
        extent_min: Extent2D { width: 1, height: 1 },
        extent_max: Extent2D { width: 4096, height: 4096 },
        usage: COLOR_ATTACHMENT,
    }
}

fn options() -> HalStateOptions {
    HalStateOptions {
        pm_order: vec![PresentMode::Mailbox, PresentMode::Fifo, PresentMode::Relaxed, PresentMode::Immediate],
        ca_order: vec![
            CompositeAlpha::Opaque,
            CompositeAlpha::Inherit,
            CompositeAlpha::PreMultiplied,
            CompositeAlpha::PostMultiplied,
        ],
    }
}

/// The start of a frame with nothing in it but the triangle.
fn tick() -> FrameEvent {
    FrameEvent::Tick { objects: 0, lights: 0 }
}

fn mesh_desc() -> PipelineDesc {
    PipelineDesc { uniform_size: 128, model_size: 64, max_objects: 100, max_lights: 8, indirect_size: 20 }
}

fn extent(width: u32, height: u32) -> Extent2D {
    Extent2D { width, height }
}

/// A renderer with `frames` frames in flight and as many swapchain images.
fn renderer(frames: u32) -> HalState {
    let adapters = vec![adapter()];
    let caps = capabilities(vec![PresentMode::Fifo], frames, frames + 1);
    let mut state = GenericHalState::init(
        &adapters,
        &caps,
        Some(extent(800, 600)),
        DeviceOpening::Queues(1),
        frames,
        pipeline(extent(800, 600)),
        &options(),
    )
    .unwrap();
    assert_eq!(state.set_buffer_bundle(60, true), Ok(()));
    state
}

/// Runs one whole frame that renders to `image`.
fn frame(state: &mut HalState, image: u32) -> Result<FrameAction, FrameError> {
    state.draw_triangle_frame(tick())?;
    state.draw_triangle_frame(FrameEvent::ImageAcquired(image))?;
    state.draw_triangle_frame(FrameEvent::FenceSignaled)?;
    state.draw_triangle_frame(FrameEvent::Uploaded)?;
    state.draw_triangle_frame(FrameEvent::Recorded)?;
    state.draw_triangle_frame(FrameEvent::Submitted)?;
    state.draw_triangle_frame(FrameEvent::Presented { suboptimal: false })
}

#[test]
fn init_sets_up_the_ring() {
    let adapters = vec![adapter()];
    let caps = capabilities(vec![PresentMode::Fifo, PresentMode::Mailbox], 2, 4);
    let state = GenericHalState::init(
        &adapters,
        &caps,
        Some(extent(800, 600)),
        DeviceOpening::Queues(2),
        4,
        pipeline(extent(800, 600)),
        &options(),
    )
    .unwrap();
    assert_eq!(state.frames_in_flight(), 3);
    assert_eq!(state.image_count(), 4);
    assert_eq!(state.frames_pending(), 0);
    assert_eq!(state.frame_counter(), 0);
    assert_eq!(state.current_frame(), 0);
    assert_eq!(state.stage(), FrameStage::Idle);
    assert_eq!(state.render_area(), extent(800, 600));
    assert_eq!(state.adapter(), 0);
    assert_eq!(state.device(), DeviceSelection { queue_family: 0, queue_count: 2 });
    assert_eq!(state.config().present_mode, PresentMode::Mailbox);
    assert_eq!(state.config().format, Format::Rgba8Srgb);
    assert_eq!(state.config().image_count, 3);
    assert_eq!(state.pipeline().extent, extent(800, 600));
}

#[test]
fn init_reports_the_first_failure() {
    let caps = capabilities(vec![PresentMode::Fifo], 2, 3);
    let init = |adapters: &Vec<Adapter>,
                caps: &SurfaceCapabilities,
                window: Option<Extent2D>,
                opening: DeviceOpening| {
        GenericHalState::init(adapters, caps, window, opening, 2, pipeline(extent(1, 1)), &options())
            .err()
    };
    assert_eq!(
        init(&vec![], &caps, None, DeviceOpening::Failed),
        Some(NegotiationError::NoSuitableAdapter)
    );
    assert_eq!(
        init(&vec![unsuitable()], &caps, None, DeviceOpening::Failed),
        Some(NegotiationError::NoSuitableAdapter)
    );
    let adapters = vec![unsuitable(), adapter()];
    assert_eq!(
        init(&adapters, &caps, None, DeviceOpening::Failed),
        Some(NegotiationError::DeviceOpenFailed)
    );
    assert_eq!(
        init(&adapters, &caps, None, DeviceOpening::NoQueueGroup),
        Some(NegotiationError::QueueGroupUnavailable)
    );
    assert_eq!(
        init(&adapters, &caps, None, DeviceOpening::Queues(0)),
        Some(NegotiationError::NoCommandQueues)
    );
    let silent = SurfaceCapabilities { formats: None, ..caps.clone() };
    assert_eq!(
        init(&adapters, &silent, None, DeviceOpening::Queues(1)),
        Some(NegotiationError::NoFormatsAvailable)
    );
    assert_eq!(
        init(&adapters, &caps, None, DeviceOpening::Queues(1)),
        Some(NegotiationError::WindowUnavailable)
    );
    let no_modes = SurfaceCapabilities { present_modes: vec![], ..caps.clone() };
    assert_eq!(
        init(&adapters, &no_modes, Some(extent(1, 1)), DeviceOpening::Queues(1)),
        Some(NegotiationError::NoPresentModeAvailable)
    );
    let no_alpha = SurfaceCapabilities { composite_alphas: vec![], ..caps.clone() };
    assert_eq!(
        init(&adapters, &no_alpha, Some(extent(1, 1)), DeviceOpening::Queues(1)),
        Some(NegotiationError::NoCompositeAlphaAvailable)
    );
    let no_colour = SurfaceCapabilities { usage: 0, ..caps.clone() };
    assert_eq!(
        init(&adapters, &no_colour, Some(extent(1, 1)), DeviceOpening::Queues(1)),
        Some(NegotiationError::SurfaceNotColorCapable)
    );
    assert_eq!(init(&adapters, &caps, Some(extent(1, 1)), DeviceOpening::Queues(1)), None);
    let state = GenericHalState::init(
        &adapters,
        &caps,
        Some(extent(1, 1)),
        DeviceOpening::Queues(1),
        2,
        pipeline(extent(1, 1)),
        &options(),
    )
    .unwrap();
    assert_eq!(state.adapter(), 1);
}

#[test]
fn a_range_that_is_never_used_is_never_asked_about() {
    // Capabilities whose image-count range leaves no image do not matter
    // where the negotiation ends before it comes to them.
    let empty = capabilities(vec![PresentMode::Fifo], 1, 1);
    let init = |adapters: &Vec<Adapter>, window: Option<Extent2D>, opening: DeviceOpening| {
        GenericHalState::init(adapters, &empty, window, opening, 2, pipeline(extent(1, 1)), &options())
            .err()
    };
    assert_eq!(
        init(&vec![unsuitable()], Some(extent(1, 1)), DeviceOpening::Queues(1)),
        Some(NegotiationError::NoSuitableAdapter)
    );
    assert_eq!(
        init(&vec![], Some(extent(1, 1)), DeviceOpening::Queues(1)),
        Some(NegotiationError::NoSuitableAdapter)
    );
    let adapters = vec![unsuitable(), adapter()];
    assert_eq!(
        init(&adapters, Some(extent(1, 1)), DeviceOpening::Failed),
        Some(NegotiationError::DeviceOpenFailed)
    );
    assert_eq!(
        init(&adapters, None, DeviceOpening::Queues(1)),
        Some(NegotiationError::WindowUnavailable)
    );
    let none = capabilities(vec![], 0, 0);
    assert_eq!(
        GenericHalState::init(
            &adapters,
            &none,
            Some(extent(1, 1)),
            DeviceOpening::Queues(1),
            2,
            pipeline(extent(1, 1)),
            &options()
        )
        .err(),
        Some(NegotiationError::NoPresentModeAvailable)
    );
}

#[test]
fn an_unsuitable_adapter_beside_a_suitable_one_is_passed_over() {
    let adapters = vec![unsuitable(), unsuitable(), adapter()];
    let caps = capabilities(vec![PresentMode::Fifo], 2, 3);
    let state = GenericHalState::init(
        &adapters,
        &caps,
        Some(extent(800, 600)),
        DeviceOpening::Queues(1),
        3,
        pipeline(extent(800, 600)),
        &options(),
    )
    .unwrap();
    assert_eq!(state.adapter(), 2);
    assert_eq!(state.frames_in_flight(), 2);
    assert_eq!(state.image_count(), 3);
    assert_eq!(state.frames_pending(), 0);
}

#[test]
fn the_smallest_usable_range_gives_one_frame_in_flight() {
    let caps = capabilities(vec![PresentMode::Fifo], 1, 2);
    let mut state = GenericHalState::init(
        &vec![adapter()],
        &caps,
        Some(extent(800, 600)),
        DeviceOpening::Queues(1),
        1,
        pipeline(extent(800, 600)),
        &options(),
    )
    .unwrap();
    assert_eq!(state.frames_in_flight(), 1);
    state.set_buffer_bundle(60, true).unwrap();
    assert_eq!(frame(&mut state, 0), Ok(FrameAction::Finished));
    assert_eq!(frame(&mut state, 0), Ok(FrameAction::Finished));
    assert_eq!(state.frames_pending(), 1);
}

#[test]
fn a_frame_runs_through_every_step() {
    let mut state = renderer(2);
    assert_eq!(
        state.draw_triangle_frame(tick()),
        Ok(FrameAction::AcquireImage { timeout_ns: u64::MAX, signal_semaphore: 0 })
    );
    assert_eq!(state.stage(), FrameStage::Acquiring);
    assert_eq!(state.frame_counter(), 1);
    assert_eq!(
        state.draw_triangle_frame(FrameEvent::ImageAcquired(1)),
        Ok(FrameAction::WaitAndResetFence { fence: 1, timeout_ns: NO_TIMEOUT })
    );
    assert_eq!(state.stage(), FrameStage::Waiting);
    assert_eq!(
        state.draw_triangle_frame(FrameEvent::FenceSignaled),
        Ok(FrameAction::Upload { slot: 1, bundle_size: 60, plan: None })
    );
    assert_eq!(state.stage(), FrameStage::Uploading);
    assert_eq!(
        state.draw_triangle_frame(FrameEvent::Uploaded),
        Ok(FrameAction::Record {
            command_buffer: 1,
            framebuffer: 1,
            render_area: extent(800, 600),
            draw: None,
        })
    );
    assert_eq!(state.stage(), FrameStage::Recording);
    assert_eq!(
        state.draw_triangle_frame(FrameEvent::Recorded),
        Ok(FrameAction::Submit { command_buffer: 1, wait_semaphore: 0, signal_semaphore: 0, fence: 1 })
    );
    assert_eq!(state.stage(), FrameStage::Submitting);
    assert_eq!(state.frames_pending(), 0);
    assert_eq!(
        state.draw_triangle_frame(FrameEvent::Submitted),
        Ok(FrameAction::Present { image: 1, wait_semaphore: 0 })
    );
    assert_eq!(state.stage(), FrameStage::Presenting);
    assert_eq!(state.frames_pending(), 1);
    assert_eq!(
        state.draw_triangle_frame(FrameEvent::Presented { suboptimal: false }),
        Ok(FrameAction::Finished)
    );
    assert_eq!(state.stage(), FrameStage::Idle);
    assert_eq!(state.frames_pending(), 1);
    assert_eq!(state.frame_counter(), 1);
    assert_eq!(state.current_frame(), 1);
}

#[test]
fn semaphores_follow_the_frame_counter() {
    let mut state = renderer(3);
    for n in 0..10u64 {
        assert_eq!(state.current_frame() as u64, n % 3);
        assert_eq!(
            state.draw_triangle_frame(tick()),
            Ok(FrameAction::AcquireImage { timeout_ns: NO_TIMEOUT, signal_semaphore: (n % 3) as usize })
        );
        assert_eq!(state.frame_counter(), n + 1);
        let image = ((n * 2) % 3) as u32;
        state.draw_triangle_frame(FrameEvent::ImageAcquired(image)).unwrap();
        state.draw_triangle_frame(FrameEvent::FenceSignaled).unwrap();
        state.draw_triangle_frame(FrameEvent::Uploaded).unwrap();
        assert_eq!(
            state.draw_triangle_frame(FrameEvent::Recorded),
            Ok(FrameAction::Submit {
                command_buffer: image as usize,
                wait_semaphore: (n % 3) as usize,
                signal_semaphore: (n % 3) as usize,
                fence: image as usize,
            })
        );
        state.draw_triangle_frame(FrameEvent::Submitted).unwrap();
        state.draw_triangle_frame(FrameEvent::Presented { suboptimal: false }).unwrap();
    }
}

#[test]
fn never_more_frames_in_flight_than_fences() {
    for frames in 1..=4u32 {
        let mut state = renderer(frames);
        let mut most = 0;
        for n in 0..50u32 {
            let image = (n * 7 + n / 3) % frames;
            state.draw_triangle_frame(tick()).unwrap();
            assert!(state.frames_pending() <= frames as usize);
            state.draw_triangle_frame(FrameEvent::ImageAcquired(image)).unwrap();
            let before = state.frames_pending();
            state.draw_triangle_frame(FrameEvent::FenceSignaled).unwrap();
            assert!(state.frames_pending() <= before);
            state.draw_triangle_frame(FrameEvent::Uploaded).unwrap();
            state.draw_triangle_frame(FrameEvent::Recorded).unwrap();
            let waiting = state.frames_pending();
            assert!(waiting < frames as usize);
            state.draw_triangle_frame(FrameEvent::Submitted).unwrap();
            assert_eq!(state.frames_pending(), waiting + 1);
            state.draw_triangle_frame(FrameEvent::Presented { suboptimal: false }).unwrap();
            assert!(state.frames_pending() <= frames as usize);
            most = most.max(state.frames_pending());
        }
        assert_eq!(most, frames as usize);
    }
}

#[test]
fn resize_recovery() {
    let before = vec![adapter()];
    let caps_before = capabilities(vec![PresentMode::Fifo], 2, 3);
    let mut state = GenericHalState::init(
        &before,
        &caps_before,
        Some(extent(800, 600)),
        DeviceOpening::Queues(1),
        2,
        pipeline(extent(800, 600)),
        &options(),
    )
    .unwrap();
    state.set_buffer_bundle(60, true).unwrap();
    assert_eq!(state.render_area(), extent(800, 600));
    assert_eq!(frame(&mut state, 0), Ok(FrameAction::Finished));
    assert_eq!(frame(&mut state, 1), Ok(FrameAction::Finished));
    assert_eq!(frame(&mut state, 0), Ok(FrameAction::Finished));
    assert_eq!(state.frame_counter(), 3);

    // The window is resized; the next acquire finds the swapchain out of date.
    state.draw_triangle_frame(tick()).unwrap();
    assert_eq!(
        state.draw_triangle_frame(FrameEvent::Failed(FrameFault::SwapchainOutOfDate)),
        Err(FrameError { step: FrameStep::Acquire, fault: FrameFault::SwapchainOutOfDate })
    );
    assert_eq!(state.stage(), FrameStage::Idle);
    assert_eq!(state.frame_counter(), 4);

    let after = vec![adapter()];
    let caps_after = capabilities(vec![PresentMode::Fifo], 2, 3);
    let mut state = state
        .rebuild(
            &after,
            &caps_after,
            Some(extent(1024, 768)),
            DeviceOpening::Queues(1),
            2,
            pipeline(extent(1024, 768)),
            &options(),
        )
        .unwrap();
    assert_eq!(state.render_area(), extent(1024, 768));
    assert_eq!(state.config().extent, extent(1024, 768));
    assert_eq!(state.frame_counter(), 4);
    assert_eq!(state.frames_pending(), 0);
    assert_eq!(state.stage(), FrameStage::Idle);
    state.set_buffer_bundle(60, true).unwrap();
    assert_eq!(
        state.draw_triangle_frame(tick()),
        Ok(FrameAction::AcquireImage { timeout_ns: NO_TIMEOUT, signal_semaphore: 0 })
    );
    assert_eq!(state.frame_counter(), 5);
    state.draw_triangle_frame(FrameEvent::ImageAcquired(0)).unwrap();
    state.draw_triangle_frame(FrameEvent::FenceSignaled).unwrap();
    assert_eq!(
        state.draw_triangle_frame(FrameEvent::Uploaded),
        Ok(FrameAction::Record {
            command_buffer: 0,
            framebuffer: 0,
            render_area: extent(1024, 768),
            draw: None,
        })
    );
}

#[test]
fn rebuild_may_change_the_number_of_frames() {
    let mut state = renderer(2);
    for n in 0..5u32 {
        frame(&mut state, n % 2).unwrap();
    }
    assert_eq!(state.frame_counter(), 5);
    assert_eq!(state.current_frame(), 1);
    let adapters = vec![adapter()];
    let caps = capabilities(vec![PresentMode::Mailbox], 2, 8);
    let state = state
        .rebuild(&adapters, &caps, Some(extent(640, 480)), DeviceOpening::Queues(1), 3, pipeline(extent(640, 480)), &options())
        .unwrap();
    assert_eq!(state.frames_in_flight(), 3);
    assert_eq!(state.image_count(), 3);
    assert_eq!(state.frame_counter(), 5);
    assert_eq!(state.current_frame(), 2);
    assert_eq!(state.frames_pending(), 0);
}

#[test]
fn rebuild_reports_a_failed_negotiation() {
    let state = renderer(2);
    let adapters = vec![adapter()];
    let caps = capabilities(vec![PresentMode::Fifo], 2, 3);
    assert_eq!(
        state
            .rebuild(&adapters, &caps, None, DeviceOpening::Queues(1), 2, pipeline(extent(1, 1)), &options())
            .err(),
        Some(NegotiationError::WindowUnavailable)
    );
}

#[test]
fn a_failure_names_its_step() {
    let steps = [
        FrameStep::Acquire,
        FrameStep::WaitFence,
        FrameStep::Upload,
        FrameStep::Record,
        FrameStep::Submit,
        FrameStep::Present,
    ];
    let events = [
        tick(),
        FrameEvent::ImageAcquired(0),
        FrameEvent::FenceSignaled,
        FrameEvent::Uploaded,
        FrameEvent::Recorded,
        FrameEvent::Submitted,
    ];
    for failing in 0..steps.len() {
        let mut state = renderer(2);
        for event in events.iter().take(failing + 1) {
            state.draw_triangle_frame(*event).unwrap();
        }
        assert_eq!(
            state.draw_triangle_frame(FrameEvent::Failed(FrameFault::DeviceFailure)),
            Err(FrameError { step: steps[failing], fault: FrameFault::DeviceFailure })
        );
        assert_eq!(state.stage(), FrameStage::Idle);
        assert_eq!(state.frame_counter(), 1);
    }
}

#[test]
fn upload_faults_are_reported_in_the_upload_step() {
    let mut state = renderer(2);
    state.draw_triangle_frame(tick()).unwrap();
    state.draw_triangle_frame(FrameEvent::ImageAcquired(0)).unwrap();
    state.draw_triangle_frame(FrameEvent::FenceSignaled).unwrap();
    assert_eq!(
        state.draw_triangle_frame(FrameEvent::Failed(FrameFault::TooManyObjects)),
        Err(FrameError { step: FrameStep::Upload, fault: FrameFault::TooManyObjects })
    );
    assert_eq!(frame(&mut state, 1), Ok(FrameAction::Finished));
}

#[test]
fn suboptimal_present_is_an_error() {
    let mut state = renderer(2);
    state.draw_triangle_frame(tick()).unwrap();
    state.draw_triangle_frame(FrameEvent::ImageAcquired(0)).unwrap();
    state.draw_triangle_frame(FrameEvent::FenceSignaled).unwrap();
    state.draw_triangle_frame(FrameEvent::Uploaded).unwrap();
    state.draw_triangle_frame(FrameEvent::Recorded).unwrap();
    state.draw_triangle_frame(FrameEvent::Submitted).unwrap();
    assert_eq!(
        state.draw_triangle_frame(FrameEvent::Presented { suboptimal: true }),
        Err(FrameError { step: FrameStep::Present, fault: FrameFault::SwapchainSuboptimal })
    );
    assert_eq!(state.stage(), FrameStage::Idle);
    assert_eq!(state.frames_pending(), 1);
}

#[test]
fn out_of_date_at_present() {
    let mut state = renderer(2);
    state.draw_triangle_frame(tick()).unwrap();
    state.draw_triangle_frame(FrameEvent::ImageAcquired(0)).unwrap();
    state.draw_triangle_frame(FrameEvent::FenceSignaled).unwrap();
    state.draw_triangle_frame(FrameEvent::Uploaded).unwrap();
    state.draw_triangle_frame(FrameEvent::Recorded).unwrap();
    state.draw_triangle_frame(FrameEvent::Submitted).unwrap();
    assert_eq!(
        state.draw_triangle_frame(FrameEvent::Failed(FrameFault::SwapchainOutOfDate)),
        Err(FrameError { step: FrameStep::Present, fault: FrameFault::SwapchainOutOfDate })
    );
}

#[test]
fn an_image_without_frame_resources_is_refused() {
    let adapters = vec![adapter()];
    let caps = capabilities(vec![PresentMode::Fifo], 2, 3);
    let mut state = GenericHalState::init(
        &adapters,
        &caps,
        Some(extent(800, 600)),
        DeviceOpening::Queues(1),
        5,
        pipeline(extent(800, 600)),
        &options(),
    )
    .unwrap();
    state.set_buffer_bundle(60, true).unwrap();
    state.draw_triangle_frame(tick()).unwrap();
    assert_eq!(
        state.draw_triangle_frame(FrameEvent::ImageAcquired(2)),
        Err(FrameError { step: FrameStep::Acquire, fault: FrameFault::ImageOutOfRange })
    );
    assert_eq!(state.stage(), FrameStage::Idle);

    let mut few_images = GenericHalState::init(
        &vec![adapter()],
        &capabilities(vec![PresentMode::Fifo], 3, 4),
        Some(extent(800, 600)),
        DeviceOpening::Queues(1),
        2,
        pipeline(extent(800, 600)),
        &options(),
    )
    .unwrap();
    assert_eq!(few_images.frames_in_flight(), 3);
    few_images.draw_triangle_frame(tick()).unwrap();
    assert_eq!(
        few_images.draw_triangle_frame(FrameEvent::ImageAcquired(2)),
        Err(FrameError { step: FrameStep::Acquire, fault: FrameFault::ImageOutOfRange })
    );
}

#[test]
fn a_frame_needs_a_vertex_buffer() {
    let adapters = vec![adapter()];
    let caps = capabilities(vec![PresentMode::Fifo], 2, 3);
    let mut state = GenericHalState::init(
        &adapters,
        &caps,
        Some(extent(800, 600)),
        DeviceOpening::Queues(1),
        2,
        pipeline(extent(800, 600)),
        &options(),
    )
    .unwrap();
    state.draw_triangle_frame(tick()).unwrap();
    state.draw_triangle_frame(FrameEvent::ImageAcquired(0)).unwrap();
    assert_eq!(
        state.draw_triangle_frame(FrameEvent::FenceSignaled),
        Err(FrameError { step: FrameStep::Upload, fault: FrameFault::MissingVertexBuffer })
    );
    assert_eq!(state.stage(), FrameStage::Idle);
}

#[test]
fn buffer_bundle_is_kept_only_when_allocated() {
    let adapters = vec![adapter()];
    let caps = capabilities(vec![PresentMode::Fifo], 2, 3);
    let mut state = GenericHalState::init(
        &adapters,
        &caps,
        Some(extent(800, 600)),
        DeviceOpening::Queues(1),
        2,
        pipeline(extent(800, 600)),
        &options(),
    )
    .unwrap();
    assert_eq!(state.set_buffer_bundle(60, false), Err(BufferUnavailable));
    state.draw_triangle_frame(tick()).unwrap();
    state.draw_triangle_frame(FrameEvent::ImageAcquired(0)).unwrap();
    assert!(state.draw_triangle_frame(FrameEvent::FenceSignaled).is_err());
    assert_eq!(state.set_buffer_bundle(96, true), Ok(()));
    assert_eq!(state.set_buffer_bundle(128, false), Err(BufferUnavailable));
    state.draw_triangle_frame(tick()).unwrap();
    state.draw_triangle_frame(FrameEvent::ImageAcquired(0)).unwrap();
    assert_eq!(
        state.draw_triangle_frame(FrameEvent::FenceSignaled),
        Ok(FrameAction::Upload { slot: 0, bundle_size: 96, plan: None })
    );
}

#[test]
fn events_out_of_order_end_the_frame() {
    let mut state = renderer(2);
    assert_eq!(
        state.draw_triangle_frame(FrameEvent::Uploaded),
        Err(FrameError { step: FrameStep::Acquire, fault: FrameFault::OutOfOrder })
    );
    assert_eq!(
        state.draw_triangle_frame(FrameEvent::Failed(FrameFault::DeviceFailure)),
        Err(FrameError { step: FrameStep::Acquire, fault: FrameFault::OutOfOrder })
    );
    assert_eq!(state.frame_counter(), 0);
    state.draw_triangle_frame(tick()).unwrap();
    assert_eq!(
        state.draw_triangle_frame(tick()),
        Err(FrameError { step: FrameStep::Acquire, fault: FrameFault::OutOfOrder })
    );
    assert_eq!(state.stage(), FrameStage::Idle);
    assert_eq!(state.frame_counter(), 1);
    state.draw_triangle_frame(tick()).unwrap();
    state.draw_triangle_frame(FrameEvent::ImageAcquired(0)).unwrap();
    assert_eq!(
        state.draw_triangle_frame(FrameEvent::Uploaded),
        Err(FrameError { step: FrameStep::WaitFence, fault: FrameFault::OutOfOrder })
    );
    state.draw_triangle_frame(tick()).unwrap();
    state.draw_triangle_frame(FrameEvent::ImageAcquired(0)).unwrap();
    state.draw_triangle_frame(FrameEvent::FenceSignaled).unwrap();
    assert_eq!(
        state.draw_triangle_frame(FrameEvent::Submitted),
        Err(FrameError { step: FrameStep::Upload, fault: FrameFault::OutOfOrder })
    );
    assert_eq!(frame(&mut state, 1), Ok(FrameAction::Finished));
}

#[test]
fn teardown_releases_in_reverse_order_of_acquisition() {
    assert_eq!(
        teardown_order(),
        vec![
            Resource::CommandBuffers,
            Resource::CommandPool,
            Resource::Framebuffers,
            Resource::ImageViews,
            Resource::RenderPass,
            Resource::Swapchain,
            Resource::Device,
            Resource::Surface,
            Resource::Instance,
        ]
    );
}

#[test]
fn frame_data_is_laid_out_for_every_fence() {
    let mut state = renderer(3);
    assert!(state.frame_data().is_none());
    assert_eq!(state.set_frame_data(mesh_desc(), 256, 36), Ok(()));
    let data = state.frame_data().as_ref().unwrap();
    assert_eq!(data.frames, 3);
    assert_eq!(data.buffer_size, 3 * 6656);
    assert_eq!(
        data.sets,
        vec![
            DescriptorRange { start: 0, end: 128 },
            DescriptorRange { start: 6656, end: 6784 },
            DescriptorRange { start: 13312, end: 13440 },
        ]
    );
}

#[test]
fn frame_data_that_cannot_be_laid_out_is_refused() {
    let mut state = renderer(2);
    assert_eq!(state.set_frame_data(mesh_desc(), 0, 36), Err(LayoutError::ZeroAlignment));
    assert!(state.frame_data().is_none());
    let huge = PipelineDesc { uniform_size: u64::MAX / 2, ..mesh_desc() };
    assert_eq!(state.set_frame_data(huge, 256, 36), Err(LayoutError::TooLarge));
    assert!(state.frame_data().is_none());
    assert_eq!(state.set_frame_data(mesh_desc(), 64, 36), Ok(()));
    assert_eq!(state.set_frame_data(huge, 256, 36), Err(LayoutError::TooLarge));
    assert_eq!(state.frame_data().as_ref().unwrap().layout.align, 64);
}

#[test]
fn a_frame_with_data_is_planned_for_its_slot() {
    let mut state = renderer(2);
    state.set_frame_data(mesh_desc(), 256, 36).unwrap();
    state.draw_triangle_frame(FrameEvent::Tick { objects: 7, lights: 2 }).unwrap();
    state.draw_triangle_frame(FrameEvent::ImageAcquired(1)).unwrap();
    assert_eq!(
        state.draw_triangle_frame(FrameEvent::FenceSignaled),
        Ok(FrameAction::Upload {
            slot: 1,
            bundle_size: 60,
            plan: Some(UploadPlan {
                uniform: Region { offset: 6656, len: 128 },
                models: Region { offset: 6784, len: 448 },
                indirect: Region { offset: 13184, len: 20 },
                command: DrawIndexedCommand {
                    index_count: 36,
                    instance_count: 7,
                    first_index: 0,
                    vertex_offset: 0,
                    first_instance: 0,
                },
            }),
        })
    );
    assert_eq!(
        state.draw_triangle_frame(FrameEvent::Uploaded),
        Ok(FrameAction::Record {
            command_buffer: 1,
            framebuffer: 1,
            render_area: extent(800, 600),
            draw: Some(DrawPlan {
                descriptor_set: 1,
                mesh_binding: 0,
                instance_binding: 1,
                instance_offset: 6784,
                indirect_offset: 13184,
                draw_count: 1,
                stride: 20,
            }),
        })
    );
}

#[test]
fn too_many_objects_fail_the_upload() {
    let mut state = renderer(2);
    state.set_frame_data(mesh_desc(), 256, 36).unwrap();
    state.draw_triangle_frame(FrameEvent::Tick { objects: 101, lights: 0 }).unwrap();
    state.draw_triangle_frame(FrameEvent::ImageAcquired(0)).unwrap();
    assert_eq!(
        state.draw_triangle_frame(FrameEvent::FenceSignaled),
        Err(FrameError { step: FrameStep::Upload, fault: FrameFault::TooManyObjects })
    );
    assert_eq!(state.stage(), FrameStage::Idle);
    state.draw_triangle_frame(FrameEvent::Tick { objects: 100, lights: 8 }).unwrap();
    state.draw_triangle_frame(FrameEvent::ImageAcquired(0)).unwrap();
    assert!(state.draw_triangle_frame(FrameEvent::FenceSignaled).is_ok());
}

#[test]
fn too_many_lights_fail_the_upload() {
    let mut state = renderer(2);
    state.set_frame_data(mesh_desc(), 256, 36).unwrap();
    state.draw_triangle_frame(FrameEvent::Tick { objects: 1, lights: 9 }).unwrap();
    state.draw_triangle_frame(FrameEvent::ImageAcquired(0)).unwrap();
    assert_eq!(
        state.draw_triangle_frame(FrameEvent::FenceSignaled),
        Err(FrameError { step: FrameStep::Upload, fault: FrameFault::TooManyLights })
    );
}

#[test]
fn without_frame_data_any_number_of_objects_passes() {
    let mut state = renderer(2);
    state.draw_triangle_frame(FrameEvent::Tick { objects: 1000, lights: 1000 }).unwrap();
    state.draw_triangle_frame(FrameEvent::ImageAcquired(0)).unwrap();
    assert_eq!(
        state.draw_triangle_frame(FrameEvent::FenceSignaled),
        Ok(FrameAction::Upload { slot: 0, bundle_size: 60, plan: None })
    );
}

#[test]
fn rebuild_drops_buffers_and_frame_data() {
    let mut state = renderer(2);
    state.set_frame_data(mesh_desc(), 256, 36).unwrap();
    let adapters = vec![adapter()];
    let caps = capabilities(vec![PresentMode::Fifo], 2, 3);
    let mut state = state
        .rebuild(&adapters, &caps, Some(extent(8, 8)), DeviceOpening::Queues(1), 2, pipeline(extent(8, 8)), &options())
        .unwrap();
    assert!(state.frame_data().is_none());
    state.draw_triangle_frame(tick()).unwrap();
    state.draw_triangle_frame(FrameEvent::ImageAcquired(0)).unwrap();
    assert_eq!(
        state.draw_triangle_frame(FrameEvent::FenceSignaled),
        Err(FrameError { step: FrameStep::Upload, fault: FrameFault::MissingVertexBuffer })
    );
}
