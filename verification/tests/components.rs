use frame_lifecycle::command_pool::CommandPool;
use frame_lifecycle::pipeline_manager::{CullMode, PipelineId, PipelineManager};
use frame_lifecycle::swapchain::{ColorFormat, Extent2D, PresentMode, Swapchain};
use frame_lifecycle::sync::FrameSynchronizer;
use frame_lifecycle::trace::{CommandBufferState, FenceState, RenderError, TraceEvent};

#[test]
fn synchronizer_initial_state() {
    let sync = FrameSynchronizer::new(2, 3);
    assert_eq!(sync.in_flight_fences, vec![FenceState::Signaled, FenceState::Signaled]);
    assert_eq!(sync.images_in_flight, vec![None, None, None]);
    assert_eq!(sync.max_frames_in_flight(), 2);
}

#[test]
fn fence_wait_reset_submit_cycle() {
    let mut sync = FrameSynchronizer::new(2, 2);
    assert_eq!(sync.wait_for_frame(0), Ok(()));
    assert_eq!(sync.in_flight_fences[0], FenceState::Signaled);
    assert_eq!(sync.reset_fence(0), Ok(()));
    assert_eq!(sync.in_flight_fences[0], FenceState::Unsignaled);
    sync.mark_submitted(0);
    assert_eq!(sync.in_flight_fences[0], FenceState::Pending);
    assert_eq!(sync.wait_for_frame(0), Ok(()));
    assert_eq!(sync.in_flight_fences[0], FenceState::Signaled);
}

#[test]
fn bounded_wait_times_out_on_pending_fence() {
    let mut sync = FrameSynchronizer::new(2, 2);
    // Already signaled: no waiting needed, the bound is irrelevant.
    assert_eq!(sync.wait_for_frame_timed(0, false), Ok(()));
    let _ = sync.reset_fence(0);
    sync.mark_submitted(0);
    // Pending and the bound elapses first: a recoverable timeout, with the
    // fence left pending.
    assert_eq!(
        sync.wait_for_frame_timed(0, false),
        Err(RenderError::SynchronizationTimeout)
    );
    assert_eq!(sync.in_flight_fences[0], FenceState::Pending);
    // Pending and signaled within the bound: the wait succeeds.
    assert_eq!(sync.wait_for_frame_timed(0, true), Ok(()));
    assert_eq!(sync.in_flight_fences[0], FenceState::Signaled);
}

#[test]
fn owner_wait_only_when_pending() {
    let mut sync = FrameSynchronizer::new(2, 2);
    // No owner: nothing to wait for.
    assert_eq!(sync.wait_if_owned(0), None);
    // Owner with a signaled fence: nothing to wait for.
    sync.mark_image_owner(0, 1);
    assert_eq!(sync.wait_if_owned(0), None);
    // Owner with a pending fence: the wait triggers and signals it.
    let _ = sync.reset_fence(1);
    sync.mark_submitted(1);
    assert_eq!(sync.wait_if_owned(0), Some(1));
    assert_eq!(sync.in_flight_fences[1], FenceState::Signaled);
}

#[test]
fn semaphore_index_classes() {
    let sync = FrameSynchronizer::new(2, 3);
    assert_eq!(sync.get_fence(1).slot, 1);
    assert_eq!(sync.get_acquire_semaphore(1).slot, 1);
    assert_eq!(sync.get_render_finished_semaphore(2).image, 2);
}

#[test]
fn clear_owners_and_signal_pending() {
    let mut sync = FrameSynchronizer::new(2, 2);
    sync.mark_image_owner(1, 0);
    let _ = sync.reset_fence(0);
    sync.mark_submitted(0);
    sync.clear_image_owners();
    assert_eq!(sync.images_in_flight, vec![None, None]);
    sync.signal_all_pending();
    assert_eq!(sync.in_flight_fences, vec![FenceState::Signaled, FenceState::Signaled]);
}

#[test]
fn command_pool_recording_cycle() {
    let mut pool = CommandPool::new(2);
    assert_eq!(pool.buffers, vec![CommandBufferState::Initial, CommandBufferState::Initial]);
    pool.begin_recording(0);
    assert_eq!(pool.buffers[0], CommandBufferState::Recording);
    pool.end_recording(0);
    assert_eq!(pool.buffers[0], CommandBufferState::Executable);
    pool.reset_buffer(0);
    assert_eq!(pool.buffers[0], CommandBufferState::Initial);
    pool.allocate_buffers(2);
    assert_eq!(pool.buffers.len(), 4);
    pool.reset();
    assert_eq!(pool.buffers, vec![CommandBufferState::Initial; 4]);
}

#[test]
fn swapchain_recreate_bumps_generation() {
    let mut trace: Vec<TraceEvent> = Vec::new();
    let mut sc = Swapchain::new(
        Extent2D { width: 640, height: 480 },
        ColorFormat::B8g8r8a8Srgb,
        PresentMode::Fifo,
        2,
        3,
        &mut trace,
    );
    assert_eq!(sc.generation, 0);
    assert_eq!(sc.image_count, 3);
    assert_eq!(
        trace,
        vec![TraceEvent::SurfaceBuilt { width: 640, height: 480, generation: 0 }]
    );
    sc.recreate(Extent2D { width: 800, height: 600 }, &mut trace);
    assert_eq!(sc.generation, 1);
    assert_eq!(sc.extent, Extent2D { width: 800, height: 600 });
    assert_eq!(sc.image_count, 3);
    assert_eq!(
        &trace[1..],
        &[
            TraceEvent::DeviceIdled,
            TraceEvent::SurfaceBuilt { width: 800, height: 600, generation: 1 },
            TraceEvent::SurfaceSwapped { generation: 1 },
            TraceEvent::DeviceIdled,
            TraceEvent::SurfaceRetired { generation: 0 },
        ]
    );
}

#[test]
fn pipeline_cache_memoizes() {
    let mut pm = PipelineManager::new();
    assert_eq!(pm.get(PipelineId::UI), Err(RenderError::PipelineNotBuilt));
    assert_eq!(pm.get_layout(PipelineId::UI), None);
    pm.install(PipelineId::UI, 77, 78);
    assert_eq!(pm.get(PipelineId::UI), Ok(77));
    assert_eq!(pm.get(PipelineId::UI), Ok(77));
    assert_eq!(pm.get_layout(PipelineId::UI), Some(78));
    // The other identifier is untouched.
    assert_eq!(pm.get(PipelineId::BasicGeometry), Err(RenderError::PipelineNotBuilt));
}

#[test]
fn pipeline_metadata() {
    let geometry = PipelineId::BasicGeometry.meta();
    assert!(!geometry.blend_enabled);
    assert_eq!(geometry.cull_mode, CullMode::Back);
    let ui = PipelineId::UI.meta();
    assert!(ui.blend_enabled);
    assert_eq!(ui.cull_mode, CullMode::Disabled);
    assert_eq!(
        PipelineId::all(),
        vec![PipelineId::BasicGeometry, PipelineId::UI]
    );
}

#[test]
fn extent_constructor() {
    let e = Extent2D::new(12, 34);
    assert_eq!(e, Extent2D { width: 12, height: 34 });
}
