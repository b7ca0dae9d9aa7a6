//! The frame orchestrator: begin/record/submit/present, resize, teardown.
//!
//! `Renderer` drives the frame lifecycle as a state machine over plain
//! values.  The asynchronous device work — fence waits, image acquisition,
//! queue submission, presentation — is performed outside this crate; its
//! outcomes are fed in through `begin_frame`'s argument, and the ordered
//! device actions the orchestrator decided on are recorded in the trace.
//! Every public operation's effect is pinned down by a spec-level transition
//! function on `RendererView`, so that properties of call sequences can be
//! stated and proved once over the transitions.

use vstd::prelude::*;

use crate::command_pool::CommandPool;
use crate::pipeline_manager::{PipelineManager, PipelineId, PIPELINE_COUNT};
use crate::swapchain::{ColorFormat, Extent2D, PresentMode, Swapchain};
use crate::sync::FrameSynchronizer;
use crate::trace::{AcquireOutcome, CommandBufferState, FenceState, RenderError, TraceEvent};

verus! {

/// Configuration fixed at orchestrator construction.
#[derive(Clone, Copy, Debug, PartialEq, Eq, Structural)]
pub struct RendererConfig {
    /// Number of frame-in-flight slots.
    pub frames_in_flight: usize,
    /// Minimum number of presentable images to request.
    pub min_image_count: usize,
    pub present_mode: PresentMode,
    pub format: ColorFormat,
}

impl Default for RendererConfig {
    /// Double buffering on a vsync-locked sRGB surface.
    fn default() -> (r: RendererConfig)
        ensures
            r == (RendererConfig {
                frames_in_flight: 2usize,
                min_image_count: 2usize,
                present_mode: PresentMode::Fifo,
                format: ColorFormat::B8g8r8a8Srgb,
            }),
    {
        RendererConfig {
            frames_in_flight: 2,
            min_image_count: 2,
            present_mode: PresentMode::Fifo,
            format: ColorFormat::B8g8r8a8Srgb,
        }
    }
}

/// A scoped handle to the frame currently being recorded.
///
/// Releasing the frame (handing it to `Renderer::end_frame`) finalizes
/// recording, submits, and presents; the handle carries everything a driver
/// needs to address the right slot and image.
#[derive(Clone, Copy, Debug, PartialEq, Eq, Structural)]
pub struct RenderFrame {
    /// Frame-in-flight slot occupied by this frame.
    pub slot: usize,
    /// Presentable image being rendered into.
    pub image_index: usize,
    /// Target extent of the frame.
    pub extent: Extent2D,
    /// Surface generation the image belongs to.
    pub generation: u64,
}

/// The abstract state of the orchestrator.
#[verifier::ext_equal]
pub ghost struct RendererView {
    pub frames_in_flight: usize,
    pub image_count: usize,
    /// Completion fence state, per frame slot.
    pub fences: Seq<FenceState>,
    /// Owner slot of each presentable image, if any.
    pub owners: Seq<Option<usize>>,
    /// Command buffer state, per frame slot.
    pub buffers: Seq<CommandBufferState>,
    /// Slot the next frame will occupy.
    pub current_frame: usize,
    /// Completed begin/release cycles.
    pub frames_completed: u64,
    pub extent: Extent2D,
    pub generation: u64,
    /// Deferred surface recreate, consumed at the start of the next cycle.
    pub rebuild: Option<Extent2D>,
    /// The frame currently being recorded, if any.
    pub recording: Option<RenderFrame>,
    /// Submissions since the last device-idle barrier.
    pub submits_since_idle: u64,
    /// False once torn down.
    pub alive: bool,
    pub trace: Seq<TraceEvent>,
    pub pipelines: Seq<Option<u64>>,
    pub layouts: Seq<Option<u64>>,
    pub format: ColorFormat,
    pub present_mode: PresentMode,
    pub min_image_count: usize,
}

/// Pending fences become signaled: the effect of a device-idle barrier.
pub open spec fn signal_pending(fences: Seq<FenceState>) -> Seq<FenceState> {
    Seq::new(
        fences.len(),
        |i: int| if fences[i] == FenceState::Pending {
            FenceState::Signaled
        } else {
            fences[i]
        },
    )
}

impl RendererView {
    /// The state after construction.
    pub open spec fn init_spec(
        width: u32,
        height: u32,
        config: RendererConfig,
        image_count: usize,
    ) -> RendererView {
        RendererView {
            frames_in_flight: config.frames_in_flight,
            image_count,
            fences: Seq::new(config.frames_in_flight as nat, |i: int| FenceState::Signaled),
            owners: Seq::new(image_count as nat, |i: int| Option::<usize>::None),
            buffers: Seq::new(config.frames_in_flight as nat, |i: int| CommandBufferState::Initial),
            current_frame: 0usize,
            frames_completed: 0u64,
            extent: Extent2D { width, height },
            generation: 0u64,
            rebuild: Option::<Extent2D>::None,
            recording: Option::<RenderFrame>::None,
            submits_since_idle: 0u64,
            alive: true,
            trace: seq![TraceEvent::SurfaceBuilt { width, height, generation: 0u64 }],
            pipelines: Seq::new(PIPELINE_COUNT as nat, |i: int| Option::<u64>::None),
            layouts: Seq::new(PIPELINE_COUNT as nat, |i: int| Option::<u64>::None),
            format: config.format,
            present_mode: config.present_mode,
            min_image_count: config.min_image_count,
        }
    }

    /// Well-formedness: the structural invariant every operation preserves.
    ///
    /// In particular the occupied slot always equals the number of completed
    /// cycles modulo the ring size, and a recorded image is always owned by
    /// the recording slot.
    pub open spec fn wf(self) -> bool {
        &&& self.frames_in_flight >= 1
        &&& self.min_image_count >= 1
        &&& self.image_count >= self.min_image_count
        &&& self.fences.len() == self.frames_in_flight
        &&& self.buffers.len() == self.frames_in_flight
        &&& self.owners.len() == self.image_count
        &&& self.pipelines.len() == PIPELINE_COUNT
        &&& self.layouts.len() == PIPELINE_COUNT
        &&& self.current_frame < self.frames_in_flight
        &&& self.current_frame as int == self.frames_completed as int % self.frames_in_flight as int
        &&& self.extent.width > 0
        &&& self.extent.height > 0
        &&& (self.rebuild matches Some(e) ==> e.width > 0 && e.height > 0)
        &&& self.submits_since_idle <= self.frames_completed
        &&& forall|i: int| 0 <= i < self.owners.len()
            ==> (#[trigger] self.owners[i] matches Some(s) ==> s < self.frames_in_flight)
        &&& match self.recording {
            Some(f) => {
                &&& f.slot == self.current_frame
                &&& f.image_index < self.image_count
                &&& f.extent == self.extent
                &&& f.generation == self.generation
                &&& self.owners[f.image_index as int] == Some(f.slot)
                &&& self.fences[f.slot as int] == FenceState::Unsignaled
                &&& self.buffers[f.slot as int] == CommandBufferState::Recording
                &&& forall|i: int| 0 <= i < self.fences.len() && i != f.slot as int
                    ==> #[trigger] self.fences[i] != FenceState::Unsignaled
                &&& forall|i: int| 0 <= i < self.buffers.len() && i != f.slot as int
                    ==> #[trigger] self.buffers[i] != CommandBufferState::Recording
            },
            None => {
                &&& forall|i: int| 0 <= i < self.fences.len()
                    ==> #[trigger] self.fences[i] != FenceState::Unsignaled
                &&& forall|i: int| 0 <= i < self.buffers.len()
                    ==> #[trigger] self.buffers[i] != CommandBufferState::Recording
            },
        }
    }

    /// Effect of `handle_resize`: a deferred recreate is queued when the
    /// requested extent is valid and either differs from the active extent or
    /// corrects an already-pending recreate; otherwise nothing changes.
    pub open spec fn after_resize(self, width: u32, height: u32) -> RendererView {
        if width > 0 && height > 0
            && (width != self.extent.width || height != self.extent.height
                || self.rebuild is Some) {
            RendererView { rebuild: Some(Extent2D { width, height }), ..self }
        } else {
            self
        }
    }

    /// Effect of the deferred surface recreate, if one is pending: idle the
    /// device (completing all pending fences), build and swap in the new
    /// surface, idle again, retire the old one.  The new image set starts
    /// with no owners.
    pub open spec fn after_recreate(self) -> RendererView {
        match self.rebuild {
            Some(e) => RendererView {
                extent: e,
                generation: (self.generation + 1) as u64,
                rebuild: Option::<Extent2D>::None,
                fences: signal_pending(self.fences),
                owners: Seq::new(self.owners.len(), |i: int| Option::<usize>::None),
                submits_since_idle: 0u64,
                trace: self.trace + seq![
                    TraceEvent::DeviceIdled,
                    TraceEvent::SurfaceBuilt {
                        width: e.width,
                        height: e.height,
                        generation: (self.generation + 1) as u64,
                    },
                    TraceEvent::SurfaceSwapped { generation: (self.generation + 1) as u64 },
                    TraceEvent::DeviceIdled,
                    TraceEvent::SurfaceRetired { generation: self.generation },
                ],
                ..self
            },
            None => self,
        }
    }

    /// Effect of waiting on the current slot's completion fence.
    pub open spec fn after_wait(self) -> RendererView {
        RendererView {
            fences: self.fences.update(self.current_frame as int, FenceState::Signaled),
            trace: self.trace.push(TraceEvent::FenceWaited { slot: self.current_frame }),
            ..self
        }
    }

    /// Whether reusing `image` requires waiting on its owner's fence: it has
    /// an owner whose completion fence is still pending.
    pub open spec fn owner_wait_triggered(self, image: usize) -> bool {
        self.owners[image as int] matches Some(s) && self.fences[s as int] == FenceState::Pending
    }

    /// Effect of the owner-fence check on `image`.
    pub open spec fn after_owner_wait(self, image: usize) -> RendererView {
        match self.owners[image as int] {
            Some(s) => if self.fences[s as int] == FenceState::Pending {
                RendererView {
                    fences: self.fences.update(s as int, FenceState::Signaled),
                    trace: self.trace.push(TraceEvent::OwnerFenceWaited { image, owner: s }),
                    ..self
                }
            } else {
                self
            },
            None => self,
        }
    }

    /// Effect of a successful acquire of `image`: record the acquisition,
    /// wait out the image's owner if needed, take ownership, reset the slot's
    /// fence and command buffer, and begin recording.
    pub open spec fn after_acquire_success(self, image: usize) -> (RendererView, Option<
        RenderFrame,
    >) {
        let v2 = RendererView {
            trace: self.trace.push(TraceEvent::ImageAcquired {
                slot: self.current_frame,
                image,
            }),
            ..self
        };
        let v3 = v2.after_owner_wait(image);
        let slot = v3.current_frame;
        let f = RenderFrame {
            slot,
            image_index: image,
            extent: v3.extent,
            generation: v3.generation,
        };
        let v4 = RendererView {
            fences: v3.fences.update(slot as int, FenceState::Unsignaled),
            owners: v3.owners.update(image as int, Some(slot)),
            buffers: v3.buffers.update(slot as int, CommandBufferState::Recording),
            recording: Some(f),
            trace: v3.trace + seq![
                TraceEvent::FenceReset { slot },
                TraceEvent::RecordingBegan { slot, image },
            ],
            ..v3
        };
        (v4, Some(f))
    }

    /// Effect of one `begin_frame` call for a given acquire outcome.
    ///
    /// A pending recreate is performed first; the call then waits on the
    /// current slot's fence.  Success hands out a frame; "out of date" queues
    /// a recreate at the current extent and hands out nothing; a hard error
    /// hands out nothing and queues nothing.
    pub open spec fn begin_frame_spec(self, acquire: AcquireOutcome) -> (RendererView, Option<
        RenderFrame,
    >) {
        let v0 = self.after_recreate();
        let v1 = v0.after_wait();
        match acquire {
            AcquireOutcome::Acquired(image) => v1.after_acquire_success(image),
            AcquireOutcome::OutOfDate => (
                RendererView { rebuild: Some(v1.extent), ..v1 },
                Option::<RenderFrame>::None,
            ),
            AcquireOutcome::HardError => (v1, Option::<RenderFrame>::None),
        }
    }

    /// Effect of releasing the frame: end recording, submit with the slot's
    /// fence, present the image, and advance the ring.
    pub open spec fn end_frame_spec(self, frame: RenderFrame) -> RendererView {
        let slot = frame.slot;
        let image = frame.image_index;
        let done = (self.frames_completed + 1) as u64;
        RendererView {
            buffers: self.buffers.update(slot as int, CommandBufferState::Executable),
            fences: self.fences.update(slot as int, FenceState::Pending),
            recording: Option::<RenderFrame>::None,
            frames_completed: done,
            current_frame: (done as int % self.frames_in_flight as int) as usize,
            submits_since_idle: (self.submits_since_idle + 1) as u64,
            trace: self.trace + seq![
                TraceEvent::RecordingEnded { slot },
                TraceEvent::WorkSubmitted { slot, image },
                TraceEvent::ImagePresented { image },
            ],
            ..self
        }
    }

    /// Effect of a device-idle barrier: all pending work completes.
    pub open spec fn idle_spec(self) -> RendererView {
        RendererView {
            fences: signal_pending(self.fences),
            submits_since_idle: 0u64,
            trace: self.trace.push(TraceEvent::DeviceIdled),
            ..self
        }
    }

    /// Effect of teardown.  With work submitted since the last idle barrier,
    /// teardown is a precondition violation: it is flagged in the trace and
    /// nothing is destroyed.  Otherwise the resources are destroyed in
    /// dependency order.
    pub open spec fn destroy_spec(self) -> (RendererView, bool) {
        if self.submits_since_idle > 0 {
            (
                RendererView { trace: self.trace.push(TraceEvent::TeardownViolation), ..self },
                false,
            )
        } else {
            (
                RendererView {
                    alive: false,
                    trace: self.trace + seq![
                        TraceEvent::PipelinesDestroyed,
                        TraceEvent::SyncObjectsDestroyed,
                        TraceEvent::CommandPoolDestroyed,
                        TraceEvent::SurfaceDestroyed { generation: self.generation },
                    ],
                    ..self
                },
                true,
            )
        }
    }
}

/// Construction establishes the invariant.
pub proof fn lemma_init_wf(width: u32, height: u32, config: RendererConfig, image_count: usize)
    requires
        width > 0,
        height > 0,
        config.frames_in_flight >= 1,
        config.min_image_count >= 1,
        image_count >= config.min_image_count,
    ensures
        RendererView::init_spec(width, height, config, image_count).wf(),
{
    let v = RendererView::init_spec(width, height, config, image_count);
    assert(0int % (config.frames_in_flight as int) == 0) by (nonlinear_arith)
        requires
            config.frames_in_flight >= 1,
    ;
    assert forall|i: int| 0 <= i < v.fences.len()
        implies #[trigger] v.fences[i] != FenceState::Unsignaled by {
        assert(v.fences[i] == FenceState::Signaled);
    }
    assert forall|i: int| 0 <= i < v.buffers.len()
        implies #[trigger] v.buffers[i] != CommandBufferState::Recording by {
        assert(v.buffers[i] == CommandBufferState::Initial);
    }
    assert forall|i: int| 0 <= i < v.owners.len()
        implies (#[trigger] v.owners[i] matches Some(s) ==> s < v.frames_in_flight) by {
        assert(v.owners[i] is None);
    }
}

/// `handle_resize` preserves the invariant.
pub proof fn lemma_resize_wf(v: RendererView, width: u32, height: u32)
    requires
        v.wf(),
    ensures
        v.after_resize(width, height).wf(),
{
}

/// The deferred recreate preserves the invariant when no frame is open.
pub proof fn lemma_recreate_wf(v: RendererView)
    requires
        v.wf(),
        v.recording is None,
    ensures
        v.after_recreate().wf(),
        v.after_recreate().recording is None,
        v.after_recreate().rebuild is None || v.rebuild is None,
        v.after_recreate().image_count == v.image_count,
        v.after_recreate().frames_in_flight == v.frames_in_flight,
        v.after_recreate().current_frame == v.current_frame,
{
    let w = v.after_recreate();
    if v.rebuild is Some {
        assert forall|i: int| 0 <= i < w.fences.len()
            implies #[trigger] w.fences[i] != FenceState::Unsignaled by {
            assert(v.fences[i] != FenceState::Unsignaled);
        }
        assert forall|i: int| 0 <= i < w.owners.len()
            implies (#[trigger] w.owners[i] matches Some(s) ==> s < w.frames_in_flight) by {}
    }
}

/// One `begin_frame` transition preserves the invariant, and a handed-out
/// frame matches the post-state's open recording.
pub proof fn lemma_begin_frame_wf(v: RendererView, acquire: AcquireOutcome)
    requires
        v.wf(),
        v.alive,
        v.recording is None,
        acquire matches AcquireOutcome::Acquired(i) ==> i < v.image_count,
    ensures
        v.begin_frame_spec(acquire).0.wf(),
        v.begin_frame_spec(acquire).0.alive,
        (acquire matches AcquireOutcome::Acquired(i) ==> v.begin_frame_spec(acquire).1 == Some(
            v.begin_frame_spec(acquire).0.recording->Some_0,
        ) && v.begin_frame_spec(acquire).0.recording is Some),
        (acquire is OutOfDate || acquire is HardError ==> v.begin_frame_spec(acquire).1 is None
            && v.begin_frame_spec(acquire).0.recording is None),
{
    lemma_recreate_wf(v);
    let v0 = v.after_recreate();
    let v1 = v0.after_wait();
    assert(v1.wf()) by {
        assert forall|i: int| 0 <= i < v1.fences.len()
            implies #[trigger] v1.fences[i] != FenceState::Unsignaled by {
            if i != v0.current_frame as int {
                assert(v1.fences[i] == v0.fences[i]);
            }
        }
    }
    match acquire {
        AcquireOutcome::Acquired(image) => {
            let v2 = RendererView {
                trace: v1.trace.push(TraceEvent::ImageAcquired {
                    slot: v1.current_frame,
                    image,
                }),
                ..v1
            };
            let v3 = v2.after_owner_wait(image);
            assert(v3.wf()) by {
                if v2.owner_wait_triggered(image) {
                    let s = v2.owners[image as int]->Some_0;
                    assert forall|i: int| 0 <= i < v3.fences.len()
                        implies #[trigger] v3.fences[i] != FenceState::Unsignaled by {
                        if i != s as int {
                            assert(v3.fences[i] == v2.fences[i]);
                        }
                    }
                }
            }
            let (v4, r) = v1.after_acquire_success(image);
            let slot = v3.current_frame;
            assert(v4.wf()) by {
                assert forall|i: int| 0 <= i < v4.owners.len()
                    implies (#[trigger] v4.owners[i] matches Some(s) ==> s
                        < v4.frames_in_flight) by {
                    if i != image as int {
                        assert(v4.owners[i] == v3.owners[i]);
                    }
                }
                assert forall|i: int| 0 <= i < v4.buffers.len() && i != slot as int
                    implies #[trigger] v4.buffers[i] != CommandBufferState::Recording by {
                    assert(v4.buffers[i] == v3.buffers[i]);
                }
                assert forall|i: int| 0 <= i < v4.fences.len() && i != slot as int
                    implies #[trigger] v4.fences[i] != FenceState::Unsignaled by {
                    assert(v4.fences[i] == v3.fences[i]);
                }
                assert(v4.owners[image as int] == Some(slot));
                assert(v4.fences[slot as int] == FenceState::Unsignaled);
            }
        },
        AcquireOutcome::OutOfDate => {
            assert(v.begin_frame_spec(acquire).0.wf());
        },
        AcquireOutcome::HardError => {
            assert(v.begin_frame_spec(acquire).0.wf());
        },
    }
}

/// Releasing the open frame preserves the invariant and advances the ring:
/// the slot occupied next equals the new cycle count modulo the ring size.
pub proof fn lemma_end_frame_wf(v: RendererView, frame: RenderFrame)
    requires
        v.wf(),
        v.recording == Some(frame),
        v.frames_completed < u64::MAX,
    ensures
        v.end_frame_spec(frame).wf(),
        v.end_frame_spec(frame).frames_completed == v.frames_completed + 1,
        v.end_frame_spec(frame).current_frame as int == (v.frames_completed + 1) as int
            % v.frames_in_flight as int,
        v.end_frame_spec(frame).recording is None,
        v.end_frame_spec(frame).alive == v.alive,
{
    let w = v.end_frame_spec(frame);
    assert forall|i: int| 0 <= i < w.fences.len()
        implies #[trigger] w.fences[i] != FenceState::Unsignaled by {
        if i != frame.slot as int {
            assert(w.fences[i] == v.fences[i]);
        }
    }
    assert forall|i: int| 0 <= i < w.buffers.len()
        implies #[trigger] w.buffers[i] != CommandBufferState::Recording by {
        if i != frame.slot as int {
            assert(w.buffers[i] == v.buffers[i]);
        }
    }
}

/// The idle barrier preserves the invariant.
pub proof fn lemma_idle_wf(v: RendererView)
    requires
        v.wf(),
        v.recording is None,
    ensures
        v.idle_spec().wf(),
        v.idle_spec().submits_since_idle == 0,
{
    let w = v.idle_spec();
    assert(w.fences == signal_pending(v.fences));
    assert forall|i: int| 0 <= i < w.fences.len()
        implies #[trigger] w.fences[i] != FenceState::Unsignaled by {
        assert(v.fences[i] != FenceState::Unsignaled);
        assert(w.fences[i] == (if v.fences[i] == FenceState::Pending {
            FenceState::Signaled
        } else {
            v.fences[i]
        }));
    }
}

/// Teardown preserves the invariant, succeeds exactly when no work was
/// submitted since the last idle barrier, and changes nothing but the trace
/// when it is refused.
pub proof fn lemma_destroy_wf(v: RendererView)
    requires
        v.wf(),
        v.recording is None,
    ensures
        v.destroy_spec().0.wf(),
        v.destroy_spec().1 == (v.submits_since_idle == 0),
        !v.destroy_spec().1 ==> v.destroy_spec().0 == (RendererView {
            trace: v.trace.push(TraceEvent::TeardownViolation),
            ..v
        }),
{
}

/// The frame orchestrator.
pub struct Renderer {
    pub swapchain: Swapchain,
    pub command_pool: CommandPool,
    pub frame_sync: FrameSynchronizer,
    pub pipeline_manager: PipelineManager,
    /// Slot the next frame will occupy.
    pub current_frame: usize,
    /// Completed begin/release cycles.
    pub frames_completed: u64,
    /// Deferred surface recreate, consumed at the start of the next cycle.
    pub pending_rebuild: Option<Extent2D>,
    /// The frame currently being recorded, if any.
    pub recording: Option<RenderFrame>,
    /// Submissions since the last device-idle barrier.
    pub submits_since_idle: u64,
    /// False once torn down.
    pub alive: bool,
    /// Ordered record of every synchronization-relevant device action.
    pub trace: Vec<TraceEvent>,
}

impl View for Renderer {
    type V = RendererView;

    open spec fn view(&self) -> RendererView {
        RendererView {
            frames_in_flight: self.frame_sync.max_frames,
            image_count: self.swapchain.image_count,
            fences: self.frame_sync.in_flight_fences@,
            owners: self.frame_sync.images_in_flight@,
            buffers: self.command_pool.buffers@,
            current_frame: self.current_frame,
            frames_completed: self.frames_completed,
            extent: self.swapchain.extent,
            generation: self.swapchain.generation,
            rebuild: self.pending_rebuild,
            recording: self.recording,
            submits_since_idle: self.submits_since_idle,
            alive: self.alive,
            trace: self.trace@,
            pipelines: self.pipeline_manager.pipelines@,
            layouts: self.pipeline_manager.layouts@,
            format: self.swapchain.format,
            present_mode: self.swapchain.present_mode,
            min_image_count: self.swapchain.min_image_count,
        }
    }
}

impl Renderer {
    /// Build the orchestrator: surface, command slots, synchronization state,
    /// and an empty pipeline cache.
    ///
    /// `image_count` is the number of presentable images the presentation
    /// system provided for the requested configuration.
    pub fn new(width: u32, height: u32, config: RendererConfig, image_count: usize) -> (r:
        Renderer)
        requires
            width > 0,
            height > 0,
            config.frames_in_flight >= 1,
            config.min_image_count >= 1,
            image_count >= config.min_image_count,
        ensures
            r@ == RendererView::init_spec(width, height, config, image_count),
            r@.wf(),
    {
        let mut trace: Vec<TraceEvent> = Vec::new();
        let swapchain = Swapchain::new(
            Extent2D { width, height },
            config.format,
            config.present_mode,
            config.min_image_count,
            image_count,
            &mut trace,
        );
        let command_pool = CommandPool::new(config.frames_in_flight);
        let frame_sync = FrameSynchronizer::new(config.frames_in_flight, image_count);
        let pipeline_manager = PipelineManager::new();
        let r = Renderer {
            swapchain,
            command_pool,
            frame_sync,
            pipeline_manager,
            current_frame: 0,
            frames_completed: 0,
            pending_rebuild: None,
            recording: None,
            submits_since_idle: 0,
            alive: true,
            trace,
        };
        proof {
            assert(r@.trace =~= RendererView::init_spec(width, height, config, image_count).trace);
            assert(r@ =~= RendererView::init_spec(width, height, config, image_count));
            lemma_init_wf(width, height, config, image_count);
        }
        r
    }

    /// Queue a deferred surface recreate for the new output extent.
    ///
    /// Resizing to the currently active extent with nothing pending performs
    /// no surface replacement; degenerate extents are ignored.
    pub fn handle_resize(&mut self, width: u32, height: u32)
        requires
            old(self)@.wf(),
        ensures
            final(self)@ == old(self)@.after_resize(width, height),
            final(self)@.wf(),
    {
        if width > 0 && height > 0 {
            let differs = width != self.swapchain.extent.width
                || height != self.swapchain.extent.height;
            if differs || self.pending_rebuild.is_some() {
                self.pending_rebuild = Some(Extent2D { width, height });
            }
        }
        proof {
            assert(self@ =~= old(self)@.after_resize(width, height));
            lemma_resize_wf(old(self)@, width, height);
        }
    }

    /// Start a new frame cycle, given the outcome of the image acquire.
    ///
    /// A pending recreate is performed first.  The call then waits on the
    /// current slot's completion fence, and on success performs the
    /// owner-fence check before taking ownership of the image, resetting the
    /// slot's fence and command buffer, and beginning recording.  `None`
    /// means "no frame this tick": recoverable, the caller simply retries on
    /// the next redraw request.
    pub fn begin_frame(&mut self, acquire: AcquireOutcome) -> (r: Option<RenderFrame>)
        requires
            old(self)@.wf(),
            old(self)@.alive,
            old(self)@.recording is None,
            acquire matches AcquireOutcome::Acquired(i) ==> i < old(self)@.image_count,
            old(self)@.generation < u64::MAX,
        ensures
            final(self)@ == old(self)@.begin_frame_spec(acquire).0,
            r == old(self)@.begin_frame_spec(acquire).1,
            final(self)@.wf(),
            r matches Some(f) ==> final(self)@.recording == Some(f),
    {
        proof {
            lemma_begin_frame_wf(old(self)@, acquire);
            lemma_recreate_wf(old(self)@);
        }
        match self.pending_rebuild {
            Some(extent) => {
                self.frame_sync.signal_all_pending();
                self.frame_sync.clear_image_owners();
                self.submits_since_idle = 0;
                self.swapchain.recreate(extent, &mut self.trace);
                self.pending_rebuild = None;
            },
            None => {},
        }
        proof {
            assert(self@ =~= old(self)@.after_recreate());
        }
        let ghost v0 = old(self)@.after_recreate();
        let slot = self.current_frame;
        let _ = self.frame_sync.wait_for_frame(slot);
        self.trace.push(TraceEvent::FenceWaited { slot });
        proof {
            assert(self@ =~= v0.after_wait());
        }
        let ghost v1 = v0.after_wait();
        match acquire {
            AcquireOutcome::Acquired(image_index) => {
                self.trace.push(TraceEvent::ImageAcquired { slot, image: image_index });
                let ghost v2 = RendererView {
                    trace: v1.trace.push(TraceEvent::ImageAcquired {
                        slot: v1.current_frame,
                        image: image_index,
                    }),
                    ..v1
                };
                proof {
                    assert(self@ =~= v2);
                }
                match self.frame_sync.wait_if_owned(image_index) {
                    Some(owner) => {
                        self.trace.push(TraceEvent::OwnerFenceWaited {
                            image: image_index,
                            owner,
                        });
                    },
                    None => {},
                }
                proof {
                    assert(self@ =~= v2.after_owner_wait(image_index));
                }
                let ghost v3 = v2.after_owner_wait(image_index);
                let _ = self.frame_sync.reset_fence(slot);
                self.frame_sync.mark_image_owner(image_index, slot);
                self.command_pool.reset_buffer(slot);
                self.command_pool.begin_recording(slot);
                self.trace.push(TraceEvent::FenceReset { slot });
                self.trace.push(TraceEvent::RecordingBegan { slot, image: image_index });
                let frame = RenderFrame {
                    slot,
                    image_index,
                    extent: self.swapchain.extent,
                    generation: self.swapchain.generation,
                };
                self.recording = Some(frame);
                proof {
                    assert(self@.trace =~= v3.trace + seq![
                        TraceEvent::FenceReset { slot },
                        TraceEvent::RecordingBegan { slot, image: image_index },
                    ]);
                    assert(self@ =~= old(self)@.begin_frame_spec(acquire).0);
                }
                Some(frame)
            },
            AcquireOutcome::OutOfDate => {
                self.pending_rebuild = Some(self.swapchain.extent);
                proof {
                    assert(self@ =~= old(self)@.begin_frame_spec(acquire).0);
                }
                None
            },
            AcquireOutcome::HardError => {
                proof {
                    assert(self@ =~= old(self)@.begin_frame_spec(acquire).0);
                }
                None
            },
        }
    }

    /// Release the frame: end recording, submit the commands — waiting on the
    /// slot's acquire semaphore, signaling the image's present-ready
    /// semaphore and the slot's completion fence — then present, and advance
    /// to the next slot of the ring.
    pub fn end_frame(&mut self, frame: RenderFrame)
        requires
            old(self)@.wf(),
            old(self)@.recording == Some(frame),
            old(self)@.frames_completed < u64::MAX,
        ensures
            final(self)@ == old(self)@.end_frame_spec(frame),
            final(self)@.wf(),
            final(self)@.recording is None,
    {
        proof {
            lemma_end_frame_wf(old(self)@, frame);
        }
        let slot = frame.slot;
        self.command_pool.end_recording(slot);
        self.trace.push(TraceEvent::RecordingEnded { slot });
        self.frame_sync.mark_submitted(slot);
        self.trace.push(TraceEvent::WorkSubmitted { slot, image: frame.image_index });
        self.trace.push(TraceEvent::ImagePresented { image: frame.image_index });
        self.recording = None;
        self.frames_completed = self.frames_completed + 1;
        self.submits_since_idle = self.submits_since_idle + 1;
        let ring = self.frame_sync.max_frames_in_flight();
        self.current_frame = (self.frames_completed % (ring as u64)) as usize;
        proof {
            assert(self@.trace =~= old(self)@.trace + seq![
                TraceEvent::RecordingEnded { slot },
                TraceEvent::WorkSubmitted { slot, image: frame.image_index },
                TraceEvent::ImagePresented { image: frame.image_index },
            ]);
            assert(self@ =~= old(self)@.end_frame_spec(frame));
        }
    }

    /// Block until the device has finished all submitted work.
    pub fn device_wait_idle(&mut self)
        requires
            old(self)@.wf(),
            old(self)@.recording is None,
        ensures
            final(self)@ == old(self)@.idle_spec(),
            final(self)@.wf(),
    {
        proof {
            lemma_idle_wf(old(self)@);
        }
        self.frame_sync.signal_all_pending();
        self.submits_since_idle = 0;
        self.trace.push(TraceEvent::DeviceIdled);
        proof {
            assert(self@ =~= old(self)@.idle_spec());
        }
    }

    /// Tear down, in dependency order: pipelines, synchronization objects,
    /// command pool, surface.
    ///
    /// Destroying synchronization primitives while the device may still
    /// reference them is undefined behavior, so teardown with work submitted
    /// since the last idle barrier is refused and flagged in the trace.
    pub fn destroy(&mut self) -> (r: Result<(), RenderError>)
        requires
            old(self)@.wf(),
            old(self)@.alive,
            old(self)@.recording is None,
        ensures
            final(self)@ == old(self)@.destroy_spec().0,
            final(self)@.wf(),
            r is Ok <==> old(self)@.destroy_spec().1,
            r is Ok <==> old(self)@.submits_since_idle == 0,
            r is Err ==> r == Err::<(), RenderError>(RenderError::TeardownOutOfOrder),
    {
        proof {
            lemma_destroy_wf(old(self)@);
        }
        if self.submits_since_idle > 0 {
            self.trace.push(TraceEvent::TeardownViolation);
            proof {
                assert(self@ =~= old(self)@.destroy_spec().0);
            }
            Err(RenderError::TeardownOutOfOrder)
        } else {
            self.trace.push(TraceEvent::PipelinesDestroyed);
            self.trace.push(TraceEvent::SyncObjectsDestroyed);
            self.trace.push(TraceEvent::CommandPoolDestroyed);
            self.trace.push(TraceEvent::SurfaceDestroyed { generation: self.swapchain.generation });
            self.alive = false;
            proof {
                assert(self@.trace =~= old(self)@.destroy_spec().0.trace);
                assert(self@ =~= old(self)@.destroy_spec().0);
            }
            Ok(())
        }
    }

    /// Cache a pipeline built for `id`.
    pub fn install_pipeline(&mut self, id: PipelineId, pipeline: u64, layout: u64)
        requires
            old(self)@.wf(),
        ensures
            final(self)@ == (RendererView {
                pipelines: old(self)@.pipelines.update(id.index_spec(), Some(pipeline)),
                layouts: old(self)@.layouts.update(id.index_spec(), Some(layout)),
                ..old(self)@
            }),
            final(self)@.wf(),
    {
        self.pipeline_manager.install(id, pipeline, layout);
        proof {
            assert(self@ =~= (RendererView {
                pipelines: old(self)@.pipelines.update(id.index_spec(), Some(pipeline)),
                layouts: old(self)@.layouts.update(id.index_spec(), Some(layout)),
                ..old(self)@
            }));
        }
    }

    /// The cached pipeline for `id`; an error if it has not been built.
    pub fn get_pipeline(&self, id: PipelineId) -> (r: Result<u64, RenderError>)
        requires
            self@.wf(),
        ensures
            (match self@.pipelines[id.index_spec()] {
                Some(h) => r == Ok::<u64, RenderError>(h),
                None => r == Err::<u64, RenderError>(RenderError::PipelineNotBuilt),
            }),
    {
        self.pipeline_manager.get(id)
    }

    /// The cached layout for `id`, if built.
    pub fn get_pipeline_layout(&self, id: PipelineId) -> (r: Option<u64>)
        requires
            self@.wf(),
        ensures
            r == self@.layouts[id.index_spec()],
    {
        self.pipeline_manager.get_layout(id)
    }
}

} // verus!
