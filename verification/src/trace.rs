//! Events and outcomes of the frame lifecycle.
//!
//! Every operation that touches the device in a way that matters for
//! synchronization is recorded as a `TraceEvent`.  The trace is both the
//! instrument by which tests observe ordering (owner-fence waits, teardown
//! order) and the exact list of device actions an unverified driver must
//! perform to stay in step with the verified state machine.

use vstd::prelude::*;

verus! {

/// State of a per-frame-slot completion fence.
///
/// A fence is created `Signaled`, reset to `Unsignaled` once the slot's wait
/// has observed the signal, and becomes `Pending` when work is submitted with
/// it; a wait moves it back to `Signaled`.
#[derive(Clone, Copy, Debug, PartialEq, Eq, Structural)]
pub enum FenceState {
    /// The fence has been observed signaled; the slot's previous work is done.
    Signaled,
    /// The fence was reset and no work has been submitted with it yet.
    Unsignaled,
    /// Work was submitted with this fence and has not been waited on since.
    Pending,
}

/// State of a per-frame-slot command buffer.
#[derive(Clone, Copy, Debug, PartialEq, Eq, Structural)]
pub enum CommandBufferState {
    /// Reset and ready to begin recording.
    Initial,
    /// Between begin and end of recording.
    Recording,
    /// Recording ended; the buffer holds a submittable stream.
    Executable,
}

/// Outcome of an image-acquire call, reported by the presentation system.
///
/// The acquire itself is asynchronous device work; the caller performs it and
/// feeds the outcome into `Renderer::begin_frame`, which decides what happens
/// next for every possible outcome.
#[derive(Clone, Copy, Debug, PartialEq, Eq, Structural)]
pub enum AcquireOutcome {
    /// An image with the given index is available for rendering.
    Acquired(usize),
    /// The surface no longer matches the output and must be recreated.
    OutOfDate,
    /// Any other acquire failure; treated as fatal for this frame.
    HardError,
}

/// Errors surfaced by the frame lifecycle.
#[derive(Clone, Copy, Debug, PartialEq, Eq, Structural)]
pub enum RenderError {
    /// A pipeline was requested that has not been built and cached.
    PipelineNotBuilt,
    /// Teardown was attempted while submitted work had not been idled away.
    TeardownOutOfOrder,
    /// A bounded fence wait elapsed before the fence was signaled.
    SynchronizationTimeout,
}

/// One synchronization-relevant step, in the order the device must see them.
#[derive(Clone, Copy, Debug, PartialEq, Eq, Structural)]
pub enum TraceEvent {
    /// The CPU waited until the slot's completion fence was signaled.
    FenceWaited { slot: usize },
    /// The presentation system handed out `image` for the frame in `slot`.
    ImageAcquired { slot: usize, image: usize },
    /// The CPU waited on the completion fence of `owner`, the slot still
    /// rendering into `image`, before reusing that image.
    OwnerFenceWaited { image: usize, owner: usize },
    /// The slot's completion fence was reset after its signal was observed.
    FenceReset { slot: usize },
    /// The slot's command buffer was reset and began recording for `image`.
    RecordingBegan { slot: usize, image: usize },
    /// Recording ended for the slot's command buffer.
    RecordingEnded { slot: usize },
    /// The recorded commands were submitted, waiting on the slot's acquire
    /// semaphore and signaling `image`'s present-ready semaphore and the
    /// slot's completion fence.
    WorkSubmitted { slot: usize, image: usize },
    /// `image` was queued for presentation, waiting on its present-ready
    /// semaphore.
    ImagePresented { image: usize },
    /// The CPU blocked until the device had finished all submitted work.
    DeviceIdled,
    /// A presentation surface with this extent and generation was built.
    SurfaceBuilt { width: u32, height: u32, generation: u64 },
    /// The orchestrator's view of the surface switched to this generation.
    SurfaceSwapped { generation: u64 },
    /// The previous surface and its image views were destroyed.
    SurfaceRetired { generation: u64 },
    /// Teardown was requested with submitted work not yet idled away.
    TeardownViolation,
    /// All cached pipelines and layouts were destroyed.
    PipelinesDestroyed,
    /// All fences and semaphores were destroyed.
    SyncObjectsDestroyed,
    /// The command pool and its buffers were destroyed.
    CommandPoolDestroyed,
    /// The live surface of this generation was destroyed.
    SurfaceDestroyed { generation: u64 },
}

} // verus!
