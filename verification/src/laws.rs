//! Laws of the frame lifecycle, proved over the spec-level transitions.
//!
//! Each law is stated against `RendererView` and the transition functions
//! that `Renderer`'s contracts pin its methods to, so the laws speak about
//! any sequence of calls on the executable orchestrator.

use vstd::prelude::*;

use crate::renderer::{
    lemma_begin_frame_wf, lemma_end_frame_wf, lemma_idle_wf, lemma_resize_wf, RenderFrame,
    RendererView,
};
use crate::swapchain::Extent2D;
use crate::trace::{AcquireOutcome, FenceState, TraceEvent};

verus! {

/// Slot rotation: a successful begin/release cycle hands out the slot equal
/// to the cycle count modulo the ring size, increments the cycle count, and
/// re-establishes the invariant — so after `N` successful cycles from a fresh
/// orchestrator the occupied slot is exactly `N mod F`.
pub proof fn lemma_slot_rotation(v: RendererView, image: usize)
    requires
        v.wf(),
        v.alive,
        v.recording is None,
        image < v.image_count,
        v.frames_completed < u64::MAX,
    ensures
        ({
            let (v1, r) = v.begin_frame_spec(AcquireOutcome::Acquired(image));
            &&& r is Some
            &&& (r matches Some(f) ==> {
                let v2 = v1.end_frame_spec(f);
                &&& f.slot == v.current_frame
                &&& f.slot as int == v.frames_completed as int % v.frames_in_flight as int
                &&& v2.frames_completed == v.frames_completed + 1
                &&& v2.current_frame as int == v2.frames_completed as int
                    % v2.frames_in_flight as int
                &&& v2.frames_in_flight == v.frames_in_flight
                &&& v2.recording is None
                &&& v2.wf()
            })
        }),
{
    lemma_begin_frame_wf(v, AcquireOutcome::Acquired(image));
    let (v1, r) = v.begin_frame_spec(AcquireOutcome::Acquired(image));
    let f = r->Some_0;
    lemma_end_frame_wf(v1, f);
}

/// One full begin/release cycle that acquired `image`.
pub open spec fn cycle(v: RendererView, image: usize) -> RendererView {
    let (v1, r) = v.begin_frame_spec(AcquireOutcome::Acquired(image));
    v1.end_frame_spec(r->Some_0)
}

/// The state after a run of successful cycles acquiring the given images.
pub open spec fn run_cycles(v: RendererView, images: Seq<usize>) -> RendererView
    decreases images.len(),
{
    if images.len() == 0 {
        v
    } else {
        run_cycles(cycle(v, images[0]), images.subrange(1, images.len() as int))
    }
}

/// One cycle preserves the invariant and advances the cycle count by one.
pub proof fn lemma_cycle(v: RendererView, image: usize)
    requires
        v.wf(),
        v.alive,
        v.recording is None,
        image < v.image_count,
        v.frames_completed < u64::MAX,
    ensures
        ({
            let w = cycle(v, image);
            &&& w.wf()
            &&& w.alive
            &&& w.recording is None
            &&& w.image_count == v.image_count
            &&& w.frames_in_flight == v.frames_in_flight
            &&& w.frames_completed == v.frames_completed + 1
        }),
{
    lemma_begin_frame_wf(v, AcquireOutcome::Acquired(image));
    let (v1, r) = v.begin_frame_spec(AcquireOutcome::Acquired(image));
    lemma_end_frame_wf(v1, r->Some_0);
}

/// Slot rotation over any run: after `N` successful begin/release cycles the
/// cycle count has grown by `N` and the occupied slot is the cycle count
/// modulo the ring size — for a freshly built orchestrator, exactly
/// `N mod F`.
pub proof fn lemma_slot_rotation_run(v: RendererView, images: Seq<usize>)
    requires
        v.wf(),
        v.alive,
        v.recording is None,
        forall|i: int| 0 <= i < images.len() ==> #[trigger] images[i] < v.image_count,
        v.frames_completed + images.len() <= u64::MAX,
    ensures
        ({
            let w = run_cycles(v, images);
            &&& w.wf()
            &&& w.alive
            &&& w.recording is None
            &&& w.frames_in_flight == v.frames_in_flight
            &&& w.frames_completed == v.frames_completed + images.len()
            &&& w.current_frame as int == (v.frames_completed + images.len())
                % v.frames_in_flight as int
        }),
    decreases images.len(),
{
    if images.len() == 0 {
    } else {
        lemma_cycle(v, images[0]);
        let w1 = cycle(v, images[0]);
        let rest = images.subrange(1, images.len() as int);
        assert(forall|i: int| 0 <= i < rest.len() ==> #[trigger] rest[i] < w1.image_count);
        lemma_slot_rotation_run(w1, rest);
    }
}

/// Number of submissions recorded in a trace.
pub open spec fn submissions_in(t: Seq<TraceEvent>) -> nat
    decreases t.len(),
{
    if t.len() == 0 {
        0nat
    } else {
        submissions_in(t.drop_last()) + (if t.last() is WorkSubmitted {
            1nat
        } else {
            0nat
        })
    }
}

/// Number of presentations recorded in a trace.
pub open spec fn presents_in(t: Seq<TraceEvent>) -> nat
    decreases t.len(),
{
    if t.len() == 0 {
        0nat
    } else {
        presents_in(t.drop_last()) + (if t.last() is ImagePresented {
            1nat
        } else {
            0nat
        })
    }
}

proof fn lemma_counts_push(t: Seq<TraceEvent>, e: TraceEvent)
    ensures
        submissions_in(t.push(e)) == submissions_in(t) + (if e is WorkSubmitted {
            1nat
        } else {
            0nat
        }),
        presents_in(t.push(e)) == presents_in(t) + (if e is ImagePresented {
            1nat
        } else {
            0nat
        }),
{
    assert(t.push(e).drop_last() =~= t);
    assert(t.push(e).last() == e);
}

proof fn lemma_counts_add(a: Seq<TraceEvent>, b: Seq<TraceEvent>)
    ensures
        submissions_in(a + b) == submissions_in(a) + submissions_in(b),
        presents_in(a + b) == presents_in(a) + presents_in(b),
    decreases b.len(),
{
    if b.len() == 0 {
        assert(a + b =~= a);
    } else {
        lemma_counts_add(a, b.drop_last());
        assert((a + b).drop_last() =~= a + b.drop_last());
        assert((a + b).last() == b.last());
    }
}

proof fn lemma_counts_quiet(t: Seq<TraceEvent>)
    requires
        forall|i: int| 0 <= i < t.len()
            ==> !(#[trigger] t[i] is WorkSubmitted) && !(t[i] is ImagePresented),
    ensures
        submissions_in(t) == 0,
        presents_in(t) == 0,
    decreases t.len(),
{
    if t.len() > 0 {
        assert(forall|i: int| 0 <= i < t.drop_last().len()
            ==> #[trigger] t.drop_last()[i] == t[i]);
        lemma_counts_quiet(t.drop_last());
        assert(t.last() == t[t.len() - 1]);
    }
}

/// One successful cycle records exactly one submission and one present.
pub proof fn lemma_cycle_counts(v: RendererView, image: usize)
    requires
        v.wf(),
        v.alive,
        v.recording is None,
        image < v.image_count,
        v.frames_completed < u64::MAX,
    ensures
        submissions_in(cycle(v, image).trace) == submissions_in(v.trace) + 1,
        presents_in(cycle(v, image).trace) == presents_in(v.trace) + 1,
{
    let v0 = v.after_recreate();
    if v.rebuild is Some {
        let chunk = v0.trace.subrange(v.trace.len() as int, v0.trace.len() as int);
        assert(v0.trace =~= v.trace + chunk);
        lemma_counts_quiet(chunk);
        lemma_counts_add(v.trace, chunk);
    }
    let v1 = v0.after_wait();
    lemma_counts_push(v0.trace, TraceEvent::FenceWaited { slot: v0.current_frame });
    let (v4, r) = v1.after_acquire_success(image);
    let slot = v1.current_frame;
    let v2trace = v1.trace.push(TraceEvent::ImageAcquired { slot, image });
    lemma_counts_push(v1.trace, TraceEvent::ImageAcquired { slot, image });
    let v2 = RendererView { trace: v2trace, ..v1 };
    let v3 = v2.after_owner_wait(image);
    if v2.owner_wait_triggered(image) {
        let owner = v2.owners[image as int]->Some_0;
        lemma_counts_push(v2trace, TraceEvent::OwnerFenceWaited { image, owner });
    }
    let begin_tail = seq![
        TraceEvent::FenceReset { slot },
        TraceEvent::RecordingBegan { slot, image },
    ];
    lemma_counts_quiet(begin_tail);
    lemma_counts_add(v3.trace, begin_tail);
    let f = r->Some_0;
    let end_tail = seq![
        TraceEvent::RecordingEnded { slot: f.slot },
        TraceEvent::WorkSubmitted { slot: f.slot, image: f.image_index },
        TraceEvent::ImagePresented { image: f.image_index },
    ];
    assert(end_tail =~= Seq::empty()
        .push(TraceEvent::RecordingEnded { slot: f.slot })
        .push(TraceEvent::WorkSubmitted { slot: f.slot, image: f.image_index })
        .push(TraceEvent::ImagePresented { image: f.image_index }));
    lemma_counts_push(Seq::empty(), TraceEvent::RecordingEnded { slot: f.slot });
    lemma_counts_push(
        Seq::empty().push(TraceEvent::RecordingEnded { slot: f.slot }),
        TraceEvent::WorkSubmitted { slot: f.slot, image: f.image_index },
    );
    lemma_counts_push(
        Seq::empty().push(TraceEvent::RecordingEnded { slot: f.slot }).push(
            TraceEvent::WorkSubmitted { slot: f.slot, image: f.image_index },
        ),
        TraceEvent::ImagePresented { image: f.image_index },
    );
    lemma_counts_add(v4.trace, end_tail);
}

/// Exactly `N` submissions and `N` presents are recorded by a run of `N`
/// successful cycles — the counting half of the end-to-end scenario.
pub proof fn lemma_run_cycle_counts(v: RendererView, images: Seq<usize>)
    requires
        v.wf(),
        v.alive,
        v.recording is None,
        forall|i: int| 0 <= i < images.len() ==> #[trigger] images[i] < v.image_count,
        v.frames_completed + images.len() <= u64::MAX,
    ensures
        submissions_in(run_cycles(v, images).trace) == submissions_in(v.trace) + images.len(),
        presents_in(run_cycles(v, images).trace) == presents_in(v.trace) + images.len(),
    decreases images.len(),
{
    if images.len() > 0 {
        lemma_cycle(v, images[0]);
        lemma_cycle_counts(v, images[0]);
        let w1 = cycle(v, images[0]);
        let rest = images.subrange(1, images.len() as int);
        assert(forall|i: int| 0 <= i < rest.len() ==> #[trigger] rest[i] < w1.image_count);
        lemma_run_cycle_counts(w1, rest);
    }
}

/// Owner-fence safety: when a frame acquires image `i`, recording begins
/// only as the very last step of the call, and if a previous frame `s` still
/// owned the image, `s`'s completion fence has been observed signaled before
/// that point — either it was already signaled when the call began, or this
/// call waited on it (as the slot's own per-frame wait when `s` is the
/// current slot, or as an owner-fence wait recorded in the trace before
/// recording began).
pub proof fn lemma_owner_fence_safety(v: RendererView, image: usize)
    requires
        v.wf(),
        v.alive,
        v.recording is None,
        v.rebuild is None,
        image < v.image_count,
    ensures
        ({
            let (v1, r) = v.begin_frame_spec(AcquireOutcome::Acquired(image));
            let t = v1.trace;
            let slot = v.current_frame;
            &&& r is Some
            &&& t.len() > v.trace.len()
            &&& t.last() == (TraceEvent::RecordingBegan { slot, image })
            &&& (v.owners[image as int] matches Some(s) ==> {
                // By the time recording begins, the old owner's fence is no
                // longer pending:
                &&& (s != slot ==> v1.fences[s as int] == FenceState::Signaled)
                // and how it got there is visible: it was signaled before the
                // call, or a wait on it stands in the trace strictly before
                // the recording-began event.
                &&& (v.fences[s as int] == FenceState::Signaled || (exists|j: int|
                    v.trace.len() <= j < t.len() - 1 && #[trigger] t[j] == (
                    TraceEvent::OwnerFenceWaited { image, owner: s }))
                    || (s == slot && exists|j: int|
                    v.trace.len() <= j < t.len() - 1 && #[trigger] t[j] == (
                    TraceEvent::FenceWaited { slot: s })))
            })
        }),
{
    lemma_begin_frame_wf(v, AcquireOutcome::Acquired(image));
    let (v1, r) = v.begin_frame_spec(AcquireOutcome::Acquired(image));
    let t = v1.trace;
    let slot = v.current_frame;
    let base = v.trace.len() as int;
    let vw = v.after_wait();
    let v2 = RendererView {
        trace: vw.trace.push(TraceEvent::ImageAcquired { slot, image }),
        ..vw
    };
    let v3 = v2.after_owner_wait(image);
    let triggered = v2.owner_wait_triggered(image);
    // Lay out the trace of the successful path.
    assert(t[base] == (TraceEvent::FenceWaited { slot }));
    if triggered {
        assert(t.len() == base + 5);
        assert(t[base + 2] == (TraceEvent::OwnerFenceWaited {
            image,
            owner: v.owners[image as int]->Some_0,
        }));
        assert(t[base + 4] == (TraceEvent::RecordingBegan { slot, image }));
    } else {
        assert(t.len() == base + 4);
        assert(t[base + 3] == (TraceEvent::RecordingBegan { slot, image }));
    }
    if v.owners[image as int] is Some {
        let s = v.owners[image as int]->Some_0;
        if v.fences[s as int] == FenceState::Signaled {
        } else {
            // wf excludes Unsignaled outside recording, so the fence was
            // pending at entry.
            assert(v.fences[s as int] == FenceState::Pending);
            if s == slot {
                // The slot's own wait signaled it; owner wait not triggered.
                assert(vw.fences[s as int] == FenceState::Signaled);
                assert(!triggered);
                assert(t[base] == (TraceEvent::FenceWaited { slot: s }));
                assert(base <= base < t.len() - 1);
            } else {
                assert(vw.fences[s as int] == FenceState::Pending);
                assert(triggered);
                assert(t[base + 2] == (TraceEvent::OwnerFenceWaited { image, owner: s }));
                assert(base <= base + 2 < t.len() - 1);
                assert(v3.fences[s as int] == FenceState::Signaled);
            }
        }
    }
}

/// Presentation ordering: releasing a frame records the submission that
/// signals the image's present-ready semaphore strictly before the
/// presentation of that same image, as the final two steps of the cycle —
/// the display is never handed an image whose rendering was not submitted.
pub proof fn lemma_present_after_submit(v: RendererView, frame: RenderFrame)
    requires
        v.wf(),
        v.recording == Some(frame),
        v.frames_completed < u64::MAX,
    ensures
        ({
            let t = v.end_frame_spec(frame).trace;
            &&& t.len() == v.trace.len() + 3
            &&& t[t.len() - 2] == (TraceEvent::WorkSubmitted {
                slot: frame.slot,
                image: frame.image_index,
            })
            &&& t[t.len() - 1] == (TraceEvent::ImagePresented { image: frame.image_index })
        }),
{
}

/// Resize idempotence: requesting the currently active extent while no
/// recreate is pending changes nothing at all.
pub proof fn lemma_resize_idempotent(v: RendererView)
    requires
        v.wf(),
        v.rebuild is None,
    ensures
        v.after_resize(v.extent.width, v.extent.height) == v,
{
}

/// Resize correctness: after `handle_resize(width, height)` with a valid
/// extent, the next successful `begin_frame` hands out a frame whose target
/// extent is exactly `(width, height)`.
pub proof fn lemma_resize_applies(v: RendererView, width: u32, height: u32, image: usize)
    requires
        v.wf(),
        v.alive,
        v.recording is None,
        width > 0,
        height > 0,
        image < v.image_count,
    ensures
        ({
            let v1 = v.after_resize(width, height);
            let (v2, r) = v1.begin_frame_spec(AcquireOutcome::Acquired(image));
            &&& r is Some
            &&& (r matches Some(f) ==> f.extent == (Extent2D { width, height }))
            &&& v2.extent == (Extent2D { width, height })
        }),
{
    lemma_resize_wf(v, width, height);
    let v1 = v.after_resize(width, height);
    lemma_begin_frame_wf(v1, AcquireOutcome::Acquired(image));
}

/// Out-of-date recovery: an acquire that reports "out of date" at call `k`
/// yields no frame and queues a recreate; the next call performs the
/// recreate — bumping the surface generation — and, when its acquire
/// succeeds, yields a frame.
pub proof fn lemma_out_of_date_recovery(v: RendererView, image: usize)
    requires
        v.wf(),
        v.alive,
        v.recording is None,
        v.rebuild is None,
        image < v.image_count,
        v.generation < u64::MAX,
    ensures
        ({
            let (v1, r1) = v.begin_frame_spec(AcquireOutcome::OutOfDate);
            let (v2, r2) = v1.begin_frame_spec(AcquireOutcome::Acquired(image));
            &&& r1 is None
            &&& v1.rebuild == Some(v.extent)
            &&& r2 is Some
            &&& v2.generation == v.generation + 1
            &&& v2.rebuild is None
        }),
{
    lemma_begin_frame_wf(v, AcquireOutcome::OutOfDate);
    let (v1, r1) = v.begin_frame_spec(AcquireOutcome::OutOfDate);
    lemma_begin_frame_wf(v1, AcquireOutcome::Acquired(image));
}

/// Teardown ordering: teardown succeeds exactly when no work has been
/// submitted since the last device-idle barrier.  A violating teardown is
/// flagged in the trace and destroys nothing; after an idle barrier,
/// teardown is accepted and destroys resources in dependency order.
pub proof fn lemma_teardown_ordering(v: RendererView)
    requires
        v.wf(),
        v.recording is None,
    ensures
        v.destroy_spec().1 <==> v.submits_since_idle == 0,
        !v.destroy_spec().1 ==> ({
            let w = v.destroy_spec().0;
            &&& w.alive == v.alive
            &&& w.trace.last() == TraceEvent::TeardownViolation
            &&& w == (RendererView { trace: v.trace.push(TraceEvent::TeardownViolation), ..v })
        }),
        v.idle_spec().destroy_spec().1,
        v.destroy_spec().1 ==> ({
            let w = v.destroy_spec().0;
            &&& !w.alive
            &&& w.trace == v.trace + seq![
                TraceEvent::PipelinesDestroyed,
                TraceEvent::SyncObjectsDestroyed,
                TraceEvent::CommandPoolDestroyed,
                TraceEvent::SurfaceDestroyed { generation: v.generation },
            ]
        }),
{
    lemma_idle_wf(v);
}

} // verus!
