//! Per-frame fences, per-image present semaphores, and image ownership.
//!
//! `FrameSynchronizer` owns one completion fence and one acquire semaphore per
//! frame-in-flight slot, one present-ready semaphore per presentable image,
//! and the owner map that records which slot is still rendering into which
//! image.  Acquire semaphores are indexed by slot and present-ready semaphores
//! by image on purpose: acquisition follows the frame ring while present
//! signaling must follow the physical image, and mixing the two index classes
//! reintroduces the image-reuse race the owner map exists to prevent.

use vstd::prelude::*;

use crate::trace::{FenceState, RenderError};

verus! {

/// Identifier of a frame slot's completion fence.
#[derive(Clone, Copy, Debug, PartialEq, Eq, Structural)]
pub struct FenceId {
    pub slot: usize,
}

/// Identifier of a frame slot's acquire semaphore.
#[derive(Clone, Copy, Debug, PartialEq, Eq, Structural)]
pub struct AcquireSemaphoreId {
    pub slot: usize,
}

/// Identifier of an image's present-ready semaphore.
#[derive(Clone, Copy, Debug, PartialEq, Eq, Structural)]
pub struct PresentSemaphoreId {
    pub image: usize,
}

/// Synchronization state for frames-in-flight rendering.
pub struct FrameSynchronizer {
    /// Completion fence state, one per frame-in-flight slot.
    pub in_flight_fences: Vec<FenceState>,
    /// Owner slot of each presentable image; `None` while the image is idle.
    pub images_in_flight: Vec<Option<usize>>,
    /// Number of frame-in-flight slots.
    pub max_frames: usize,
}

impl FrameSynchronizer {
    /// All recorded owner slots are in range for the frame ring.
    pub open spec fn owners_in_range(&self) -> bool {
        forall|i: int| 0 <= i < self.images_in_flight@.len()
            ==> (#[trigger] self.images_in_flight@[i] matches Some(s) ==> s < self.max_frames)
    }

    pub open spec fn wf(&self) -> bool {
        &&& self.max_frames >= 1
        &&& self.in_flight_fences@.len() == self.max_frames
        &&& self.images_in_flight@.len() >= 1
        &&& self.owners_in_range()
    }

    /// Create the synchronization state: one signaled fence per slot (so the
    /// first wait on each slot passes immediately) and an idle owner map.
    pub fn new(max_frames_in_flight: usize, swapchain_image_count: usize) -> (r: FrameSynchronizer)
        requires
            max_frames_in_flight >= 1,
            swapchain_image_count >= 1,
        ensures
            r.wf(),
            r.max_frames == max_frames_in_flight,
            r.in_flight_fences@ == Seq::new(max_frames_in_flight as nat, |i: int| FenceState::Signaled),
            r.images_in_flight@ == Seq::new(swapchain_image_count as nat, |i: int| Option::<usize>::None),
    {
        let mut fences: Vec<FenceState> = Vec::new();
        let mut k: usize = 0;
        while k < max_frames_in_flight
            invariant
                k <= max_frames_in_flight,
                fences@ =~= Seq::new(k as nat, |i: int| FenceState::Signaled),
            decreases max_frames_in_flight - k,
        {
            fences.push(FenceState::Signaled);
            k = k + 1;
        }
        let mut owners: Vec<Option<usize>> = Vec::new();
        let mut j: usize = 0;
        while j < swapchain_image_count
            invariant
                j <= swapchain_image_count,
                owners@ =~= Seq::new(j as nat, |i: int| Option::<usize>::None),
            decreases swapchain_image_count - j,
        {
            owners.push(None);
            j = j + 1;
        }
        FrameSynchronizer {
            in_flight_fences: fences,
            images_in_flight: owners,
            max_frames: max_frames_in_flight,
        }
    }

    /// Block until the slot's completion fence is signaled.
    ///
    /// Waiting on a fence that was reset but never submitted would block
    /// forever, so that state is excluded.
    pub fn wait_for_frame(&mut self, frame_index: usize) -> (r: Result<(), RenderError>)
        requires
            frame_index < old(self).in_flight_fences@.len(),
            old(self).in_flight_fences@[frame_index as int] != FenceState::Unsignaled,
        ensures
            r is Ok,
            final(self).in_flight_fences@
                == old(self).in_flight_fences@.update(frame_index as int, FenceState::Signaled),
            final(self).images_in_flight@ == old(self).images_in_flight@,
            final(self).max_frames == old(self).max_frames,
    {
        self.in_flight_fences.set(frame_index, FenceState::Signaled);
        Ok(())
    }

    /// Block on the slot's completion fence for a finite bound.
    ///
    /// Whether a pending fence signals within the bound is decided by the
    /// device; the caller reports it.  A fence that was already observed
    /// signaled needs no waiting at all.  A timeout is a recoverable error:
    /// the fence keeps its state and nothing else changes.
    pub fn wait_for_frame_timed(&mut self, frame_index: usize, signaled_within_bound: bool) -> (r:
        Result<(), RenderError>)
        requires
            frame_index < old(self).in_flight_fences@.len(),
            old(self).in_flight_fences@[frame_index as int] != FenceState::Unsignaled,
        ensures
            final(self).images_in_flight@ == old(self).images_in_flight@,
            final(self).max_frames == old(self).max_frames,
            ({
                let already = old(self).in_flight_fences@[frame_index as int]
                    == FenceState::Signaled;
                if already || signaled_within_bound {
                    &&& r is Ok
                    &&& final(self).in_flight_fences@ == old(self).in_flight_fences@.update(
                        frame_index as int,
                        FenceState::Signaled,
                    )
                } else {
                    &&& r == Err::<(), RenderError>(RenderError::SynchronizationTimeout)
                    &&& final(self).in_flight_fences@ == old(self).in_flight_fences@
                }
            }),
    {
        if matches!(self.in_flight_fences[frame_index], FenceState::Signaled) {
            proof {
                assert(self.in_flight_fences@ =~= self.in_flight_fences@.update(
                    frame_index as int,
                    FenceState::Signaled,
                ));
            }
            Ok(())
        } else if signaled_within_bound {
            self.in_flight_fences.set(frame_index, FenceState::Signaled);
            Ok(())
        } else {
            Err(RenderError::SynchronizationTimeout)
        }
    }

    /// Reset the slot's completion fence.
    ///
    /// Must only be called after `wait_for_frame` has observed the signal;
    /// resetting an unsignaled fence is a programmer error.
    pub fn reset_fence(&mut self, frame_index: usize) -> (r: Result<(), RenderError>)
        requires
            frame_index < old(self).in_flight_fences@.len(),
            old(self).in_flight_fences@[frame_index as int] == FenceState::Signaled,
        ensures
            r is Ok,
            final(self).in_flight_fences@
                == old(self).in_flight_fences@.update(frame_index as int, FenceState::Unsignaled),
            final(self).images_in_flight@ == old(self).images_in_flight@,
            final(self).max_frames == old(self).max_frames,
    {
        self.in_flight_fences.set(frame_index, FenceState::Unsignaled);
        Ok(())
    }

    /// Mark that the slot's fence is now pending: work was submitted with it.
    pub fn mark_submitted(&mut self, frame_index: usize)
        requires
            frame_index < old(self).in_flight_fences@.len(),
            old(self).in_flight_fences@[frame_index as int] == FenceState::Unsignaled,
        ensures
            final(self).in_flight_fences@
                == old(self).in_flight_fences@.update(frame_index as int, FenceState::Pending),
            final(self).images_in_flight@ == old(self).images_in_flight@,
            final(self).max_frames == old(self).max_frames,
    {
        self.in_flight_fences.set(frame_index, FenceState::Pending);
    }

    /// Record that `frame_index` is now rendering into `image_index`.
    pub fn mark_image_owner(&mut self, image_index: usize, frame_index: usize)
        requires
            image_index < old(self).images_in_flight@.len(),
            frame_index < old(self).max_frames,
        ensures
            final(self).images_in_flight@
                == old(self).images_in_flight@.update(image_index as int, Some(frame_index)),
            final(self).in_flight_fences@ == old(self).in_flight_fences@,
            final(self).max_frames == old(self).max_frames,
    {
        self.images_in_flight.set(image_index, Some(frame_index));
    }

    /// If the image's owner fence is still pending, wait on it and report the
    /// owner; otherwise nothing needs waiting and `None` is returned.
    ///
    /// This is the owner-fence check: before a slot re-acquires an image, any
    /// slot still rendering into it must be waited out, or two frames could
    /// write the same image concurrently.
    pub fn wait_if_owned(&mut self, image_index: usize) -> (r: Option<usize>)
        requires
            image_index < old(self).images_in_flight@.len(),
            old(self).owners_in_range(),
            old(self).in_flight_fences@.len() == old(self).max_frames,
        ensures
            final(self).images_in_flight@ == old(self).images_in_flight@,
            final(self).max_frames == old(self).max_frames,
            ({
                let owner = old(self).images_in_flight@[image_index as int];
                match r {
                    Some(s) => {
                        &&& owner == Some(s)
                        &&& old(self).in_flight_fences@[s as int] == FenceState::Pending
                        &&& final(self).in_flight_fences@
                            == old(self).in_flight_fences@.update(s as int, FenceState::Signaled)
                    },
                    None => {
                        &&& final(self).in_flight_fences@ == old(self).in_flight_fences@
                        &&& (owner matches Some(s)
                            ==> old(self).in_flight_fences@[s as int] != FenceState::Pending)
                    },
                }
            }),
    {
        match self.images_in_flight[image_index] {
            Some(s) => {
                if matches!(self.in_flight_fences[s], FenceState::Pending) {
                    self.in_flight_fences.set(s, FenceState::Signaled);
                    Some(s)
                } else {
                    None
                }
            },
            None => None,
        }
    }

    /// Clear the owner map; used when the image set is replaced.
    pub fn clear_image_owners(&mut self)
        ensures
            final(self).images_in_flight@
                == Seq::new(old(self).images_in_flight@.len(), |i: int| Option::<usize>::None),
            final(self).in_flight_fences@ == old(self).in_flight_fences@,
            final(self).max_frames == old(self).max_frames,
    {
        let n = self.images_in_flight.len();
        let mut k: usize = 0;
        while k < n
            invariant
                k <= n,
                self.images_in_flight@.len() == n,
                self.in_flight_fences@ == old(self).in_flight_fences@,
                self.max_frames == old(self).max_frames,
                forall|i: int| 0 <= i < k ==> self.images_in_flight@[i] is None,
                forall|i: int| k <= i < n
                    ==> self.images_in_flight@[i] == old(self).images_in_flight@[i],
            decreases n - k,
        {
            self.images_in_flight.set(k, None);
            k = k + 1;
        }
        proof {
            assert(self.images_in_flight@
                =~= Seq::new(old(self).images_in_flight@.len(), |i: int| Option::<usize>::None));
        }
    }

    /// Mark every pending fence signaled: the device has been idled, so all
    /// submitted work is complete.
    pub fn signal_all_pending(&mut self)
        ensures
            final(self).in_flight_fences@ == Seq::new(
                old(self).in_flight_fences@.len(),
                |i: int| if old(self).in_flight_fences@[i] == FenceState::Pending {
                    FenceState::Signaled
                } else {
                    old(self).in_flight_fences@[i]
                },
            ),
            final(self).images_in_flight@ == old(self).images_in_flight@,
            final(self).max_frames == old(self).max_frames,
    {
        let n = self.in_flight_fences.len();
        let mut k: usize = 0;
        while k < n
            invariant
                k <= n,
                self.in_flight_fences@.len() == n,
                self.images_in_flight@ == old(self).images_in_flight@,
                self.max_frames == old(self).max_frames,
                forall|i: int| 0 <= i < k ==> self.in_flight_fences@[i]
                    == (if old(self).in_flight_fences@[i] == FenceState::Pending {
                        FenceState::Signaled
                    } else {
                        old(self).in_flight_fences@[i]
                    }),
                forall|i: int| k <= i < n
                    ==> self.in_flight_fences@[i] == old(self).in_flight_fences@[i],
            decreases n - k,
        {
            if matches!(self.in_flight_fences[k], FenceState::Pending) {
                self.in_flight_fences.set(k, FenceState::Signaled);
            }
            k = k + 1;
        }
        proof {
            assert(self.in_flight_fences@ =~= Seq::new(
                old(self).in_flight_fences@.len(),
                |i: int| if old(self).in_flight_fences@[i] == FenceState::Pending {
                    FenceState::Signaled
                } else {
                    old(self).in_flight_fences@[i]
                },
            ));
        }
    }

    /// The slot's completion fence identifier.
    pub fn get_fence(&self, frame_index: usize) -> (r: FenceId)
        requires
            frame_index < self.max_frames,
        ensures
            r.slot == frame_index,
    {
        FenceId { slot: frame_index }
    }

    /// The slot's acquire-semaphore identifier (indexed by frame slot).
    pub fn get_acquire_semaphore(&self, frame_index: usize) -> (r: AcquireSemaphoreId)
        requires
            frame_index < self.max_frames,
        ensures
            r.slot == frame_index,
    {
        AcquireSemaphoreId { slot: frame_index }
    }

    /// The image's present-ready-semaphore identifier (indexed by image, not
    /// by frame slot).
    pub fn get_render_finished_semaphore(&self, image_index: usize) -> (r: PresentSemaphoreId)
        requires
            image_index < self.images_in_flight@.len(),
        ensures
            r.image == image_index,
    {
        PresentSemaphoreId { image: image_index }
    }

    /// Number of frame-in-flight slots.
    pub fn max_frames_in_flight(&self) -> (r: usize)
        ensures
            r == self.max_frames,
    {
        self.max_frames
    }
}

} // verus!
