//! Command-recording slots, one reusable buffer per frame in flight.
//!
//! Each buffer is reset and re-recorded every cycle through its slot.  The
//! contracts enforce that at most one buffer is ever in the recording state:
//! slot occupancy is serialized by the completion fence, so no two logical
//! frames may record concurrently.

use vstd::prelude::*;

use crate::trace::CommandBufferState;

verus! {

/// A pool of per-slot command buffers, tracked by recording state.
pub struct CommandPool {
    pub buffers: Vec<CommandBufferState>,
}

impl CommandPool {
    /// No buffer is currently being recorded.
    pub open spec fn none_recording(&self) -> bool {
        forall|i: int| 0 <= i < self.buffers@.len()
            ==> self.buffers@[i] != CommandBufferState::Recording
    }

    /// Allocate `buffer_count` buffers, all ready to record.
    pub fn new(buffer_count: usize) -> (r: CommandPool)
        requires
            buffer_count >= 1,
        ensures
            r.buffers@ == Seq::new(buffer_count as nat, |i: int| CommandBufferState::Initial),
            r.none_recording(),
    {
        let mut buffers: Vec<CommandBufferState> = Vec::new();
        let mut k: usize = 0;
        while k < buffer_count
            invariant
                k <= buffer_count,
                buffers@ =~= Seq::new(k as nat, |i: int| CommandBufferState::Initial),
            decreases buffer_count - k,
        {
            buffers.push(CommandBufferState::Initial);
            k = k + 1;
        }
        CommandPool { buffers }
    }

    /// Allocate `count` further buffers.
    pub fn allocate_buffers(&mut self, count: usize)
        requires
            old(self).buffers@.len() + count <= usize::MAX,
        ensures
            final(self).buffers@ == old(self).buffers@
                + Seq::new(count as nat, |i: int| CommandBufferState::Initial),
    {
        let mut k: usize = 0;
        while k < count
            invariant
                k <= count,
                self.buffers@ =~= old(self).buffers@
                    + Seq::new(k as nat, |i: int| CommandBufferState::Initial),
            decreases count - k,
        {
            self.buffers.push(CommandBufferState::Initial);
            k = k + 1;
        }
    }

    /// Reset one buffer so it can be recorded again.
    pub fn reset_buffer(&mut self, index: usize)
        requires
            index < old(self).buffers@.len(),
            old(self).buffers@[index as int] != CommandBufferState::Recording,
        ensures
            final(self).buffers@
                == old(self).buffers@.update(index as int, CommandBufferState::Initial),
    {
        self.buffers.set(index, CommandBufferState::Initial);
    }

    /// Begin recording into a reset buffer; no other buffer may be recording.
    pub fn begin_recording(&mut self, index: usize)
        requires
            index < old(self).buffers@.len(),
            old(self).buffers@[index as int] == CommandBufferState::Initial,
            old(self).none_recording(),
        ensures
            final(self).buffers@
                == old(self).buffers@.update(index as int, CommandBufferState::Recording),
    {
        self.buffers.set(index, CommandBufferState::Recording);
    }

    /// Only the given buffer, if any, is being recorded.
    pub open spec fn only_recording(&self, index: usize) -> bool {
        forall|i: int| 0 <= i < self.buffers@.len() && i != index as int
            ==> self.buffers@[i] != CommandBufferState::Recording
    }

    /// End recording; the buffer now holds a submittable command stream.
    pub fn end_recording(&mut self, index: usize)
        requires
            index < old(self).buffers@.len(),
            old(self).buffers@[index as int] == CommandBufferState::Recording,
            old(self).only_recording(index),
        ensures
            final(self).buffers@
                == old(self).buffers@.update(index as int, CommandBufferState::Executable),
            final(self).none_recording(),
    {
        self.buffers.set(index, CommandBufferState::Executable);
        proof {
            assert forall|i: int| 0 <= i < self.buffers@.len()
                implies self.buffers@[i] != CommandBufferState::Recording by {
                if i != index as int {
                    assert(self.buffers@[i] == old(self).buffers@[i]);
                }
            }
        }
    }

    /// Reset every buffer in the pool.
    pub fn reset(&mut self)
        requires
            old(self).none_recording(),
        ensures
            final(self).buffers@
                == Seq::new(old(self).buffers@.len(), |i: int| CommandBufferState::Initial),
    {
        let n = self.buffers.len();
        let mut k: usize = 0;
        while k < n
            invariant
                k <= n,
                self.buffers@.len() == n,
                forall|i: int| 0 <= i < k ==> self.buffers@[i] == CommandBufferState::Initial,
            decreases n - k,
        {
            self.buffers.set(k, CommandBufferState::Initial);
            k = k + 1;
        }
        proof {
            assert(self.buffers@
                =~= Seq::new(old(self).buffers@.len(), |i: int| CommandBufferState::Initial));
        }
    }
}

} // verus!
