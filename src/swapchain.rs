use vstd::prelude::*;
use crate::descriptor::DescriptorTable;
use crate::error::FrameError;
use crate::resource::{Barrier, ResourceState};

verus! {

/// The buffers of a swapchain: the state each buffer's resource is in, and
/// the table of their render-target descriptors.
pub struct SwapChain {
    /// `states[i]` is the state of buffer `i`'s resource.
    pub states: Vec<ResourceState>,
    pub table: DescriptorTable,
}

impl SwapChain {
    /// At least one buffer, one descriptor per buffer, all addressable.
    pub open spec fn wf(&self) -> bool {
        &&& self.table.wf()
        &&& self.states@.len() == self.table.count
        &&& self.table.count >= 1
    }

    /// Every buffer is ready to be presented.
    pub open spec fn all_present(&self) -> bool {
        forall|i: int| 0 <= i < self.states@.len() ==> self.states@[i] == ResourceState::Present
    }

    /// `count` buffers, all in `Present`, whose descriptors lie `increment`
    /// apart from `heap_start`. `InvalidConfig` when `count` is zero or the
    /// table does not fit the address space.
    pub fn new(count: usize, heap_start: usize, increment: usize) -> (r: Result<
        SwapChain,
        FrameError,
    >)
        ensures
            (count == 0 || heap_start + count * increment > usize::MAX) <==> r is Err,
            r matches Err(e) ==> e == FrameError::InvalidConfig,
            r matches Ok(s) ==> {
                &&& s.wf()
                &&& s.all_present()
                &&& s.table == DescriptorTable { heap_start, increment, count }
            },
    {
        if count == 0 {
            return Err(FrameError::InvalidConfig);
        }
        let table = match DescriptorTable::new(heap_start, increment, count) {
            Ok(t) => t,
            Err(e) => return Err(e),
        };
        let mut states: Vec<ResourceState> = Vec::new();
        let mut i: usize = 0;
        while i < count
            invariant
                i <= count,
                states@.len() == i,
                forall|j: int| 0 <= j < i ==> states@[j] == ResourceState::Present,
            decreases count - i,
        {
            states.push(ResourceState::Present);
            i = i + 1;
        }
        Ok(SwapChain { states, table })
    }

    /// Number of buffers.
    pub fn len(&self) -> (r: usize)
        ensures
            r == self.states@.len(),
    {
        self.states.len()
    }

    /// The buffer to draw into next, as the presentation engine reported it:
    /// `reported` itself when it names a buffer, `InvalidBufferIndex` when it
    /// does not.
    pub fn current_index(&self, reported: u32) -> (r: Result<usize, FrameError>)
        ensures
            reported < self.states@.len() ==> r == Ok::<usize, FrameError>(reported as usize),
            reported >= self.states@.len() ==> r == Err::<usize, FrameError>(
                FrameError::InvalidBufferIndex,
            ),
    {
        if (reported as usize) < self.states.len() {
            Ok(reported as usize)
        } else {
            Err(FrameError::InvalidBufferIndex)
        }
    }

    /// The render-target descriptor of buffer `index`:
    /// `heap_start + index * increment`.
    pub fn render_target_view(&self, index: usize) -> (r: usize)
        requires
            self.wf(),
            index < self.states@.len(),
        ensures
            r == self.table.heap_start + index * self.table.increment,
    {
        self.table.handle(index)
    }

    /// The state of buffer `index`'s resource.
    pub fn state(&self, index: usize) -> (r: ResourceState)
        requires
            index < self.states@.len(),
        ensures
            r == self.states@[index as int],
    {
        self.states[index]
    }

    /// Moves buffer `slot` into state `after`, returning the barrier that
    /// records the move from the state it was in.
    pub fn transition(&mut self, slot: usize, after: ResourceState) -> (r: Barrier)
        requires
            slot < old(self).states@.len(),
            old(self).states@[slot as int] != after,
        ensures
            r == (Barrier { slot, before: old(self).states@[slot as int], after }),
            final(self).states@ == old(self).states@.update(slot as int, after),
            final(self).table == old(self).table,
    {
        let before = self.states[slot];
        self.states.set(slot, after);
        Barrier { slot, before, after }
    }
}

} // verus!
