use vstd::prelude::*;
use crate::error::FrameError;

verus! {

/// A table of render-target descriptors, one per buffer, laid out at a
/// fixed stride from the start of the descriptor heap.
#[derive(Clone, Copy, Debug, PartialEq, Eq, Structural)]
pub struct DescriptorTable {
    /// Address of the first descriptor.
    pub heap_start: usize,
    /// Distance between two descriptors; device-specific.
    pub increment: usize,
    /// Number of descriptors.
    pub count: usize,
}

impl DescriptorTable {
    /// Every descriptor of the table, and the end of the table, have an address.
    pub open spec fn wf(self) -> bool {
        self.heap_start + self.count * self.increment <= usize::MAX
    }

    /// Address of descriptor `index`.
    pub open spec fn handle_of(self, index: int) -> int {
        self.heap_start + index * self.increment
    }

    /// The table of `count` descriptors `increment` apart from `heap_start`;
    /// `InvalidConfig` when it does not fit the address space.
    pub fn new(heap_start: usize, increment: usize, count: usize) -> (r: Result<
        DescriptorTable,
        FrameError,
    >)
        ensures
            heap_start + count * increment <= usize::MAX ==> r == Ok::<DescriptorTable, FrameError>(
                DescriptorTable { heap_start, increment, count },
            ),
            heap_start + count * increment > usize::MAX ==> r == Err::<DescriptorTable, FrameError>(
                FrameError::InvalidConfig,
            ),
    {
        match count.checked_mul(increment) {
            None => {
                assert(count * increment >= 0) by (nonlinear_arith)
                    requires
                        count >= 0,
                        increment >= 0,
                ;
                Err(FrameError::InvalidConfig)
            },
            Some(span) => match heap_start.checked_add(span) {
                None => Err(FrameError::InvalidConfig),
                Some(_) => Ok(DescriptorTable { heap_start, increment, count }),
            },
        }
    }

    /// Address of the descriptor of buffer `index`: `heap_start + index * increment`.
    pub fn handle(&self, index: usize) -> (r: usize)
        requires
            self.wf(),
            index < self.count,
        ensures
            r == self.handle_of(index as int),
    {
        proof {
            let (c, i, k) = (self.count as int, index as int, self.increment as int);
            assert(i * k <= c * k) by (nonlinear_arith)
                requires
                    0 <= i <= c,
                    0 <= k,
            ;
        }
        self.heap_start + index * self.increment
    }
}

} // verus!
