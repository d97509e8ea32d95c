use vstd::prelude::*;
use crate::error::FrameError;

verus! {

/// What a wait on the fence asks of the caller.
#[derive(Clone, Copy, Debug, PartialEq, Eq, Structural)]
pub enum WaitStep {
    /// The awaited value is reached: go on without blocking.
    Reached,
    /// The awaited value is not reached yet: block until the GPU signals it
    /// or the timeout ends, then report the completed value again.
    Block,
}

/// The CPU's account of a GPU fence: the last value submitted for the GPU
/// to signal, and the highest value the GPU has reported as completed.
#[derive(Clone, Copy, Debug, PartialEq, Eq, Structural)]
pub struct Fence {
    pub submitted: u64,
    pub completed: u64,
}

impl Fence {
    /// The GPU never completes work that was not submitted.
    pub open spec fn wf(self) -> bool {
        self.completed <= self.submitted
    }

    /// Neither counter went back between `self` and `next`.
    pub open spec fn advances(self, next: Fence) -> bool {
        self.submitted <= next.submitted && self.completed <= next.completed
    }

    /// The fence once the GPU has reported `reported` as its completed
    /// value: a report above every submitted value comes from a lost device
    /// and changes nothing, and a stale report does not move the completed
    /// value back.
    pub open spec fn after_report(self, reported: u64) -> Fence {
        if reported <= self.submitted && reported > self.completed {
            Fence { completed: reported, ..self }
        } else {
            self
        }
    }

    /// What waiting for `target` gives when the GPU reports `reported`.
    pub open spec fn wait_result(self, target: u64, reported: u64) -> Result<WaitStep, FrameError> {
        if reported > self.submitted {
            Err(FrameError::DeviceLost)
        } else if self.after_report(reported).completed >= target {
            Ok(WaitStep::Reached)
        } else {
            Ok(WaitStep::Block)
        }
    }

    /// What a blocking wait for `target` gives when, once it has ended, the
    /// GPU reports `reported`.
    pub open spec fn finish_result(self, target: u64, reported: u64) -> Result<(), FrameError> {
        if reported > self.submitted {
            Err(FrameError::DeviceLost)
        } else if self.after_report(reported).completed >= target {
            Ok(())
        } else {
            Err(FrameError::SynchronizationTimeout)
        }
    }

    /// A fence with nothing submitted and nothing completed.
    pub fn new() -> (r: Fence)
        ensures
            r.wf(),
            r.submitted == 0,
            r.completed == 0,
    {
        Fence { submitted: 0, completed: 0 }
    }

    /// Advances the counter past the work just submitted and returns the
    /// value the queue must signal once that work completes.
    /// `CounterExhausted`, with nothing changed, when the counter is at its
    /// maximum.
    pub fn signal_after_submit(&mut self) -> (r: Result<u64, FrameError>)
        requires
            old(self).wf(),
        ensures
            final(self).wf(),
            old(self).advances(*final(self)),
            old(self).submitted < u64::MAX ==> {
                &&& r == Ok::<u64, FrameError>((old(self).submitted + 1) as u64)
                &&& *final(self) == Fence {
                    submitted: (old(self).submitted + 1) as u64,
                    ..*old(self)
                }
            },
            old(self).submitted == u64::MAX ==> {
                &&& r == Err::<u64, FrameError>(FrameError::CounterExhausted)
                &&& *final(self) == *old(self)
            },
    {
        if self.submitted == u64::MAX {
            Err(FrameError::CounterExhausted)
        } else {
            self.submitted = self.submitted + 1;
            Ok(self.submitted)
        }
    }

    /// Takes in the completed value the GPU reported. `DeviceLost`, with
    /// nothing changed, when it lies above every submitted value.
    pub fn observe(&mut self, reported: u64) -> (r: Result<(), FrameError>)
        requires
            old(self).wf(),
        ensures
            final(self).wf(),
            old(self).advances(*final(self)),
            *final(self) == old(self).after_report(reported),
            reported <= old(self).submitted ==> r is Ok,
            reported > old(self).submitted ==> r == Err::<(), FrameError>(FrameError::DeviceLost),
    {
        if reported > self.submitted {
            return Err(FrameError::DeviceLost);
        }
        if reported > self.completed {
            self.completed = reported;
        }
        Ok(())
    }

    /// Whether the caller must block to see `target` completed, given the
    /// completed value `reported` that the GPU reports now.
    pub fn wait_until(&mut self, target: u64, reported: u64) -> (r: Result<WaitStep, FrameError>)
        requires
            old(self).wf(),
        ensures
            final(self).wf(),
            old(self).advances(*final(self)),
            *final(self) == old(self).after_report(reported),
            r == old(self).wait_result(target, reported),
    {
        match self.observe(reported) {
            Err(e) => Err(e),
            Ok(()) => {
                if self.completed >= target {
                    Ok(WaitStep::Reached)
                } else {
                    Ok(WaitStep::Block)
                }
            },
        }
    }

    /// Ends a blocking wait for `target`, given the completed value
    /// `reported` that the GPU reports once the wait returned:
    /// `SynchronizationTimeout` when `target` is still not reached.
    pub fn finish_wait(&mut self, target: u64, reported: u64) -> (r: Result<(), FrameError>)
        requires
            old(self).wf(),
        ensures
            final(self).wf(),
            old(self).advances(*final(self)),
            *final(self) == old(self).after_report(reported),
            r == old(self).finish_result(target, reported),
    {
        match self.observe(reported) {
            Err(e) => Err(e),
            Ok(()) => {
                if self.completed >= target {
                    Ok(())
                } else {
                    Err(FrameError::SynchronizationTimeout)
                }
            },
        }
    }
}

/// Over any run of fence operations, each of which leaves both counters
/// where they were or moves them up, the value signalled at an earlier step
/// is below the value signalled at a later one.
pub proof fn lemma_signals_strictly_increase(trace: Seq<Fence>, i: int, j: int)
    requires
        forall|k: int| 0 <= k < trace.len() - 1 ==> #[trigger] trace[k].advances(trace[k + 1]),
        0 <= i < j,
        j + 1 < trace.len(),
        trace[i + 1].submitted == trace[i].submitted + 1,
        trace[j + 1].submitted == trace[j].submitted + 1,
    ensures
        trace[i + 1].submitted < trace[j + 1].submitted,
    decreases j - i,
{
    if j == i + 1 {
    } else {
        lemma_submitted_monotone(trace, i + 1, j);
    }
}

proof fn lemma_submitted_monotone(trace: Seq<Fence>, a: int, b: int)
    requires
        forall|k: int| 0 <= k < trace.len() - 1 ==> #[trigger] trace[k].advances(trace[k + 1]),
        0 <= a <= b < trace.len(),
    ensures
        trace[a].submitted <= trace[b].submitted,
    decreases b - a,
{
    if a < b {
        lemma_submitted_monotone(trace, a, b - 1);
        let k = b - 1;
        assert(trace[k].advances(trace[k + 1]));
    }
}

/// Waiting for a value that the first wait found reached returns at once a
/// second time, whatever valid value the GPU reports then, and the second
/// wait changes nothing when the report is the same.
pub proof fn lemma_wait_until_idempotent(f: Fence, target: u64, reported: u64, later: u64)
    requires
        f.wf(),
        f.wait_result(target, reported) == Ok::<WaitStep, FrameError>(WaitStep::Reached),
        later <= f.submitted,
    ensures
        f.after_report(reported).wait_result(target, later) == Ok::<WaitStep, FrameError>(
            WaitStep::Reached,
        ),
        f.after_report(reported).after_report(reported) == f.after_report(reported),
{
}

} // verus!
