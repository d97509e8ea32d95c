use vstd::prelude::*;
use crate::error::FrameError;

verus! {

/// Adapters are probed by index from 0 up to, not including, this bound.
pub const ADAPTER_PROBE_LIMIT: u32 = 99;

/// What probing one adapter index gave.
#[derive(Clone, Copy, Debug, PartialEq, Eq, Structural)]
pub enum ProbeOutcome {
    /// The adapter exists and created a device at the minimum feature level.
    Created,
    /// The adapter exists but could not create such a device.
    Rejected,
    /// No adapter has this index, nor any higher one.
    NoMoreAdapters,
}

/// What the caller does after a probe.
#[derive(Clone, Copy, Debug, PartialEq, Eq, Structural)]
pub enum AdapterChoice {
    /// Keep the adapter with this index and the device it created.
    Use(u32),
    /// Probe the adapter with this index next.
    Probe(u32),
}

/// The search for the first adapter, by index from 0, that creates a
/// device; `next` is the index being probed.
#[derive(Clone, Copy, Debug, PartialEq, Eq, Structural)]
pub struct AdapterSearch {
    pub next: u32,
}

impl AdapterSearch {
    pub open spec fn wf(self) -> bool {
        self.next < ADAPTER_PROBE_LIMIT
    }

    /// A search that probes adapter 0 first.
    pub fn new() -> (r: AdapterSearch)
        ensures
            r.wf(),
            r.next == 0,
    {
        AdapterSearch { next: 0 }
    }

    /// The index to probe now.
    pub fn current(&self) -> (r: u32)
        ensures
            r == self.next,
    {
        self.next
    }

    /// Takes in the outcome of probing adapter `next`: keep it if it created
    /// a device; else probe the following index, unless the adapters ran
    /// out or the probe window is spent, which fails the search with
    /// `NoCompatibleAdapter`.
    pub fn report(&mut self, outcome: ProbeOutcome) -> (r: Result<AdapterChoice, FrameError>)
        requires
            old(self).wf(),
        ensures
            final(self).wf(),
            outcome == ProbeOutcome::Created ==> {
                &&& r == Ok::<AdapterChoice, FrameError>(AdapterChoice::Use(old(self).next))
                &&& *final(self) == *old(self)
            },
            outcome == ProbeOutcome::Rejected && old(self).next + 1 < ADAPTER_PROBE_LIMIT ==> {
                &&& r == Ok::<AdapterChoice, FrameError>(
                    AdapterChoice::Probe((old(self).next + 1) as u32),
                )
                &&& final(self).next == old(self).next + 1
            },
            outcome == ProbeOutcome::NoMoreAdapters || (outcome == ProbeOutcome::Rejected
                && old(self).next + 1 >= ADAPTER_PROBE_LIMIT) ==> {
                &&& r == Err::<AdapterChoice, FrameError>(FrameError::NoCompatibleAdapter)
                &&& *final(self) == *old(self)
            },
    {
        match outcome {
            ProbeOutcome::Created => Ok(AdapterChoice::Use(self.next)),
            ProbeOutcome::NoMoreAdapters => Err(FrameError::NoCompatibleAdapter),
            ProbeOutcome::Rejected => {
                if self.next + 1 < ADAPTER_PROBE_LIMIT {
                    self.next = self.next + 1;
                    Ok(AdapterChoice::Probe(self.next))
                } else {
                    Err(FrameError::NoCompatibleAdapter)
                }
            },
        }
    }
}

} // verus!
