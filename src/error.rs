use vstd::prelude::*;

verus! {

/// Why a frame, or the renderer's construction, could not go on.
#[derive(Clone, Copy, Debug, PartialEq, Eq, Structural)]
pub enum FrameError {
    /// No adapter within the probe window could create a device.
    NoCompatibleAdapter,
    /// A device object could not be created once an adapter was chosen.
    DeviceCreationFailed,
    /// The renderer was configured with no buffers, or with a descriptor
    /// table that does not fit the address space.
    InvalidConfig,
    /// The presentation engine named a buffer index outside `[0, N)`.
    InvalidBufferIndex,
    /// A step of command recording reported failure.
    RecordingFailed,
    /// The presentation engine rejected the surface.
    PresentFailed,
    /// The fence did not reach the awaited value before the wait ended.
    SynchronizationTimeout,
    /// The fence reported a completed value above every value submitted,
    /// which is how a removed device shows itself.
    DeviceLost,
    /// The fence counter cannot advance any further.
    CounterExhausted,
    /// The call does not fit the phase the current frame is in.
    OutOfOrder,
}

} // verus!
