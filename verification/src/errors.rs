use vstd::prelude::*;

verus! {

/// Errors reported by the write pipeline.
///
/// Every error is returned to the immediate caller; nothing is retried or
/// silently swallowed inside the pipeline.
#[derive(Clone, Copy, Debug, PartialEq, Eq, Structural)]
pub enum SpiError {
    /// Data bytes were submitted before any command byte was set.
    ProtocolViolation,
    /// Appending the submitted data would exceed the accumulator capacity.
    CapacityExceeded,
    /// A transfer buffer could not be allocated at enqueue time.
    OutOfMemory,
    /// A bounded wait elapsed: throttle acquisition or completion wait.
    Timeout,
    /// An underlying peripheral primitive reported a failure.
    DeviceError,
    /// The enqueue or release accounting failed despite the throttle tokens;
    /// this indicates a broken invariant rather than an expected condition.
    QueueError,
}

} // verus!
