use vstd::prelude::*;

verus! {

/// Why an audio operation failed.
#[derive(Debug, Clone, Copy, PartialEq, Eq, Structural)]
pub enum AudioError {
    /// The requested buffer and period durations are not accepted together.
    InvalidDevicePeriod,
    /// A reported device period does not fit the nanosecond range.
    InvalidPeriod,
    /// The device reported a state value outside the defined flags.
    UnknownDeviceState(u32),
    /// No device stands at this index of the collection.
    InvalidIndex(u32),
    /// The operation is not permitted in the session's current state.
    InvalidState,
    /// The device reported more queued frames than its buffer holds.
    PaddingExceedsBuffer,
    /// The playback source holds no complete frame.
    EmptySource,
    /// The device's mix format cannot be rendered to.
    UnsupportedFormat,
}

} // verus!
