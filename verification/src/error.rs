//! The failures of a control cycle.

use vstd::prelude::*;

verus! {

/// Why a control cycle, or one of its parts, failed.
#[derive(Clone, Copy, Debug, PartialEq, Eq, Structural)]
pub enum CycleError {
    /// No capture device could be opened or configured.
    DeviceUnavailable,
    /// The device was polled as often as allowed and never had a frame.
    NoFrameAvailable,
    /// The pixel buffer of a frame does not fit its dimensions.
    InvalidFrame,
    /// The frame has no pixels.
    EmptyFrame,
    /// The current display level could not be read.
    SinkReadError,
    /// The new display level could not be written.
    SinkWriteError,
}

} // verus!
