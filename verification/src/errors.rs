//! The error taxonomy of the capture pipeline. Every failure of a start
//! attempt is surfaced to the caller with a specific, human-readable reason;
//! none of them terminates the lifecycle runtime.

use vstd::prelude::*;

verus! {

/// Why a capture operation failed.
#[derive(Clone, Copy, Debug, PartialEq, Eq, Structural)]
pub enum CaptureError {
    /// No usable input device exists.
    NoInputDevice,
    /// The device delivers samples in a format the pipeline cannot convert.
    UnsupportedSampleFormat,
    /// The device is busy, permission was denied, or no usable input
    /// configuration could be determined.
    DeviceUnavailable,
    /// A start was requested while one is already being processed; benign.
    AlreadyCapturing,
    /// The hardware stream was built but refused to start.
    StreamStartFailed,
}

impl CaptureError {
    /// A human-readable reason, for surfacing to the caller.
    pub fn message(&self) -> (r: &'static str)
        ensures
            *self is NoInputDevice ==> r@ == "no input device available"@,
            *self is UnsupportedSampleFormat ==> r@ == "unsupported sample format"@,
            *self is DeviceUnavailable ==> r@
                == "failed to determine a usable input configuration"@,
            *self is AlreadyCapturing ==> r@ == "already capturing"@,
            *self is StreamStartFailed ==> r@ == "failed to start input stream"@,
    {
        match self {
            CaptureError::NoInputDevice => "no input device available",
            CaptureError::UnsupportedSampleFormat => "unsupported sample format",
            CaptureError::DeviceUnavailable => "failed to determine a usable input configuration",
            CaptureError::AlreadyCapturing => "already capturing",
            CaptureError::StreamStartFailed => "failed to start input stream",
        }
    }
}

} // verus!
