//! Audio frames: fixed-duration blocks of mono samples, the unit of
//! delivery to the downstream consumer.

use vstd::prelude::*;

verus! {

/// A finished frame of mono audio: its samples, the moment of capture in
/// milliseconds since the epoch, and the sample rate that produced it.
#[derive(Clone, Debug)]
pub struct AudioFrame {
    /// The samples of the frame, oldest first.
    pub data: Vec<i64>,
    /// Capture timestamp, in milliseconds since the epoch.
    pub timestamp: u64,
    /// The sample rate the samples were captured at, in Hz.
    pub sample_rate: u32,
}

/// The frame length for a sample rate: the number of samples in roughly
/// twenty milliseconds, rounded to the nearest sample, and at least one.
pub open spec fn spec_frame_len(rate: u32) -> int {
    let r = (rate + 25) / 50;
    if r < 1 {
        1
    } else {
        r
    }
}

/// Computes the frame length for a sample rate.
pub fn frame_len_for_rate(rate: u32) -> (n: usize)
    ensures
        n == spec_frame_len(rate),
        1 <= n <= 85_899_346,
{
    let wide = ((rate as u64) + 25) / 50;
    if wide < 1 {
        1
    } else {
        wide as usize
    }
}

} // verus!
