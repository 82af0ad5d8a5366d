//! Verified core of a live audio capture pipeline.
//!
//! The library models audio samples as fixed-point integers: one full-scale
//! unit of amplitude is `FULL_SCALE` (a millionth of full scale per step).
//! All signal processing — format conversion, channel downmixing, frame
//! aggregation, two-source mixing with gating, filtering, adaptive gain and
//! soft limiting — is carried out on these integers and verified exactly.
//! The unverified shell around the library converts the hardware's native
//! floating-point samples to this representation at the process boundary.

use vstd::prelude::*;

pub mod adapter;
pub mod aggregator;
pub mod backend;
pub mod dsp;
pub mod errors;
pub mod frame;
pub mod mixer;
pub mod queue;
pub mod records;
pub mod runtime;
pub mod sample;
pub mod selector;
pub mod simple;

verus! {

/// Amplitude of a full-scale sample: one unit is a millionth of full scale.
pub const FULL_SCALE: i64 = 1_000_000;

/// A sample is normalized when it lies within one full scale of silence.
pub open spec fn valid_sample(s: i64) -> bool {
    -FULL_SCALE <= s <= FULL_SCALE
}

} // verus!
