//! Stream configuration for the capture adapter: choosing a device
//! configuration for a session, preferring an exact mono configuration that
//! covers the desired rate and falling back to the device's own default.

use vstd::prelude::*;

use crate::errors::CaptureError;
use crate::selector::{first_index, lemma_first_index_none, lemma_first_index_some};

verus! {

/// The native sample formats the adapter can convert to normalized samples.
#[derive(Clone, Copy, Debug, PartialEq, Eq, Structural)]
pub enum SampleFormat {
    /// Normalized 32-bit float samples, passed through.
    F32,
    /// Signed 16-bit samples.
    I16,
    /// Unsigned 16-bit samples.
    U16,
    /// Any format the adapter cannot convert.
    Other,
}

/// One supported input configuration of a device.
#[derive(Clone, Copy, Debug, PartialEq, Eq, Structural)]
pub struct ConfigCandidate {
    /// Channel count of the configuration.
    pub channels: u16,
    /// Lowest sample rate of the configuration's range, in Hz.
    pub min_rate: u32,
    /// Highest sample rate of the configuration's range, in Hz.
    pub max_rate: u32,
    /// The native sample format delivered by the configuration.
    pub format: SampleFormat,
}

/// The configuration a session opens its stream with.
#[derive(Clone, Copy, Debug, PartialEq, Eq, Structural)]
pub struct ChosenConfig {
    /// The negotiated sample rate, in Hz.
    pub rate: u32,
    /// The negotiated channel count.
    pub channels: u16,
    /// The native sample format the stream will deliver.
    pub format: SampleFormat,
}

/// Whether a candidate is an exact mono configuration covering the desired
/// rate.
pub open spec fn config_covers_mono(c: ConfigCandidate, desired: u32) -> bool {
    c.channels == 1 && c.min_rate <= desired && desired <= c.max_rate
}

/// The adapter's configuration choice: the first exact mono candidate
/// covering the desired rate, taken at that rate; otherwise the device's
/// default configuration. No usable configuration at all makes the device
/// unavailable, and a configuration in a format the adapter cannot convert
/// is rejected as unsupported.
pub open spec fn spec_choose_config(
    cands: Seq<ConfigCandidate>,
    default_cfg: Option<ChosenConfig>,
    desired: u32,
) -> Result<ChosenConfig, CaptureError> {
    let chosen = match first_index(cands, |c: ConfigCandidate| config_covers_mono(c, desired)) {
        Some(i) => Some(ChosenConfig { rate: desired, channels: 1, format: cands[i].format }),
        None => default_cfg,
    };
    match chosen {
        Some(c) => if c.format is Other {
            Err(CaptureError::UnsupportedSampleFormat)
        } else {
            Ok(c)
        },
        None => Err(CaptureError::DeviceUnavailable),
    }
}

/// Chooses the input configuration for a session from the device's
/// supported configurations and its default configuration.
pub fn choose_input_config(
    cands: &Vec<ConfigCandidate>,
    default_cfg: Option<ChosenConfig>,
    desired: u32,
) -> (r: Result<ChosenConfig, CaptureError>)
    ensures
        r == spec_choose_config(cands@, default_cfg, desired),
{
    let ghost p = |c: ConfigCandidate| config_covers_mono(c, desired);
    let mut i: usize = 0;
    let mut found: Option<ChosenConfig> = None;
    while i < cands.len() && found.is_none()
        invariant
            0 <= i <= cands@.len(),
            p == (|c: ConfigCandidate| config_covers_mono(c, desired)),
            match found {
                Some(c) => first_index(cands@, p) == Some(i - 1) && i >= 1 && c == (ChosenConfig {
                    rate: desired,
                    channels: 1,
                    format: cands@[i - 1].format,
                }),
                None => forall|j: int| 0 <= j < i ==> !#[trigger] p(cands@[j]),
            },
        decreases cands@.len() - i,
    {
        let c = cands[i];
        if c.channels == 1 && c.min_rate <= desired && desired <= c.max_rate {
            proof {
                lemma_first_index_some(cands@, p, i as int);
            }
            found = Some(ChosenConfig { rate: desired, channels: 1, format: c.format });
        }
        i += 1;
    }
    proof {
        if found is None {
            lemma_first_index_none(cands@, p);
        }
    }
    let chosen = match found {
        Some(c) => Some(c),
        None => default_cfg,
    };
    match chosen {
        Some(c) => match c.format {
            SampleFormat::Other => Err(CaptureError::UnsupportedSampleFormat),
            _ => Ok(c),
        },
        None => Err(CaptureError::DeviceUnavailable),
    }
}

} // verus!
