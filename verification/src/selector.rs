//! The device catalog and selector: given the enumerated input devices, the
//! current default output device, and a caller-provided `force_microphone`
//! flag, it decides the capture topology for the session.
//!
//! Loopback and wearable devices cannot be enumerated by a stable interface,
//! so classification goes by case-insensitive name matching against small
//! lexicons, and the decision table prefers the configuration least likely
//! to duplicate audio or pick a broken virtual device.

use vstd::prelude::*;

use vstd::string::StringSliceAdditionalSpecFns;

use crate::errors::CaptureError;

verus! {

/// A read-only snapshot of one audio device taken at selection time; its
/// identifier is its position in the catalog it was enumerated into.
#[derive(Clone, Debug)]
pub struct DeviceDescriptor {
    /// The device's human-readable name, as UTF-8 bytes.
    pub name: Vec<u8>,
    /// Whether the device is an input (true) or an output (false).
    pub is_input: bool,
    /// The device's channel count.
    pub channels: u16,
    /// The lowest sample rate the device supports, in Hz.
    pub min_rate: u32,
    /// The highest sample rate the device supports, in Hz.
    pub max_rate: u32,
}

/// The role the selector assigns to a capture source; the mixer picks its
/// conditioning parameters by it.
#[derive(Clone, Copy, Debug, PartialEq, Eq, Structural)]
pub enum AudioSource {
    /// A microphone carrying the speaker's voice.
    Microphone,
    /// A loopback or aggregate device carrying system audio.
    SystemAudio,
}

/// The selector's decision: which device of the catalog to capture from,
/// under which role, and whether the caller should surface a hint that no
/// system-audio path is configured.
#[derive(Clone, Copy, Debug, PartialEq, Eq, Structural)]
pub struct CapturePlan {
    /// Position of the chosen device in the input catalog.
    pub device_index: usize,
    /// The role of the chosen source.
    pub source: AudioSource,
    /// Set when headphones were detected but no system-audio path exists:
    /// capture falls back to the microphone alone.
    pub system_audio_missing: bool,
}

/// ASCII lowercasing of one byte.
pub open spec fn lower_byte(b: u8) -> u8 {
    if 65 <= b <= 90 {
        (b + 32) as u8
    } else {
        b
    }
}

/// Lowercases one ASCII byte.
pub fn lower_ascii(b: u8) -> (r: u8)
    ensures
        r == lower_byte(b),
{
    if 65 <= b && b <= 90 {
        b + 32
    } else {
        b
    }
}

/// Whether the word occurs in the name at position `i`, ignoring ASCII case.
pub open spec fn ci_match_at(name: Seq<u8>, word: Seq<u8>, i: int) -> bool {
    forall|j: int| 0 <= j < word.len() ==> lower_byte(name[i + j]) == lower_byte(word[j])
}

/// Whether the word occurs anywhere in the name, ignoring ASCII case.
pub open spec fn contains_word(name: Seq<u8>, word: Seq<u8>) -> bool {
    exists|i: int| 0 <= i <= name.len() - word.len() && ci_match_at(name, word, i)
}

/// Searches the name for the word, ignoring ASCII case.
pub fn name_contains(name: &Vec<u8>, word: &[u8]) -> (r: bool)
    ensures
        r == contains_word(name@, word@),
{
    let n = name.len();
    let m = word.len();
    if m > n {
        return false;
    }
    let mut i: usize = 0;
    while i <= n - m
        invariant
            m <= n,
            n == name@.len(),
            m == word@.len(),
            0 <= i <= n - m + 1,
            forall|k: int| 0 <= k < i ==> !ci_match_at(name@, word@, k),
        decreases n - m + 1 - i,
    {
        let mut j: usize = 0;
        let mut matched = true;
        while j < m
            invariant
                m <= n,
                n == name@.len(),
                m == word@.len(),
                i <= n - m,
                0 <= j <= m,
                matched == (forall|l: int|
                    0 <= l < j ==> lower_byte(name@[i + l]) == lower_byte(word@[l])),
            decreases m - j,
        {
            if lower_ascii(name[i + j]) != lower_ascii(word[j]) {
                matched = false;
            }
            j += 1;
        }
        if matched {
            proof {
                assert(ci_match_at(name@, word@, i as int));
            }
            return true;
        }
        i += 1;
    }
    false
}

/// The built-in-speaker lexicon: names of outputs that are not headphones.
pub open spec fn is_builtin_output_name(n: Seq<u8>) -> bool {
    ||| contains_word(n, "built-in".spec_bytes())
    ||| contains_word(n, "internal".spec_bytes())
    ||| contains_word(n, "macbook".spec_bytes())
}

/// The headphone lexicon: names that positively identify an external or
/// worn output.
pub open spec fn is_headphone_output_name(n: Seq<u8>) -> bool {
    ||| contains_word(n, "headphone".spec_bytes())
    ||| contains_word(n, "airpods".spec_bytes())
    ||| contains_word(n, "bluetooth".spec_bytes())
    ||| contains_word(n, "usb".spec_bytes())
}

/// An output is likely external or worn when its name does not match the
/// built-in-speaker lexicon, or positively matches the headphone lexicon.
pub open spec fn headphones_detected(output_name: Option<Seq<u8>>) -> bool {
    match output_name {
        Some(n) => !is_builtin_output_name(n) || is_headphone_output_name(n),
        None => false,
    }
}

/// A designated wireless or wearable microphone.
pub open spec fn is_wearable_mic_name(n: Seq<u8>) -> bool {
    contains_word(n, "airpods".spec_bytes())
}

/// The one known-bad virtual device, never selected as a loopback source.
pub open spec fn is_excluded_virtual_name(n: Seq<u8>) -> bool {
    contains_word(n, "blackhole".spec_bytes())
}

/// An aggregate device, the preferred system-audio source.
pub open spec fn is_aggregate_name(n: Seq<u8>) -> bool {
    contains_word(n, "aggregate".spec_bytes()) && !is_excluded_virtual_name(n)
}

/// A generic loopback or virtual system-audio device.
pub open spec fn is_generic_loopback_name(n: Seq<u8>) -> bool {
    &&& {
        ||| contains_word(n, "multi-output".spec_bytes())
        ||| contains_word(n, "soundflower".spec_bytes())
        ||| contains_word(n, "loopback".spec_bytes())
        ||| contains_word(n, "virtual".spec_bytes())
        ||| contains_word(n, "system".spec_bytes())
    }
    &&& !is_excluded_virtual_name(n)
}

/// Classifies the default output device's name.
pub fn output_is_headphones(output_name: Option<&Vec<u8>>) -> (r: bool)
    ensures
        r == headphones_detected(
            match output_name {
                Some(n) => Some(n@),
                None => None,
            },
        ),
{
    match output_name {
        Some(n) => {
            let builtin = name_contains(n, "built-in".as_bytes()) || name_contains(
                n,
                "internal".as_bytes(),
            ) || name_contains(n, "macbook".as_bytes());
            let headphone = name_contains(n, "headphone".as_bytes()) || name_contains(
                n,
                "airpods".as_bytes(),
            ) || name_contains(n, "bluetooth".as_bytes()) || name_contains(n, "usb".as_bytes());
            !builtin || headphone
        },
        None => false,
    }
}

/// Whether one input device is a wearable microphone.
pub fn is_wearable_mic(d: &DeviceDescriptor) -> (r: bool)
    ensures
        r == is_wearable_mic_name(d.name@),
{
    name_contains(&d.name, "airpods".as_bytes())
}

/// Whether one input device is an aggregate system-audio device.
pub fn is_aggregate(d: &DeviceDescriptor) -> (r: bool)
    ensures
        r == is_aggregate_name(d.name@),
{
    name_contains(&d.name, "aggregate".as_bytes()) && !name_contains(
        &d.name,
        "blackhole".as_bytes(),
    )
}

/// Whether one input device is a generic loopback system-audio device.
pub fn is_generic_loopback(d: &DeviceDescriptor) -> (r: bool)
    ensures
        r == is_generic_loopback_name(d.name@),
{
    let named = name_contains(&d.name, "multi-output".as_bytes()) || name_contains(
        &d.name,
        "soundflower".as_bytes(),
    ) || name_contains(&d.name, "loopback".as_bytes()) || name_contains(
        &d.name,
        "virtual".as_bytes(),
    ) || name_contains(&d.name, "system".as_bytes());
    named && !name_contains(&d.name, "blackhole".as_bytes())
}

/// The names of a catalog of devices.
pub open spec fn names_of(devs: Seq<DeviceDescriptor>) -> Seq<Seq<u8>> {
    devs.map_values(|d: DeviceDescriptor| d.name@)
}

/// The position of the first element satisfying the predicate.
pub open spec fn first_index<T>(s: Seq<T>, p: spec_fn(T) -> bool) -> Option<int>
    decreases s.len(),
{
    if s.len() == 0 {
        None
    } else if p(s[0]) {
        Some(0)
    } else {
        match first_index(s.skip(1), p) {
            Some(i) => Some(i + 1),
            None => None,
        }
    }
}

/// A position whose every predecessor fails the predicate and which itself
/// satisfies it is the first index.
pub proof fn lemma_first_index_some<T>(s: Seq<T>, p: spec_fn(T) -> bool, i: int)
    requires
        0 <= i < s.len(),
        p(s[i]),
        forall|j: int| 0 <= j < i ==> !p(s[j]),
    ensures
        first_index(s, p) == Some(i),
    decreases i,
{
    if i == 0 {
    } else {
        assert(!p(s[0]));
        assert(s.skip(1)[i - 1] == s[i]);
        assert forall|j: int| 0 <= j < i - 1 implies !p(s.skip(1)[j]) by {
            assert(s.skip(1)[j] == s[j + 1]);
        }
        lemma_first_index_some(s.skip(1), p, i - 1);
    }
}

/// When no element satisfies the predicate there is no first index.
pub proof fn lemma_first_index_none<T>(s: Seq<T>, p: spec_fn(T) -> bool)
    requires
        forall|j: int| 0 <= j < s.len() ==> !p(s[j]),
    ensures
        first_index(s, p) is None,
    decreases s.len(),
{
    if s.len() > 0 {
        assert forall|j: int| 0 <= j < s.len() - 1 implies !p(s.skip(1)[j]) by {
            assert(s.skip(1)[j] == s[j + 1]);
        }
        lemma_first_index_none(s.skip(1), p);
    }
}

/// The selector's decision table. Without detected headphones — or when the
/// caller forces the microphone — capture uses a microphone alone (the
/// wearable one when forcing and one is present). With headphones and no
/// force, a wearable microphone is preferred (system audio comes out of
/// band); failing that, a loopback device serves as the sole source;
/// failing both, capture falls back to the default microphone and flags
/// that no system-audio path is configured. With no usable input at all the
/// selection fails.
pub open spec fn spec_select(
    names: Seq<Seq<u8>>,
    default_input: Option<int>,
    output_name: Option<Seq<u8>>,
    force_microphone: bool,
) -> Result<CapturePlan, CaptureError> {
    let headphones = headphones_detected(output_name);
    let wearable = first_index(names, |n: Seq<u8>| is_wearable_mic_name(n));
    let loopback = match first_index(names, |n: Seq<u8>| is_aggregate_name(n)) {
        Some(i) => Some(i),
        None => first_index(names, |n: Seq<u8>| is_generic_loopback_name(n)),
    };
    if names.len() == 0 {
        Err(CaptureError::NoInputDevice)
    } else if !headphones {
        match default_input {
            Some(d) => Ok(
                CapturePlan {
                    device_index: d as usize,
                    source: AudioSource::Microphone,
                    system_audio_missing: false,
                },
            ),
            None => Err(CaptureError::NoInputDevice),
        }
    } else if force_microphone {
        match wearable {
            Some(w) => Ok(
                CapturePlan {
                    device_index: w as usize,
                    source: AudioSource::Microphone,
                    system_audio_missing: false,
                },
            ),
            None => match default_input {
                Some(d) => Ok(
                    CapturePlan {
                        device_index: d as usize,
                        source: AudioSource::Microphone,
                        system_audio_missing: false,
                    },
                ),
                None => Err(CaptureError::NoInputDevice),
            },
        }
    } else {
        match wearable {
            Some(w) => Ok(
                CapturePlan {
                    device_index: w as usize,
                    source: AudioSource::Microphone,
                    system_audio_missing: false,
                },
            ),
            None => match loopback {
                Some(l) => Ok(
                    CapturePlan {
                        device_index: l as usize,
                        source: AudioSource::SystemAudio,
                        system_audio_missing: false,
                    },
                ),
                None => match default_input {
                    Some(d) => Ok(
                        CapturePlan {
                            device_index: d as usize,
                            source: AudioSource::Microphone,
                            system_audio_missing: true,
                        },
                    ),
                    None => Err(CaptureError::NoInputDevice),
                },
            },
        }
    }
}

/// Whenever the caller forces the microphone, a successful selection has
/// the microphone role, whatever output is detected and whatever loopback
/// devices are present.
pub proof fn lemma_force_microphone_selects_microphone(
    names: Seq<Seq<u8>>,
    default_input: Option<int>,
    output_name: Option<Seq<u8>>,
)
    ensures
        spec_select(names, default_input, output_name, true) matches Ok(p) ==> p.source
            is Microphone,
{
}

/// Finds the first wearable microphone of the catalog.
fn find_wearable(inputs: &Vec<DeviceDescriptor>) -> (r: Option<usize>)
    ensures
        match r {
            Some(u) => first_index(names_of(inputs@), |n: Seq<u8>| is_wearable_mic_name(n))
                == Some(u as int) && u < inputs@.len(),
            None => first_index(names_of(inputs@), |n: Seq<u8>| is_wearable_mic_name(n)) is None,
        },
{
    let ghost p = |n: Seq<u8>| is_wearable_mic_name(n);
    let mut i: usize = 0;
    while i < inputs.len()
        invariant
            0 <= i <= inputs@.len(),
            forall|j: int| 0 <= j < i ==> !#[trigger] p(names_of(inputs@)[j]),
            p == (|n: Seq<u8>| is_wearable_mic_name(n)),
        decreases inputs@.len() - i,
    {
        if is_wearable_mic(&inputs[i]) {
            proof {
                lemma_first_index_some(names_of(inputs@), p, i as int);
            }
            return Some(i);
        }
        i += 1;
    }
    proof {
        lemma_first_index_none(names_of(inputs@), p);
    }
    None
}

/// Finds the first aggregate device of the catalog.
fn find_aggregate(inputs: &Vec<DeviceDescriptor>) -> (r: Option<usize>)
    ensures
        match r {
            Some(u) => first_index(names_of(inputs@), |n: Seq<u8>| is_aggregate_name(n)) == Some(
                u as int,
            ) && u < inputs@.len(),
            None => first_index(names_of(inputs@), |n: Seq<u8>| is_aggregate_name(n)) is None,
        },
{
    let ghost p = |n: Seq<u8>| is_aggregate_name(n);
    let mut i: usize = 0;
    while i < inputs.len()
        invariant
            0 <= i <= inputs@.len(),
            forall|j: int| 0 <= j < i ==> !#[trigger] p(names_of(inputs@)[j]),
            p == (|n: Seq<u8>| is_aggregate_name(n)),
        decreases inputs@.len() - i,
    {
        if is_aggregate(&inputs[i]) {
            proof {
                lemma_first_index_some(names_of(inputs@), p, i as int);
            }
            return Some(i);
        }
        i += 1;
    }
    proof {
        lemma_first_index_none(names_of(inputs@), p);
    }
    None
}

/// Finds the first generic loopback device of the catalog.
fn find_generic_loopback(inputs: &Vec<DeviceDescriptor>) -> (r: Option<usize>)
    ensures
        match r {
            Some(u) => first_index(names_of(inputs@), |n: Seq<u8>| is_generic_loopback_name(n))
                == Some(u as int) && u < inputs@.len(),
            None => first_index(
                names_of(inputs@),
                |n: Seq<u8>| is_generic_loopback_name(n),
            ) is None,
        },
{
    let ghost p = |n: Seq<u8>| is_generic_loopback_name(n);
    let mut i: usize = 0;
    while i < inputs.len()
        invariant
            0 <= i <= inputs@.len(),
            forall|j: int| 0 <= j < i ==> !#[trigger] p(names_of(inputs@)[j]),
            p == (|n: Seq<u8>| is_generic_loopback_name(n)),
        decreases inputs@.len() - i,
    {
        if is_generic_loopback(&inputs[i]) {
            proof {
                lemma_first_index_some(names_of(inputs@), p, i as int);
            }
            return Some(i);
        }
        i += 1;
    }
    proof {
        lemma_first_index_none(names_of(inputs@), p);
    }
    None
}

/// Chooses the capture topology for a session: the decision table of
/// `spec_select` over the enumerated input devices, the default input (by
/// catalog position), the default output's name, and the caller's
/// `force_microphone` flag.
pub fn select(
    inputs: &Vec<DeviceDescriptor>,
    default_input: Option<usize>,
    output_name: Option<&Vec<u8>>,
    force_microphone: bool,
) -> (r: Result<CapturePlan, CaptureError>)
    requires
        default_input matches Some(d) ==> (d as int) < inputs@.len(),
    ensures
        r == spec_select(
            names_of(inputs@),
            match default_input {
                Some(d) => Some(d as int),
                None => None,
            },
            match output_name {
                Some(n) => Some(n@),
                None => None,
            },
            force_microphone,
        ),
        r matches Ok(p) ==> p.device_index < inputs@.len(),
{
    let headphones = output_is_headphones(output_name);
    let wearable = find_wearable(inputs);
    let loopback = match find_aggregate(inputs) {
        Some(i) => Some(i),
        None => find_generic_loopback(inputs),
    };
    if inputs.len() == 0 {
        Err(CaptureError::NoInputDevice)
    } else if !headphones {
        match default_input {
            Some(d) => Ok(
                CapturePlan {
                    device_index: d,
                    source: AudioSource::Microphone,
                    system_audio_missing: false,
                },
            ),
            None => Err(CaptureError::NoInputDevice),
        }
    } else if force_microphone {
        match wearable {
            Some(w) => Ok(
                CapturePlan {
                    device_index: w,
                    source: AudioSource::Microphone,
                    system_audio_missing: false,
                },
            ),
            None => match default_input {
                Some(d) => Ok(
                    CapturePlan {
                        device_index: d,
                        source: AudioSource::Microphone,
                        system_audio_missing: false,
                    },
                ),
                None => Err(CaptureError::NoInputDevice),
            },
        }
    } else {
        match wearable {
            Some(w) => Ok(
                CapturePlan {
                    device_index: w,
                    source: AudioSource::Microphone,
                    system_audio_missing: false,
                },
            ),
            None => match loopback {
                Some(l) => Ok(
                    CapturePlan {
                        device_index: l,
                        source: AudioSource::SystemAudio,
                        system_audio_missing: false,
                    },
                ),
                None => match default_input {
                    Some(d) => Ok(
                        CapturePlan {
                            device_index: d,
                            source: AudioSource::Microphone,
                            system_audio_missing: true,
                        },
                    ),
                    None => Err(CaptureError::NoInputDevice),
                },
            },
        }
    }
}

} // verus!
