//! The two-source mixer for the dual-capture path: it buffers a voice
//! stream (the wearable microphone) and a system-audio stream, and combines
//! them per cycle into one conditioned mono frame at a fixed target rate.
//!
//! Each cycle measures the RMS energy of what each source buffered, derives
//! an adaptive gain per source (quiet voice is boosted, loud system audio is
//! attenuated so speech stays dominant), then conditions every sample —
//! noise gate, high-pass filter, gain — sums the two sources, and soft-limits
//! the sum. A source with too few samples contributes silence for the
//! missing positions rather than stalling the mix.

use vstd::prelude::*;

use crate::valid_sample;
use crate::dsp::{
    apply_gain, apply_gate, gate, highpass_out, highpass_step, lowpass_next, scale_gain,
    soft_limit, soft_limit_sample, spec_rms, rms_prefix, system_gain, system_gain_for,
    voice_gain, voice_gain_for, lemma_soft_limit_within_allowance, LIMITER_CEILING,
    LIMITER_OVERSHOOT, SYSTEM_GATE_THRESHOLD, VOICE_GATE_THRESHOLD,
};
use crate::frame::{spec_frame_len, frame_len_for_rate, AudioFrame};

verus! {

/// Highest target rate the mixer accepts; keeps every energy accumulation
/// of a frame within machine range.
pub const MIXER_MAX_RATE: u32 = 4_000_000;

/// A buffered source sample, or silence where the source buffered too few.
pub open spec fn padded(buf: Seq<i64>, i: int) -> int {
    if 0 <= i < buf.len() {
        buf[i] as int
    } else {
        0
    }
}

/// The low-pass filter memory of one source before its `i`-th sample of the
/// cycle is conditioned: each earlier padded sample was gated and then fed
/// to the filter.
pub open spec fn gate_lp_state(buf: Seq<i64>, threshold: int, lp0: int, i: int) -> int
    decreases i,
{
    if i <= 0 {
        lp0
    } else {
        lowpass_next(gate_lp_state(buf, threshold, lp0, i - 1), gate(padded(buf, i - 1), threshold))
    }
}

/// One source's fully conditioned `i`-th sample of a cycle: gated, high-pass
/// filtered against the threaded filter memory, and scaled by the cycle's
/// gain.
pub open spec fn conditioned_at(buf: Seq<i64>, threshold: int, lp0: int, g: int, i: int) -> int {
    apply_gain(
        highpass_out(gate_lp_state(buf, threshold, lp0, i), gate(padded(buf, i), threshold)),
        g,
    )
}

/// The `i`-th mixed output sample of a cycle: the two conditioned sources
/// summed and soft-limited.
pub open spec fn mixed_sample_at(
    voice: Seq<i64>,
    system: Seq<i64>,
    vlp0: int,
    slp0: int,
    vg: int,
    sg: int,
    i: int,
) -> int {
    soft_limit(
        conditioned_at(voice, VOICE_GATE_THRESHOLD as int, vlp0, vg, i) + conditioned_at(
            system,
            SYSTEM_GATE_THRESHOLD as int,
            slp0,
            sg,
            i,
        ),
    )
}

/// Mixer output never exceeds the limiter ceiling plus its overshoot
/// allowance, for any combination of inputs, filter states, and gains.
pub proof fn lemma_mixed_sample_within_allowance(
    voice: Seq<i64>,
    system: Seq<i64>,
    vlp0: int,
    slp0: int,
    vg: int,
    sg: int,
    i: int,
)
    ensures
        -(LIMITER_CEILING + LIMITER_OVERSHOOT) <= mixed_sample_at(
            voice,
            system,
            vlp0,
            slp0,
            vg,
            sg,
            i,
        ) <= LIMITER_CEILING + LIMITER_OVERSHOOT,
{
    lemma_soft_limit_within_allowance(
        conditioned_at(voice, VOICE_GATE_THRESHOLD as int, vlp0, vg, i) + conditioned_at(
            system,
            SYSTEM_GATE_THRESHOLD as int,
            slp0,
            sg,
            i,
        ),
    );
}

/// Combines a voice stream and a system-audio stream into mixed mono frames
/// at a fixed target rate.
pub struct Mixer {
    voice_buf: Vec<i64>,
    system_buf: Vec<i64>,
    voice_lp: i64,
    system_lp: i64,
    frame_len: usize,
    sample_rate: u32,
}

impl Mixer {
    /// The voice samples currently buffered, oldest first.
    pub closed spec fn voice_buffered(self) -> Seq<i64> {
        self.voice_buf@
    }

    /// The system-audio samples currently buffered, oldest first.
    pub closed spec fn system_buffered(self) -> Seq<i64> {
        self.system_buf@
    }

    /// The voice high-pass filter's low-pass memory.
    pub closed spec fn voice_state(self) -> int {
        self.voice_lp as int
    }

    /// The system high-pass filter's low-pass memory.
    pub closed spec fn system_state(self) -> int {
        self.system_lp as int
    }

    /// The fixed frame length of this session.
    pub closed spec fn frame_length(self) -> int {
        self.frame_len as int
    }

    /// The fixed target sample rate of the mix.
    pub closed spec fn rate(self) -> u32 {
        self.sample_rate
    }

    /// Well-formed: the frame length was derived once from the target rate
    /// and stays within machine range, every buffered sample is normalized,
    /// and the filter memories are normalized.
    pub closed spec fn wf(self) -> bool {
        &&& self.frame_len == spec_frame_len(self.sample_rate)
        &&& 1 <= self.frame_len <= 100_000
        &&& forall|i: int| 0 <= i < self.voice_buf@.len() ==> valid_sample(self.voice_buf@[i])
        &&& forall|i: int| 0 <= i < self.system_buf@.len() ==> valid_sample(self.system_buf@[i])
        &&& valid_sample(self.voice_lp)
        &&& valid_sample(self.system_lp)
    }

    /// Whether a mixing cycle is due: some source has a full frame buffered.
    pub open spec fn ready_spec(self) -> bool {
        self.voice_buffered().len() >= self.frame_length() || self.system_buffered().len()
            >= self.frame_length()
    }

    /// The voice samples whose energy this cycle measures: the buffered
    /// prefix of at most one frame.
    pub open spec fn voice_measured(self) -> Seq<i64> {
        if self.voice_buffered().len() < self.frame_length() {
            self.voice_buffered()
        } else {
            self.voice_buffered().subrange(0, self.frame_length())
        }
    }

    /// The system samples whose energy this cycle measures.
    pub open spec fn system_measured(self) -> Seq<i64> {
        if self.system_buffered().len() < self.frame_length() {
            self.system_buffered()
        } else {
            self.system_buffered().subrange(0, self.frame_length())
        }
    }

    /// The voice gain this cycle applies, derived from the measured RMS.
    pub open spec fn cycle_voice_gain(self) -> int {
        voice_gain_for(spec_rms(self.voice_measured()))
    }

    /// The system gain this cycle applies, derived from the measured RMS.
    pub open spec fn cycle_system_gain(self) -> int {
        system_gain_for(spec_rms(self.system_measured()))
    }

    /// Creates an idle mixer for a session at the given target rate, with
    /// empty buffers and filter memories at rest.
    pub fn new(target_rate: u32) -> (m: Mixer)
        requires
            target_rate <= MIXER_MAX_RATE,
        ensures
            m.wf(),
            m.voice_buffered().len() == 0,
            m.system_buffered().len() == 0,
            m.voice_state() == 0,
            m.system_state() == 0,
            m.rate() == target_rate,
            m.frame_length() == spec_frame_len(target_rate),
    {
        let fl = frame_len_for_rate(target_rate);
        proof {
            vstd::arithmetic::div_mod::lemma_div_is_ordered(
                target_rate + 25,
                4_000_025,
                50,
            );
        }
        Mixer {
            voice_buf: Vec::new(),
            system_buf: Vec::new(),
            voice_lp: 0,
            system_lp: 0,
            frame_len: fl,
            sample_rate: target_rate,
        }
    }

    /// The configured frame length, in samples.
    pub fn frame_len(&self) -> (n: usize)
        ensures
            n == self.frame_length(),
    {
        self.frame_len
    }

    /// The target sample rate of the mix, in Hz.
    pub fn sample_rate(&self) -> (r: u32)
        ensures
            r == self.rate(),
    {
        self.sample_rate
    }

    /// How many voice samples are buffered.
    pub fn voice_len(&self) -> (n: usize)
        ensures
            n == self.voice_buffered().len(),
    {
        self.voice_buf.len()
    }

    /// How many system samples are buffered.
    pub fn system_len(&self) -> (n: usize)
        ensures
            n == self.system_buffered().len(),
    {
        self.system_buf.len()
    }

    /// Buffers one normalized voice sample.
    pub fn push_voice(&mut self, s: i64)
        requires
            old(self).wf(),
            valid_sample(s),
        ensures
            final(self).wf(),
            final(self).voice_buffered() == old(self).voice_buffered().push(s),
            final(self).system_buffered() == old(self).system_buffered(),
            final(self).voice_state() == old(self).voice_state(),
            final(self).system_state() == old(self).system_state(),
            final(self).frame_length() == old(self).frame_length(),
            final(self).rate() == old(self).rate(),
    {
        self.voice_buf.push(s);
    }

    /// Buffers one normalized system-audio sample.
    pub fn push_system(&mut self, s: i64)
        requires
            old(self).wf(),
            valid_sample(s),
        ensures
            final(self).wf(),
            final(self).system_buffered() == old(self).system_buffered().push(s),
            final(self).voice_buffered() == old(self).voice_buffered(),
            final(self).voice_state() == old(self).voice_state(),
            final(self).system_state() == old(self).system_state(),
            final(self).frame_length() == old(self).frame_length(),
            final(self).rate() == old(self).rate(),
    {
        self.system_buf.push(s);
    }

    /// Whether a mixing cycle is due.
    pub fn ready(&self) -> (r: bool)
        ensures
            r == self.ready_spec(),
    {
        self.voice_buf.len() >= self.frame_len || self.system_buf.len() >= self.frame_len
    }

    /// Runs one mixing cycle once some source has a full frame buffered:
    /// measures each source's energy, derives the cycle gains, conditions
    /// and sums exactly one frame's worth of samples (padding a short source
    /// with silence), soft-limits every mixed sample, and drains what was
    /// consumed. Returns nothing — and changes nothing — while neither
    /// source has a full frame.
    pub fn mix_frame(&mut self, timestamp_ms: u64) -> (r: Option<AudioFrame>)
        requires
            old(self).wf(),
        ensures
            final(self).wf(),
            final(self).frame_length() == old(self).frame_length(),
            final(self).rate() == old(self).rate(),
            !old(self).ready_spec() ==> r is None && *final(self) == *old(self),
            old(self).ready_spec() ==> {
                &&& r is Some
                &&& r->0.data@.len() == old(self).frame_length()
                &&& r->0.timestamp == timestamp_ms
                &&& r->0.sample_rate == old(self).rate()
                &&& forall|i: int|
                    0 <= i < old(self).frame_length() ==> r->0.data@[i] == mixed_sample_at(
                        old(self).voice_buffered(),
                        old(self).system_buffered(),
                        old(self).voice_state(),
                        old(self).system_state(),
                        old(self).cycle_voice_gain(),
                        old(self).cycle_system_gain(),
                        i,
                    )
                &&& forall|i: int| 0 <= i < r->0.data@.len() ==> valid_sample(r->0.data@[i])
                &&& old(self).voice_buffered().len() >= old(self).frame_length() ==> final(self).voice_buffered() == old(self).voice_buffered().subrange(
                    old(self).frame_length(),
                    old(self).voice_buffered().len() as int,
                )
                &&& old(self).voice_buffered().len() < old(self).frame_length() ==> final(self).voice_buffered().len() == 0
                &&& old(self).system_buffered().len() >= old(self).frame_length() ==> final(self).system_buffered() == old(self).system_buffered().subrange(
                    old(self).frame_length(),
                    old(self).system_buffered().len() as int,
                )
                &&& old(self).system_buffered().len() < old(self).frame_length() ==> final(self).system_buffered().len() == 0
                &&& final(self).voice_state() == gate_lp_state(
                    old(self).voice_buffered(),
                    VOICE_GATE_THRESHOLD as int,
                    old(self).voice_state(),
                    old(self).frame_length(),
                )
                &&& final(self).system_state() == gate_lp_state(
                    old(self).system_buffered(),
                    SYSTEM_GATE_THRESHOLD as int,
                    old(self).system_state(),
                    old(self).frame_length(),
                )
            },
    {
        if !(self.voice_buf.len() >= self.frame_len || self.system_buf.len() >= self.frame_len) {
            return None;
        }
        let ghost voice0 = self.voice_buf@;
        let ghost system0 = self.system_buf@;
        let ghost vlp0 = self.voice_lp as int;
        let ghost slp0 = self.system_lp as int;
        let fl = self.frame_len;

        let vvalid = if self.voice_buf.len() < fl {
            self.voice_buf.len()
        } else {
            fl
        };
        let svalid = if self.system_buf.len() < fl {
            self.system_buf.len()
        } else {
            fl
        };
        let vrms = rms_prefix(&self.voice_buf, vvalid);
        let srms = rms_prefix(&self.system_buf, svalid);
        let vg = voice_gain(vrms);
        let sg = system_gain(srms);
        proof {
            assert(voice0.subrange(0, vvalid as int) =~= old(self).voice_measured());
            assert(system0.subrange(0, svalid as int) =~= old(self).system_measured());
        }

        let mut data: Vec<i64> = Vec::new();
        let mut i: usize = 0;
        while i < fl
            invariant
                0 <= i <= fl,
                fl == old(self).frame_length(),
                1 <= fl <= 100_000,
                self.voice_buf@ == voice0,
                self.system_buf@ == system0,
                self.frame_len == old(self).frame_len,
                self.sample_rate == old(self).sample_rate,
                self.wf(),
                vg as int == old(self).cycle_voice_gain(),
                sg as int == old(self).cycle_system_gain(),
                0 < vg <= 200,
                0 < sg <= 200,
                self.voice_lp as int == gate_lp_state(
                    voice0,
                    VOICE_GATE_THRESHOLD as int,
                    vlp0,
                    i as int,
                ),
                self.system_lp as int == gate_lp_state(
                    system0,
                    SYSTEM_GATE_THRESHOLD as int,
                    slp0,
                    i as int,
                ),
                data@.len() == i,
                forall|k: int|
                    0 <= k < i ==> data@[k] == mixed_sample_at(
                        voice0,
                        system0,
                        vlp0,
                        slp0,
                        vg as int,
                        sg as int,
                        k,
                    ),
                forall|k: int| 0 <= k < i ==> valid_sample(data@[k]),
            decreases fl - i,
        {
            let v_in: i64 = if i < self.voice_buf.len() {
                self.voice_buf[i]
            } else {
                0
            };
            let s_in: i64 = if i < self.system_buf.len() {
                self.system_buf[i]
            } else {
                0
            };
            let v_gated = apply_gate(v_in, VOICE_GATE_THRESHOLD);
            let s_gated = apply_gate(s_in, SYSTEM_GATE_THRESHOLD);
            let v_y = highpass_step(&mut self.voice_lp, v_gated);
            let s_y = highpass_step(&mut self.system_lp, s_gated);
            let v_c = scale_gain(v_y, vg);
            let s_c = scale_gain(s_y, sg);
            let mixed = v_c + s_c;
            let limited = soft_limit_sample(mixed);
            data.push(limited);
            i += 1;
        }

        if self.voice_buf.len() >= fl {
            let tail = self.voice_buf.split_off(fl);
            self.voice_buf = tail;
        } else {
            self.voice_buf.clear();
        }
        if self.system_buf.len() >= fl {
            let tail = self.system_buf.split_off(fl);
            self.system_buf = tail;
        } else {
            self.system_buf.clear();
        }
        Some(AudioFrame { data, timestamp: timestamp_ms, sample_rate: self.sample_rate })
    }
}

} // verus!
