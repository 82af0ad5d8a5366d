//! The frame aggregator for the single-source capture path: it buffers the
//! samples drained from a capture queue and cuts them into frames of the
//! session's fixed length, oldest samples first.
//!
//! Every frame the aggregator emits has exactly the configured frame length;
//! the one exception is the final flush when the source terminates, which
//! may be shorter.

use vstd::prelude::*;

use crate::valid_sample;
use crate::frame::{spec_frame_len, frame_len_for_rate, AudioFrame};

verus! {

/// Assembles fixed-length frames from a stream of normalized mono samples.
pub struct Aggregator {
    buf: Vec<i64>,
    frame_len: usize,
    sample_rate: u32,
}

impl Aggregator {
    /// The samples currently buffered, oldest first.
    pub closed spec fn buffered(self) -> Seq<i64> {
        self.buf@
    }

    /// The fixed frame length of this session.
    pub closed spec fn frame_length(self) -> int {
        self.frame_len as int
    }

    /// The sample rate the session was negotiated at.
    pub closed spec fn rate(self) -> u32 {
        self.sample_rate
    }

    /// Well-formed: the frame length was derived once from the sample rate,
    /// and every buffered sample is normalized.
    pub closed spec fn wf(self) -> bool {
        &&& self.frame_len == spec_frame_len(self.sample_rate)
        &&& 1 <= self.frame_len
        &&& forall|i: int| 0 <= i < self.buf@.len() ==> valid_sample(self.buf@[i])
    }

    /// Creates an empty aggregator for a session at the given sample rate;
    /// the frame length is fixed here for the life of the session.
    pub fn new(sample_rate: u32) -> (a: Aggregator)
        ensures
            a.wf(),
            a.buffered().len() == 0,
            a.rate() == sample_rate,
            a.frame_length() == spec_frame_len(sample_rate),
    {
        Aggregator { buf: Vec::new(), frame_len: frame_len_for_rate(sample_rate), sample_rate }
    }

    /// The configured frame length, in samples.
    pub fn frame_len(&self) -> (n: usize)
        ensures
            n == self.frame_length(),
    {
        self.frame_len
    }

    /// The sample rate of this session, in Hz.
    pub fn sample_rate(&self) -> (r: u32)
        ensures
            r == self.rate(),
    {
        self.sample_rate
    }

    /// How many samples are currently buffered.
    pub fn buffered_len(&self) -> (n: usize)
        ensures
            n == self.buffered().len(),
    {
        self.buf.len()
    }

    /// Buffers one sample behind all earlier ones.
    pub fn push(&mut self, s: i64)
        requires
            old(self).wf(),
            valid_sample(s),
        ensures
            final(self).wf(),
            final(self).buffered() == old(self).buffered().push(s),
            final(self).frame_length() == old(self).frame_length(),
            final(self).rate() == old(self).rate(),
    {
        self.buf.push(s);
    }

    /// Buffers a batch of samples, keeping their order.
    pub fn push_batch(&mut self, samples: &Vec<i64>)
        requires
            old(self).wf(),
            forall|i: int| 0 <= i < samples@.len() ==> valid_sample(samples@[i]),
        ensures
            final(self).wf(),
            final(self).buffered() == old(self).buffered() + samples@,
            final(self).frame_length() == old(self).frame_length(),
            final(self).rate() == old(self).rate(),
    {
        let mut i: usize = 0;
        while i < samples.len()
            invariant
                self.wf(),
                forall|j: int| 0 <= j < samples@.len() ==> valid_sample(samples@[j]),
                0 <= i <= samples@.len(),
                self.buffered() == old(self).buffered() + samples@.subrange(0, i as int),
                self.frame_length() == old(self).frame_length(),
                self.rate() == old(self).rate(),
            decreases samples@.len() - i,
        {
            self.push(samples[i]);
            proof {
                assert(samples@.subrange(0, i + 1) =~= samples@.subrange(0, i as int).push(
                    samples@[i as int],
                ));
                assert(old(self).buffered() + samples@.subrange(0, i + 1) =~= (old(
                    self,
                ).buffered() + samples@.subrange(0, i as int)).push(samples@[i as int]));
            }
            i += 1;
        }
        proof {
            assert(samples@.subrange(0, samples@.len() as int) =~= samples@);
        }
    }

    /// Whether at least one full frame is buffered.
    pub fn ready(&self) -> (r: bool)
        ensures
            r == (self.buffered().len() >= self.frame_length()),
    {
        self.buf.len() >= self.frame_len
    }

    /// Removes exactly one frame's worth of the oldest buffered samples and
    /// emits them; returns nothing until a full frame is buffered. Every
    /// frame emitted here has exactly the configured frame length.
    pub fn pop_frame(&mut self, timestamp_ms: u64) -> (r: Option<AudioFrame>)
        requires
            old(self).wf(),
        ensures
            final(self).wf(),
            final(self).frame_length() == old(self).frame_length(),
            final(self).rate() == old(self).rate(),
            old(self).buffered().len() >= old(self).frame_length() ==> {
                &&& r is Some
                &&& r->0.data@ == old(self).buffered().subrange(0, old(self).frame_length())
                &&& r->0.data@.len() == old(self).frame_length()
                &&& r->0.timestamp == timestamp_ms
                &&& r->0.sample_rate == old(self).rate()
                &&& final(self).buffered() == old(self).buffered().subrange(
                    old(self).frame_length(),
                    old(self).buffered().len() as int,
                )
            },
            old(self).buffered().len() < old(self).frame_length() ==> {
                &&& r is None
                &&& final(self).buffered() == old(self).buffered()
            },
    {
        if self.buf.len() < self.frame_len {
            return None;
        }
        let mut front = self.buf.split_off(self.frame_len);
        core::mem::swap(&mut self.buf, &mut front);
        Some(AudioFrame { data: front, timestamp: timestamp_ms, sample_rate: self.sample_rate })
    }

    /// Flushes whatever remains buffered as a final frame once the source
    /// has terminated; this final frame is the only one that may be shorter
    /// than the configured frame length.
    pub fn flush(&mut self, timestamp_ms: u64) -> (r: Option<AudioFrame>)
        requires
            old(self).wf(),
        ensures
            final(self).wf(),
            final(self).frame_length() == old(self).frame_length(),
            final(self).rate() == old(self).rate(),
            final(self).buffered().len() == 0,
            old(self).buffered().len() == 0 ==> r is None,
            old(self).buffered().len() > 0 ==> {
                &&& r is Some
                &&& r->0.data@ == old(self).buffered()
                &&& r->0.timestamp == timestamp_ms
                &&& r->0.sample_rate == old(self).rate()
            },
    {
        if self.buf.is_empty() {
            return None;
        }
        let mut taken: Vec<i64> = Vec::new();
        core::mem::swap(&mut self.buf, &mut taken);
        Some(AudioFrame { data: taken, timestamp: timestamp_ms, sample_rate: self.sample_rate })
    }
}

} // verus!
