//! The bounded sample queue between a hardware capture callback and its
//! consumer. The producer side never blocks: once the queue is full a new
//! sample is simply dropped, since losing a sample is preferable to stalling
//! a realtime audio thread. The consumer drains samples oldest first.

use vstd::prelude::*;

use crate::valid_sample;

verus! {

/// A bounded first-in-first-out queue of normalized mono samples with a
/// drop-newest overflow policy.
pub struct SampleQueue {
    items: Vec<i64>,
    cap: usize,
}

impl SampleQueue {
    /// The samples queued, oldest first.
    pub closed spec fn queued(self) -> Seq<i64> {
        self.items@
    }

    /// The queue's fixed capacity.
    pub closed spec fn capacity_spec(self) -> int {
        self.cap as int
    }

    /// Well-formed: never over capacity, and every queued sample normalized.
    pub closed spec fn wf(self) -> bool {
        &&& 1 <= self.cap
        &&& self.items@.len() <= self.cap
        &&& forall|i: int| 0 <= i < self.items@.len() ==> valid_sample(self.items@[i])
    }

    /// Creates an empty queue of the given capacity.
    pub fn new(capacity: usize) -> (q: SampleQueue)
        requires
            capacity >= 1,
        ensures
            q.wf(),
            q.queued().len() == 0,
            q.capacity_spec() == capacity,
    {
        SampleQueue { items: Vec::new(), cap: capacity }
    }

    /// Creates a queue sized for about two seconds of audio at the source's
    /// sample rate.
    pub fn for_rate(sample_rate: u32) -> (q: SampleQueue)
        requires
            1 <= sample_rate,
            2 * sample_rate <= usize::MAX,
        ensures
            q.wf(),
            q.queued().len() == 0,
            q.capacity_spec() == 2 * sample_rate,
    {
        SampleQueue { items: Vec::new(), cap: (sample_rate as usize) * 2 }
    }

    /// How many samples are queued.
    pub fn len(&self) -> (n: usize)
        ensures
            n == self.queued().len(),
    {
        self.items.len()
    }

    /// The queue's capacity.
    pub fn capacity(&self) -> (n: usize)
        ensures
            n == self.capacity_spec(),
    {
        self.cap
    }

    /// Offers a sample without ever blocking: queued behind all earlier ones
    /// when there is room, and dropped — the queue unchanged — when the
    /// queue is full.
    pub fn offer(&mut self, s: i64) -> (accepted: bool)
        requires
            old(self).wf(),
            valid_sample(s),
        ensures
            final(self).wf(),
            final(self).capacity_spec() == old(self).capacity_spec(),
            old(self).queued().len() < old(self).capacity_spec() ==> accepted && final(self).queued() == old(self).queued().push(s),
            old(self).queued().len() >= old(self).capacity_spec() ==> !accepted && final(self).queued() == old(self).queued(),
    {
        if self.items.len() < self.cap {
            self.items.push(s);
            true
        } else {
            false
        }
    }

    /// Removes and returns the oldest queued sample, if any.
    pub fn pop(&mut self) -> (r: Option<i64>)
        requires
            old(self).wf(),
        ensures
            final(self).wf(),
            final(self).capacity_spec() == old(self).capacity_spec(),
            old(self).queued().len() == 0 ==> r is None && final(self).queued() == old(self).queued(),
            old(self).queued().len() > 0 ==> {
                &&& r == Some(old(self).queued()[0])
                &&& final(self).queued() == old(self).queued().subrange(
                    1,
                    old(self).queued().len() as int,
                )
            },
    {
        if self.items.len() == 0 {
            return None;
        }
        let s = self.items.remove(0);
        proof {
            assert(self.items@ =~= old(self).items@.subrange(1, old(self).items@.len() as int));
        }
        Some(s)
    }
}

} // verus!
