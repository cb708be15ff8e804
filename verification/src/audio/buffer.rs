//! Bounded ring of PCM samples addressed by absolute sample offset.

use std::collections::VecDeque;
use vstd::prelude::*;

verus! {

/// Samples per millisecond at the canonical 16 kHz rate.
pub const SAMPLES_PER_MS: u64 = 16;

/// Five minutes of audio at the canonical rate.
pub const MAX_SAMPLES: usize = 4_800_000;

/// A bounded FIFO of samples. The oldest retained sample sits at absolute
/// offset `base_offset()`; older samples have been discarded.
pub struct AudioBuffer {
    samples: VecDeque<i16>,
    base_sample: u64,
    capacity: usize,
}

/// Whether the millisecond range `[start_ms, end_ms)` is non-empty and lies
/// wholly inside the window of `len` samples that starts at offset `base`.
pub open spec fn range_retained(base: nat, len: nat, start_ms: u64, end_ms: u64) -> bool {
    &&& start_ms < end_ms
    &&& base <= start_ms * 16
    &&& end_ms * 16 <= base + len
}

/// The samples of `[start_ms, end_ms)` out of a window, or nothing when the
/// range is not wholly retained.
pub open spec fn window_slice(
    base: nat,
    retained: Seq<i16>,
    start_ms: u64,
    end_ms: u64,
) -> Seq<i16> {
    if range_retained(base, retained.len(), start_ms, end_ms) {
        retained.subrange(start_ms * 16 - base, end_ms * 16 - base)
    } else {
        Seq::empty()
    }
}

impl AudioBuffer {
    /// The retained samples, oldest first.
    pub closed spec fn retained(&self) -> Seq<i16> {
        self.samples@
    }

    /// Absolute index of the oldest retained sample.
    pub closed spec fn base_offset(&self) -> nat {
        self.base_sample as nat
    }

    /// The most samples the buffer retains.
    pub closed spec fn capacity(&self) -> nat {
        self.capacity as nat
    }

    /// Absolute index one past the newest retained sample.
    pub open spec fn end_offset(&self) -> nat {
        self.base_offset() + self.retained().len()
    }

    /// The representation invariant: never more than `capacity()` samples,
    /// and every retained offset fits the index type.
    pub closed spec fn wf(&self) -> bool {
        &&& self.capacity > 0
        &&& self.samples@.len() <= self.capacity
        &&& self.base_sample + self.samples@.len() <= u64::MAX
    }

    /// A well-formed buffer never holds more samples than its capacity,
    /// and its newest offset fits the index type.
    pub proof fn lemma_within_capacity(&self)
        requires
            self.wf(),
        ensures
            self.retained().len() <= self.capacity(),
            self.capacity() > 0,
            self.end_offset() <= u64::MAX,
    {
    }

    /// An empty buffer that retains five minutes of audio.
    pub fn new() -> (buffer: Self)
        ensures
            buffer.wf(),
            buffer.retained() == Seq::<i16>::empty(),
            buffer.base_offset() == 0,
            buffer.capacity() == MAX_SAMPLES,
    {
        AudioBuffer { samples: VecDeque::new(), base_sample: 0, capacity: MAX_SAMPLES }
    }

    /// An empty buffer that retains at most `capacity` samples.
    pub fn with_capacity(capacity: usize) -> (buffer: Self)
        requires
            capacity > 0,
        ensures
            buffer.wf(),
            buffer.retained() == Seq::<i16>::empty(),
            buffer.base_offset() == 0,
            buffer.capacity() == capacity,
    {
        AudioBuffer { samples: VecDeque::new(), base_sample: 0, capacity }
    }

    /// Appends one sample. At capacity the oldest sample is discarded and the
    /// base offset moves up by one.
    pub fn push(&mut self, sample: i16)
        requires
            old(self).wf(),
            old(self).end_offset() < u64::MAX,
        ensures
            final(self).wf(),
            final(self).capacity() == old(self).capacity(),
            final(self).end_offset() == old(self).end_offset() + 1,
            old(self).retained().len() < old(self).capacity() ==> {
                &&& final(self).retained() == old(self).retained().push(sample)
                &&& final(self).base_offset() == old(self).base_offset()
            },
            old(self).retained().len() == old(self).capacity() ==> {
                &&& final(self).retained() == old(self).retained().drop_first().push(sample)
                &&& final(self).base_offset() == old(self).base_offset() + 1
            },
    {
        if self.samples.len() >= self.capacity {
            let _ = self.samples.pop_front();
            self.base_sample = self.base_sample + 1;
        }
        self.samples.push_back(sample);
        proof {
            if old(self).retained().len() == old(self).capacity() {
                assert(self.samples@ =~= old(self).samples@.drop_first().push(sample));
            }
        }
    }

    /// The samples of the millisecond range `[start_ms, end_ms)`: all
    /// `(end_ms - start_ms) * 16` of them when the range is wholly retained,
    /// none otherwise.
    pub fn extract(&self, start_ms: u64, end_ms: u64) -> (slice: Vec<i16>)
        requires
            self.wf(),
        ensures
            slice@ == window_slice(self.base_offset(), self.retained(), start_ms, end_ms),
            range_retained(self.base_offset(), self.retained().len(), start_ms, end_ms)
                ==> slice@.len() == (end_ms - start_ms) * 16,
    {
        let mut slice: Vec<i16> = Vec::new();
        if start_ms >= end_ms {
            return slice;
        }
        let len: u64 = self.samples.len() as u64;
        let tail: u64 = self.base_sample + len;
        if end_ms > tail / SAMPLES_PER_MS {
            return slice;
        }
        let start_sample: u64 = start_ms * SAMPLES_PER_MS;
        let end_sample: u64 = end_ms * SAMPLES_PER_MS;
        if start_sample < self.base_sample {
            return slice;
        }
        let rel_start: usize = (start_sample - self.base_sample) as usize;
        let rel_end: usize = (end_sample - self.base_sample) as usize;
        let mut i: usize = rel_start;
        while i < rel_end
            invariant
                rel_start <= i <= rel_end <= self.samples@.len(),
                slice@ == self.samples@.subrange(rel_start as int, i as int),
            decreases rel_end - i,
        {
            slice.push(self.samples[i]);
            i = i + 1;
            proof {
                assert(slice@ =~= self.samples@.subrange(rel_start as int, i as int));
            }
        }
        slice
    }

    /// Number of retained samples.
    pub fn len(&self) -> (n: usize)
        ensures
            n == self.retained().len(),
    {
        self.samples.len()
    }

    /// Absolute index one past the newest retained sample.
    pub fn end_sample(&self) -> (n: u64)
        requires
            self.wf(),
        ensures
            n == self.end_offset(),
    {
        self.base_sample + self.samples.len() as u64
    }
}

} // verus!
