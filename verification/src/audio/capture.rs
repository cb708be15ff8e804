//! Control of a capture run, and the decoding of what the devices deliver.

use crate::audio::buffer::AudioBuffer;
use std::collections::VecDeque;
use vstd::prelude::*;

verus! {

/// Handle to control an active audio capture session.
#[derive(Debug)]
pub struct AudioCaptureHandle {
    stop_flag: bool,
}

/// What is said where capture is not supported.
pub open spec fn unsupported_text() -> Seq<char> {
    "Audio capture is only supported on Windows"@
}

impl AudioCaptureHandle {
    /// Whether the capture threads have been asked to stop.
    pub closed spec fn stopping(&self) -> bool {
        self.stop_flag
    }

    /// Whether the capture threads are to stop.
    pub fn should_stop(&self) -> (b: bool)
        ensures
            b == self.stopping(),
    {
        self.stop_flag
    }
}

/// Begins a capture run on a platform that has loopback capture; on any
/// other platform capture is refused as unsupported.
pub fn start_audio_capture(platform_supported: bool) -> (handle: Result<AudioCaptureHandle, String>)
    ensures
        handle is Ok <==> platform_supported,
        match handle {
            Ok(h) => !h.stopping(),
            Err(msg) => msg@ == unsupported_text(),
        },
{
    if platform_supported {
        Ok(AudioCaptureHandle { stop_flag: false })
    } else {
        Err("Audio capture is only supported on Windows".to_owned())
    }
}

/// Asks the capture threads of a run to stop.
pub fn stop_audio_capture(handle: &mut AudioCaptureHandle)
    ensures
        final(handle).stopping(),
{
    handle.stop_flag = true;
}

/// The sample whose little-endian bytes are `low` and `high`.
pub open spec fn sample_of(low: u8, high: u8) -> i16 {
    if low + 256 * high >= 32768 {
        (low + 256 * high - 65536) as i16
    } else {
        (low + 256 * high) as i16
    }
}

/// The samples that the first `2 * n` bytes stand for.
pub open spec fn samples_of_bytes(bytes: Seq<u8>, n: nat) -> Seq<i16> {
    Seq::new(n, |i: int| sample_of(bytes[2 * i], bytes[2 * i + 1]))
}

fn decode_sample(low: u8, high: u8) -> (s: i16)
    ensures
        s == sample_of(low, high),
{
    let v: i32 = low as i32 + 256 * (high as i32);
    if v >= 32768 {
        (v - 65536) as i16
    } else {
        v as i16
    }
}

/// Takes every whole sample out of the byte queue, oldest first. A single
/// byte that is left waits for its partner.
pub fn drain_samples(queue: &mut VecDeque<u8>) -> (samples: Vec<i16>)
    ensures
        samples@ == samples_of_bytes(old(queue)@, old(queue)@.len() / 2),
        final(queue)@ == old(queue)@.skip(2 * (old(queue)@.len() / 2) as int),
        final(queue)@.len() < 2,
{
    let mut samples: Vec<i16> = Vec::new();
    let ghost all = queue@;
    proof {
        assert(queue@ =~= all.skip(0));
        assert(samples@ =~= samples_of_bytes(all, 0));
    }
    while queue.len() >= 2
        invariant
            2 * samples@.len() <= all.len(),
            queue@ == all.skip(2 * samples@.len() as int),
            samples@ == samples_of_bytes(all, samples@.len()),
        decreases queue@.len(),
    {
        let ghost done = samples@.len() as int;
        let ghost before = samples@;
        let low = queue.pop_front();
        let high = queue.pop_front();
        match (low, high) {
            (Some(l), Some(h)) => {
                samples.push(decode_sample(l, h));
                proof {
                    assert(l == all[2 * done]);
                    assert(h == all[2 * done + 1]);
                    assert(samples@ =~= samples_of_bytes(all, (done + 1) as nat));
                    assert(queue@ =~= all.skip(2 * (done + 1)));
                }
            },
            _ => {
                proof {
                    assert(false);
                }
            },
        }
    }
    proof {
        assert(samples@.len() == all.len() / 2);
    }
    samples
}

/// The retained samples after `samples` were pushed one by one into a
/// ring of the given capacity.
pub open spec fn pushed_all(retained: Seq<i16>, samples: Seq<i16>, capacity: nat) -> Seq<i16>
    decreases samples.len(),
{
    if samples.len() == 0 {
        retained
    } else {
        let before = pushed_all(retained, samples.drop_last(), capacity);
        if before.len() < capacity {
            before.push(samples.last())
        } else {
            before.drop_first().push(samples.last())
        }
    }
}

/// Feeds captured samples to a ring buffer, in order, as far as its
/// offsets reach, and says how many were fed. They stand in the ring as
/// if each had been pushed.
pub fn feed_ring(ring: &mut AudioBuffer, samples: &Vec<i16>) -> (fed: usize)
    requires
        old(ring).wf(),
    ensures
        final(ring).wf(),
        final(ring).capacity() == old(ring).capacity(),
        fed <= samples@.len(),
        final(ring).end_offset() == old(ring).end_offset() + fed,
        final(ring).retained() == pushed_all(
            old(ring).retained(),
            samples@.take(fed as int),
            old(ring).capacity(),
        ),
        fed < samples@.len() ==> final(ring).end_offset() == u64::MAX,
{
    let mut i: usize = 0;
    proof {
        assert(samples@.take(0) =~= Seq::<i16>::empty());
    }
    while i < samples.len()
        invariant
            ring.wf(),
            ring.capacity() == old(ring).capacity(),
            i <= samples@.len(),
            ring.end_offset() == old(ring).end_offset() + i,
            ring.retained() == pushed_all(
                old(ring).retained(),
                samples@.take(i as int),
                old(ring).capacity(),
            ),
        decreases samples@.len() - i,
    {
        if ring.end_sample() == u64::MAX {
            return i;
        }
        proof {
            ring.lemma_within_capacity();
            assert(samples@.take(i + 1).drop_last() =~= samples@.take(i as int));
            assert(samples@.take(i + 1).last() == samples@[i as int]);
        }
        ring.push(samples[i]);
        i = i + 1;
    }
    i
}

} // verus!
