//! Cutting a segment's samples out of a recorded stream.

use crate::text::{append_chars, append_str, decimal, decimal_text, text_of};
use vstd::prelude::*;

verus! {

/// The canonical sample rate.
pub const SAMPLE_RATE: u32 = 16000;

/// The canonical channel count.
pub const CHANNELS: u16 = 1;

/// The canonical sample width.
pub const BITS_PER_SAMPLE: u16 = 16;

/// Whether a stream has the canonical format: 16 kHz, mono, 16 bit.
pub open spec fn is_canonical(sample_rate: u32, channels: u16, bits_per_sample: u16) -> bool {
    sample_rate == 16000 && channels == 1 && bits_per_sample == 16
}

/// What is said of a stream in another format.
pub open spec fn format_error_text(sample_rate: u32, channels: u16, bits_per_sample: u16) -> Seq<
    char,
> {
    "Expected 16kHz mono 16-bit, got "@ + decimal_text(sample_rate as nat) + "Hz "@ + decimal_text(
        channels as nat,
    ) + "ch "@ + decimal_text(bits_per_sample as nat) + "bit"@
}

/// The samples of `[start_ms, end_ms)` as far as the stream holds them:
/// what is left after skipping `start_ms * 16` samples, at most
/// `(end_ms - start_ms) * 16` of it.
pub open spec fn stream_slice(samples: Seq<i16>, start_ms: u64, end_ms: u64) -> Seq<i16> {
    let skip = start_ms * 16;
    let take = if end_ms > start_ms {
        (end_ms - start_ms) * 16
    } else {
        0
    };
    if skip >= samples.len() {
        Seq::empty()
    } else if skip + take >= samples.len() {
        samples.skip(skip)
    } else {
        samples.subrange(skip, skip + take)
    }
}

/// Cuts the samples of `[start_ms, end_ms)` out of a stream. A stream in
/// another format than the canonical one is refused.
pub fn extract_segment(
    samples: &Vec<i16>,
    sample_rate: u32,
    channels: u16,
    bits_per_sample: u16,
    start_ms: u64,
    end_ms: u64,
) -> (slice: Result<Vec<i16>, String>)
    ensures
        slice is Ok <==> is_canonical(sample_rate, channels, bits_per_sample),
        match slice {
            Ok(out) => out@ == stream_slice(samples@, start_ms, end_ms),
            Err(msg) => msg@ == format_error_text(sample_rate, channels, bits_per_sample),
        },
{
    if sample_rate != 16000 || channels != 1 || bits_per_sample != 16 {
        let mut msg: Vec<char> = Vec::new();
        append_str(&mut msg, "Expected 16kHz mono 16-bit, got ");
        append_chars(&mut msg, &decimal(sample_rate as u64));
        append_str(&mut msg, "Hz ");
        append_chars(&mut msg, &decimal(channels as u64));
        append_str(&mut msg, "ch ");
        append_chars(&mut msg, &decimal(bits_per_sample as u64));
        append_str(&mut msg, "bit");
        proof {
            assert(msg@ =~= format_error_text(sample_rate, channels, bits_per_sample));
        }
        return Err(text_of(&msg));
    }
    let len: u64 = samples.len() as u64;
    let mut out: Vec<i16> = Vec::new();
    if start_ms >= len || start_ms > u64::MAX / 16 {
        return Ok(out);
    }
    let skip: u64 = start_ms * 16;
    if skip >= len {
        return Ok(out);
    }
    let width: u64 = if end_ms > start_ms {
        end_ms - start_ms
    } else {
        0
    };
    let room: u64 = len - skip;
    let take: u64 = if width >= room || width > u64::MAX / 16 {
        room
    } else if width * 16 >= room {
        room
    } else {
        width * 16
    };
    let from: usize = skip as usize;
    let to: usize = (skip + take) as usize;
    let mut i: usize = from;
    proof {
        assert(out@ =~= samples@.subrange(from as int, from as int));
    }
    while i < to
        invariant
            from <= i <= to <= samples@.len(),
            out@ == samples@.subrange(from as int, i as int),
        decreases to - i,
    {
        out.push(samples[i]);
        i = i + 1;
        proof {
            assert(out@ =~= samples@.subrange(from as int, i as int));
        }
    }
    proof {
        assert(out@ =~= stream_slice(samples@, start_ms, end_ms));
    }
    Ok(out)
}

} // verus!
