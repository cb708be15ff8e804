use d_scribe::audio::buffer::{AudioBuffer, MAX_SAMPLES};
use d_scribe::audio::capture::{
    drain_samples, feed_ring, start_audio_capture, stop_audio_capture,
};
use std::collections::VecDeque;

fn filled(capacity: usize, count: i16) -> AudioBuffer {
    let mut ring = AudioBuffer::with_capacity(capacity);
    for s in 0..count {
        ring.push(s);
    }
    ring
}

#[test]
fn new_buffer_is_empty() {
    let ring = AudioBuffer::new();
    assert_eq!(ring.len(), 0);
    assert_eq!(ring.end_sample(), 0);
    assert_eq!(MAX_SAMPLES, 4_800_000);
    assert_eq!(ring.extract(0, 1), Vec::<i16>::new());
}

#[test]
fn ring_extract_across_drop() {
    let ring = filled(16, 32);
    assert_eq!(ring.len(), 16);
    assert_eq!(ring.extract(0, 1), Vec::<i16>::new());
    let second: Vec<i16> = (16..32).collect();
    assert_eq!(ring.extract(1, 2), second);
}

#[test]
fn ring_never_exceeds_capacity() {
    let mut ring = AudioBuffer::with_capacity(5);
    for s in 0..100 {
        ring.push(s);
        assert!(ring.len() <= 5);
    }
    assert_eq!(ring.len(), 5);
    assert_eq!(ring.end_sample(), 100);
}

#[test]
fn extract_returns_sixteen_samples_per_millisecond() {
    let ring = filled(64, 64);
    assert_eq!(ring.extract(0, 4).len(), 64);
    assert_eq!(ring.extract(1, 3).len(), 32);
    assert_eq!(ring.extract(1, 3), (16..48).collect::<Vec<i16>>());
    assert_eq!(ring.extract(3, 4), (48..64).collect::<Vec<i16>>());
}

#[test]
fn extract_is_empty_when_range_not_wholly_retained() {
    let ring = filled(64, 40);
    // The tail ends inside the third millisecond.
    assert_eq!(ring.extract(2, 3), Vec::<i16>::new());
    assert_eq!(ring.extract(0, 3), Vec::<i16>::new());
    assert_eq!(ring.extract(5, 6), Vec::<i16>::new());
    assert_eq!(ring.extract(0, 2).len(), 32);
}

#[test]
fn extract_is_empty_for_empty_or_reversed_range() {
    let ring = filled(64, 64);
    assert_eq!(ring.extract(1, 1), Vec::<i16>::new());
    assert_eq!(ring.extract(3, 1), Vec::<i16>::new());
}

#[test]
fn extract_handles_huge_times() {
    let ring = filled(64, 64);
    assert_eq!(ring.extract(u64::MAX - 1, u64::MAX), Vec::<i16>::new());
    assert_eq!(ring.extract(0, u64::MAX), Vec::<i16>::new());
}

#[test]
fn capture_is_refused_where_unsupported() {
    match start_audio_capture(false) {
        Ok(_) => panic!("capture must be refused"),
        Err(msg) => assert_eq!(msg, "Audio capture is only supported on Windows"),
    }
}

#[test]
fn capture_handle_records_stop_request() {
    let mut handle = start_audio_capture(true).unwrap();
    assert!(!handle.should_stop());
    stop_audio_capture(&mut handle);
    assert!(handle.should_stop());
}

#[test]
fn drain_samples_decodes_little_endian_pairs() {
    let mut queue: VecDeque<u8> = VecDeque::new();
    for b in [0x01u8, 0x00, 0xff, 0x7f, 0x00, 0x80, 0xff, 0xff, 0x34] {
        queue.push_back(b);
    }
    let samples = drain_samples(&mut queue);
    assert_eq!(samples, vec![1i16, 32767, -32768, -1]);
    assert_eq!(queue.len(), 1);
    assert_eq!(queue[0], 0x34);
}

#[test]
fn drain_samples_matches_std_decoding() {
    for low in [0u8, 1, 127, 128, 255] {
        for high in [0u8, 1, 127, 128, 255] {
            let mut queue: VecDeque<u8> = VecDeque::new();
            queue.push_back(low);
            queue.push_back(high);
            assert_eq!(drain_samples(&mut queue), vec![i16::from_le_bytes([low, high])]);
        }
    }
}

#[test]
fn feed_ring_appends_in_order() {
    let mut ring = AudioBuffer::with_capacity(32);
    let samples: Vec<i16> = (0..32).collect();
    assert_eq!(feed_ring(&mut ring, &samples), 32);
    assert_eq!(ring.extract(0, 2), samples);
}

#[test]
fn feed_ring_drops_the_oldest_at_capacity() {
    let mut ring = AudioBuffer::with_capacity(16);
    let samples: Vec<i16> = (0..40).collect();
    assert_eq!(feed_ring(&mut ring, &samples), 40);
    assert_eq!(ring.len(), 16);
    assert_eq!(ring.end_sample(), 40);
    assert_eq!(ring.extract(1, 2), Vec::<i16>::new());
    let mut more: Vec<i16> = (40..48).collect();
    feed_ring(&mut ring, &more);
    more = (32..48).collect();
    assert_eq!(ring.extract(2, 3), more);
}
