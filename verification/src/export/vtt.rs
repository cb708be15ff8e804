//! WebVTT subtitles.

use crate::text::texts_view;
use crate::export::{cue_count, cue_text, push_cue};
use crate::session::model::SegmentModel;
use crate::session::recorder::{segments_view, SessionSegment};
use crate::text::{append_str, text_of};
use vstd::prelude::*;

verus! {

/// The first `n` cues of a WebVTT file: its times are written with a dot
/// before the milliseconds.
pub open spec fn vtt_cues(segments: Seq<SegmentModel>, texts: Seq<Seq<char>>, n: nat) -> Seq<char>
    decreases n,
{
    if n == 0 {
        Seq::empty()
    } else {
        vtt_cues(segments, texts, (n - 1) as nat) + cue_text(segments[n - 1], texts[n - 1], '.')
    }
}

/// A WebVTT file: the header line, an empty line, and the cues.
pub open spec fn vtt_text(segments: Seq<SegmentModel>, texts: Seq<Seq<char>>) -> Seq<char> {
    "WEBVTT"@ + seq!['\n'] + seq!['\n'] + vtt_cues(segments, texts, cue_count(segments, texts))
}

/// A time as WebVTT writes it.
pub fn ms_to_vtt_time(ms: u64) -> (time: String)
    ensures
        time@ == crate::export::clock_text(ms, '.'),
{
    let mut out: Vec<char> = Vec::new();
    crate::export::push_clock(&mut out, ms, '.');
    text_of(&out)
}

/// Writes the transcript as WebVTT text.
pub fn write_vtt(segments: &Vec<SessionSegment>, texts: &Vec<String>) -> (content: String)
    ensures
        content@ == vtt_text(segments_view(segments@), texts_view(texts@)),
{
    let n: usize = if segments.len() <= texts.len() {
        segments.len()
    } else {
        texts.len()
    };
    let mut out: Vec<char> = Vec::new();
    append_str(&mut out, "WEBVTT");
    out.push('\n');
    out.push('\n');
    let ghost head = out@;
    let mut i: usize = 0;
    proof {
        assert(out@ =~= head + vtt_cues(segments_view(segments@), texts_view(texts@), 0));
    }
    while i < n
        invariant
            i <= n,
            n <= segments@.len(),
            n <= texts@.len(),
            out@ == head + vtt_cues(segments_view(segments@), texts_view(texts@), i as nat),
        decreases n - i,
    {
        let ghost before = out@;
        push_cue(&mut out, &segments[i], &texts[i], '.');
        i = i + 1;
        proof {
            assert(out@ =~= head + vtt_cues(segments_view(segments@), texts_view(texts@), i as nat));
        }
    }
    text_of(&out)
}

} // verus!
