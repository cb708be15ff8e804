//! SubRip subtitles.

use crate::text::texts_view;
use crate::export::{cue_count, cue_text, push_cue};
use crate::session::model::SegmentModel;
use crate::session::recorder::{segments_view, SessionSegment};
use crate::text::{append_chars, decimal, decimal_text, text_of};
use vstd::prelude::*;

verus! {

/// The first `n` cues of a SubRip file: each is numbered from one, and
/// its times are written with a comma before the milliseconds.
pub open spec fn srt_text(segments: Seq<SegmentModel>, texts: Seq<Seq<char>>, n: nat) -> Seq<char>
    decreases n,
{
    if n == 0 {
        Seq::empty()
    } else {
        srt_text(segments, texts, (n - 1) as nat) + decimal_text(n) + seq!['\n'] + cue_text(
            segments[n - 1],
            texts[n - 1],
            ',',
        )
    }
}

/// A time as SubRip writes it.
pub fn ms_to_srt_time(ms: u64) -> (time: String)
    ensures
        time@ == crate::export::clock_text(ms, ','),
{
    let mut out: Vec<char> = Vec::new();
    crate::export::push_clock(&mut out, ms, ',');
    text_of(&out)
}

/// Writes the transcript as SubRip text.
pub fn write_srt(segments: &Vec<SessionSegment>, texts: &Vec<String>) -> (content: String)
    ensures
        content@ == srt_text(
            segments_view(segments@),
            texts_view(texts@),
            cue_count(segments_view(segments@), texts_view(texts@)),
        ),
{
    let n: usize = if segments.len() <= texts.len() {
        segments.len()
    } else {
        texts.len()
    };
    let mut out: Vec<char> = Vec::new();
    let mut i: usize = 0;
    while i < n
        invariant
            i <= n,
            n <= segments@.len(),
            n <= texts@.len(),
            out@ == srt_text(segments_view(segments@), texts_view(texts@), i as nat),
        decreases n - i,
    {
        let ghost before = out@;
        let number = decimal((i + 1) as u64);
        append_chars(&mut out, &number);
        out.push('\n');
        push_cue(&mut out, &segments[i], &texts[i], ',');
        i = i + 1;
        proof {
            assert(out@ =~= before + decimal_text(i as nat) + seq!['\n'] + cue_text(
                segments_view(segments@)[i - 1],
                texts_view(texts@)[i - 1],
                ',',
            ));
        }
    }
    text_of(&out)
}

} // verus!
