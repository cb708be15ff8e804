//! Subtitle export: the transcript as SubRip or WebVTT text.

pub mod srt;
pub mod vtt;

use crate::text::texts_view;
use crate::session::model::SegmentModel;
use crate::session::recorder::{segments_view, SessionSegment};
use crate::text::{append_chars, append_str, padded, padded_text};
use vstd::prelude::*;

verus! {

/// A time of day as `HH:MM:SS`, the separator, and three digits of
/// milliseconds. Hours beyond 99 are written in full.
pub open spec fn clock_text(ms: u64, separator: char) -> Seq<char> {
    padded_text((ms / 3_600_000) as nat, 2) + seq![':'] + padded_text(
        ((ms % 3_600_000) / 60_000) as nat,
        2,
    ) + seq![':'] + padded_text(((ms % 60_000) / 1_000) as nat, 2) + seq![separator] + padded_text(
        (ms % 1_000) as nat,
        3,
    )
}

/// The name shown for a segment's speaker: the label, else the user id.
pub open spec fn speaker_text(segment: SegmentModel) -> Seq<char> {
    match segment.speaker_name {
        Some(name) => name,
        None => segment.user_id,
    }
}

/// The time line and the text line of a cue, and the empty line after it.
pub open spec fn cue_text(segment: SegmentModel, text: Seq<char>, separator: char) -> Seq<char> {
    clock_text(segment.start_ms, separator) + " --> "@ + clock_text(segment.end_ms, separator)
        + seq!['\n'] + seq!['['] + speaker_text(segment) + "]: "@ + text + seq!['\n'] + seq!['\n']
}

/// Number of cues: segments and texts are paired by position, and what
/// has no partner is left out.
pub open spec fn cue_count(segments: Seq<SegmentModel>, texts: Seq<Seq<char>>) -> nat {
    if segments.len() <= texts.len() {
        segments.len()
    } else {
        texts.len()
    }
}

/// Appends a time of day to `out`.
pub fn push_clock(out: &mut Vec<char>, ms: u64, separator: char)
    ensures
        final(out)@ == old(out)@ + clock_text(ms, separator),
{
    let hours = padded(ms / 3_600_000, 2);
    let mins = padded((ms % 3_600_000) / 60_000, 2);
    let secs = padded((ms % 60_000) / 1_000, 2);
    let millis = padded(ms % 1_000, 3);
    append_chars(out, &hours);
    out.push(':');
    append_chars(out, &mins);
    out.push(':');
    append_chars(out, &secs);
    out.push(separator);
    append_chars(out, &millis);
    proof {
        assert(out@ =~= old(out)@ + clock_text(ms, separator));
    }
}

/// Appends the time line and the text line of a cue to `out`.
pub fn push_cue(out: &mut Vec<char>, segment: &SessionSegment, text: &String, separator: char)
    ensures
        final(out)@ == old(out)@ + cue_text(segment@, text@, separator),
{
    push_clock(out, segment.start_ms, separator);
    append_str(out, " --> ");
    push_clock(out, segment.end_ms, separator);
    out.push('\n');
    out.push('[');
    match &segment.speaker_name {
        Some(name) => append_str(out, name.as_str()),
        None => append_str(out, segment.user_id.as_str()),
    }
    append_str(out, "]: ");
    append_str(out, text.as_str());
    out.push('\n');
    out.push('\n');
    proof {
        assert(out@ =~= old(out)@ + cue_text(segment@, text@, separator));
    }
}

/// The transcript as SubRip text.
pub fn export_srt(segments: &Vec<SessionSegment>, texts: &Vec<String>) -> (content: String)
    ensures
        content@ == srt::srt_text(
            segments_view(segments@),
            texts_view(texts@),
            cue_count(segments_view(segments@), texts_view(texts@)),
        ),
{
    srt::write_srt(segments, texts)
}

/// The transcript as WebVTT text.
pub fn export_vtt(segments: &Vec<SessionSegment>, texts: &Vec<String>) -> (content: String)
    ensures
        content@ == vtt::vtt_text(segments_view(segments@), texts_view(texts@)),
{
    vtt::write_vtt(segments, texts)
}

/// The subtitle formats that can be exported.
#[derive(Debug, PartialEq, Eq, Structural, Clone, Copy)]
pub enum ExportFormat {
    Srt,
    Vtt,
}

/// The format that a name stands for: `srt` or `vtt`, nothing else.
pub fn parse_format(name: &String) -> (format: Option<ExportFormat>)
    ensures
        format == (if name@ == "srt"@ {
            Some(ExportFormat::Srt)
        } else if name@ == "vtt"@ {
            Some(ExportFormat::Vtt)
        } else {
            None
        }),
{
    if name.eq(&"srt".to_owned()) {
        Some(ExportFormat::Srt)
    } else if name.eq(&"vtt".to_owned()) {
        Some(ExportFormat::Vtt)
    } else {
        None
    }
}

} // verus!
