//! Per-segment transcription bookkeeping: which stream a segment is cut
//! from, which samples, and where its text is stored. The text of segment
//! `i` always stands at index `i`.

use crate::text::texts_view;
use crate::labels::opt_text;
use crate::session::recorder::{SessionSegment, SessionState};
use crate::text::{chars_of, contains_chars, contains_text};
use vstd::prelude::*;
use vstd::string::StringExecFns;

verus! {

/// How long the live worker waits after a segment arrives before it
/// slices the ring, so that the capture can catch up with the session clock.
pub const LIVE_GRACE_MS: u64 = 300;

/// The captured stream a segment is cut from.
#[derive(Debug, PartialEq, Eq, Structural, Clone, Copy)]
pub enum StreamSide {
    /// What the user hears: everyone else.
    Loopback,
    /// What the user says.
    Microphone,
}

/// The backend that transcribes a slice.
#[derive(Debug, PartialEq, Eq, Structural, Clone, Copy)]
pub enum BackendChoice {
    /// The remote HTTP endpoint.
    Remote,
    /// The binary that stands beside the executable.
    LocalBinary,
    /// The sidecar registered with the host shell.
    Sidecar,
    /// None of them is at hand.
    Missing,
}

/// What is to be done for one segment.
#[derive(Debug, PartialEq, Eq, Structural, Clone, Copy)]
pub enum SegmentPlan {
    /// An empty segment: its text is the empty string, and no backend runs.
    Empty,
    /// Cut `take_samples` samples after skipping `skip_samples`.
    Slice { side: StreamSide, skip_samples: u64, take_samples: u64 },
}

/// `ms` milliseconds in samples, capped at the largest count.
pub open spec fn samples_of(ms: int) -> int {
    if ms * 16 > u64::MAX {
        u64::MAX as int
    } else {
        ms * 16
    }
}

/// The side a user's speech is captured on: the microphone for the local
/// user, the loopback for everyone else.
pub open spec fn side_of(user_id: Seq<char>, self_user: Option<Seq<char>>) -> StreamSide {
    if self_user == Some(user_id) {
        StreamSide::Microphone
    } else {
        StreamSide::Loopback
    }
}

/// The plan for a segment.
pub open spec fn plan_of(
    start_ms: u64,
    end_ms: u64,
    user_id: Seq<char>,
    self_user: Option<Seq<char>>,
) -> SegmentPlan {
    if end_ms <= start_ms {
        SegmentPlan::Empty
    } else {
        SegmentPlan::Slice {
            side: side_of(user_id, self_user),
            skip_samples: samples_of(start_ms as int) as u64,
            take_samples: samples_of(end_ms - start_ms) as u64,
        }
    }
}

fn to_samples(ms: u64) -> (n: u64)
    ensures
        n == samples_of(ms as int),
{
    if ms > u64::MAX / 16 {
        u64::MAX
    } else {
        ms * 16
    }
}

/// Decides the stream side of a user.
pub fn segment_side(user_id: &String, self_user_id: &Option<String>) -> (side: StreamSide)
    ensures
        side == side_of(user_id@, opt_text(*self_user_id)),
{
    match self_user_id {
        Some(me) => if me.eq(user_id) {
            StreamSide::Microphone
        } else {
            StreamSide::Loopback
        },
        None => StreamSide::Loopback,
    }
}

/// Makes the plan for one segment.
pub fn plan_segment(segment: &SessionSegment, self_user_id: &Option<String>) -> (plan: SegmentPlan)
    ensures
        plan == plan_of(
            segment.start_ms,
            segment.end_ms,
            segment.user_id@,
            opt_text(*self_user_id),
        ),
{
    if segment.end_ms <= segment.start_ms {
        SegmentPlan::Empty
    } else {
        SegmentPlan::Slice {
            side: segment_side(&segment.user_id, self_user_id),
            skip_samples: to_samples(segment.start_ms),
            take_samples: to_samples(segment.end_ms - segment.start_ms),
        }
    }
}

/// Picks the backend: the remote endpoint when remote mode is in use;
/// else the local binary when it was found; else the sidecar when it is
/// registered.
pub fn choose_backend(use_remote: bool, local_binary: bool, sidecar: bool) -> (choice:
    BackendChoice)
    ensures
        choice == (if use_remote {
            BackendChoice::Remote
        } else if local_binary {
            BackendChoice::LocalBinary
        } else if sidecar {
            BackendChoice::Sidecar
        } else {
            BackendChoice::Missing
        }),
{
    if use_remote {
        BackendChoice::Remote
    } else if local_binary {
        BackendChoice::LocalBinary
    } else if sidecar {
        BackendChoice::Sidecar
    } else {
        BackendChoice::Missing
    }
}

/// The diagnostic of a binary that was not found.
pub open spec fn missing_binary_marker() -> Seq<char> {
    "program not found"@
}

/// The diagnostic of a binary that could not be run.
pub open spec fn failed_run_marker() -> Seq<char> {
    "Failed to run whisper"@
}

/// Where to get the binary, added to those two diagnostics.
pub open spec fn install_hint() -> Seq<char> {
    ". Download whisper from https://github.com/ggml-org/whisper.cpp/releases, extract whisper-cli.exe, rename to whisper-cli-x86_64-pc-windows-msvc.exe, place in src-tauri/binaries/ (see README there)."@
}

/// The text recorded for a segment whose backend failed with `err`.
pub open spec fn error_entry(err: Seq<char>, via_sidecar: bool) -> Seq<char> {
    let msg = if !via_sidecar && (contains_text(err, missing_binary_marker()) || contains_text(
        err,
        failed_run_marker(),
    )) {
        err + install_hint()
    } else {
        err
    };
    "[Transcription error: "@ + msg + "]"@
}

/// The text recorded for a segment: the backend's text, or a sentinel
/// that holds its error.
pub open spec fn entry_of(outcome: Result<String, String>, via_sidecar: bool) -> Seq<char> {
    match outcome {
        Ok(text) => text@,
        Err(err) => error_entry(err@, via_sidecar),
    }
}

/// Makes the text that is recorded for a backend's outcome.
pub fn result_entry(outcome: Result<String, String>, via_sidecar: bool) -> (entry: String)
    ensures
        entry@ == entry_of(outcome, via_sidecar),
{
    match outcome {
        Ok(text) => text,
        Err(err) => {
            let chars = chars_of(err.as_str());
            let hinted: bool = !via_sidecar && (contains_chars(
                &chars,
                &chars_of("program not found"),
            ) || contains_chars(&chars, &chars_of("Failed to run whisper")));
            let mut entry: String = "[Transcription error: ".to_owned();
            entry.append(err.as_str());
            if hinted {
                entry.append(
                    ". Download whisper from https://github.com/ggml-org/whisper.cpp/releases, extract whisper-cli.exe, rename to whisper-cli-x86_64-pc-windows-msvc.exe, place in src-tauri/binaries/ (see README there).",
                );
            }
            entry.append("]");
            proof {
                assert(entry@ =~= error_entry(err@, via_sidecar));
            }
            entry
        },
    }
}

/// The texts padded with empty strings up to `count` entries.
pub open spec fn padded_texts(texts: Seq<Seq<char>>, count: nat) -> Seq<Seq<char>> {
    if texts.len() >= count {
        texts
    } else {
        texts + Seq::new((count - texts.len()) as nat, |i: int| Seq::<char>::empty())
    }
}

/// Pads a list of texts with empty strings so that every one of `count`
/// segments has an entry. No entry is removed or changed.
pub fn pad_texts(texts: &mut Vec<String>, count: usize)
    ensures
        texts_view(final(texts)@) == padded_texts(texts_view(old(texts)@), count as nat),
        final(texts)@.len() >= count,
{
    let ghost before = texts_view(texts@);
    proof {
        assert(texts_view(texts@) =~= before + Seq::new(0, |i: int| Seq::<char>::empty()));
    }
    while texts.len() < count
        invariant
            texts@.len() >= before.len(),
            before.len() < count ==> texts@.len() <= count,
            before.len() >= count ==> texts@.len() == before.len(),
            texts_view(texts@) == before + Seq::new(
                (texts@.len() - before.len()) as nat,
                |i: int| Seq::<char>::empty(),
            ),
        decreases count - texts@.len(),
    {
        let ghost prev = texts_view(texts@);
        texts.push(String::new());
        proof {
            assert(texts_view(texts@) =~= prev.push(Seq::<char>::empty()));
            assert(texts_view(texts@) =~= before + Seq::new(
                (texts@.len() - before.len()) as nat,
                |i: int| Seq::<char>::empty(),
            ));
        }
    }
    proof {
        if before.len() >= count {
            assert(texts_view(texts@) =~= before);
        }
    }
}

/// Attaches the texts of a live recording to the session state, padded so
/// that every segment has an entry.
pub fn attach_live_texts(state: &mut SessionState, texts: Vec<String>)
    ensures
        texts_view(final(state).transcript_texts@) == padded_texts(
            texts_view(texts@),
            old(state).segments@.len(),
        ),
        final(state).transcript_texts@.len() >= final(state).segments@.len(),
        final(state).segments == old(state).segments,
        final(state).session_id == old(state).session_id,
        final(state).created_at == old(state).created_at,
        final(state).user_labels == old(state).user_labels,
        final(state).audio_paths == old(state).audio_paths,
        final(state).self_user_id == old(state).self_user_id,
{
    let mut texts = texts;
    pad_texts(&mut texts, state.segments.len());
    state.transcript_texts = texts;
}

/// A batch run over the segments of a session, one after the other.
pub struct BatchDispatch {
    texts: Vec<String>,
    cursor: usize,
    count: usize,
}

/// What the caller is to do next in a batch run.
#[derive(Debug, PartialEq, Eq, Structural, Clone, Copy)]
pub enum BatchStep {
    /// Every segment has its text.
    Done,
    /// Cut this slice for the segment at `index`, run the backend on it,
    /// and record the outcome.
    Transcribe { index: usize, side: StreamSide, skip_samples: u64, take_samples: u64 },
}

impl BatchDispatch {
    /// The texts so far, one per segment and in segment order.
    pub closed spec fn texts(&self) -> Seq<Seq<char>> {
        texts_view(self.texts@)
    }

    /// Index of the segment that is handled next.
    pub closed spec fn cursor(&self) -> nat {
        self.cursor as nat
    }

    /// Number of segments in the run.
    pub closed spec fn count(&self) -> nat {
        self.count as nat
    }

    /// Every segment has an entry, and the cursor is within the run.
    pub open spec fn wf(&self) -> bool {
        self.texts().len() >= self.count() && self.cursor() <= self.count()
    }

    /// Begins a run over `count` segments with the texts already known.
    pub fn begin(texts: Vec<String>, count: usize) -> (run: BatchDispatch)
        ensures
            run.wf(),
            run.cursor() == 0,
            run.count() == count,
            run.texts() == padded_texts(texts_view(texts@), count as nat),
    {
        let mut texts = texts;
        pad_texts(&mut texts, count);
        BatchDispatch { texts, cursor: 0, count }
    }

    fn put(&mut self, entry: String)
        requires
            old(self).wf(),
            old(self).cursor() < old(self).count(),
        ensures
            final(self).wf(),
            final(self).count() == old(self).count(),
            final(self).cursor() == old(self).cursor() + 1,
            final(self).texts() == old(self).texts().update(old(self).cursor() as int, entry@),
    {
        let ghost before = texts_view(self.texts@);
        self.texts.set(self.cursor, entry);
        self.cursor = self.cursor + 1;
        proof {
            assert(texts_view(self.texts@) =~= before.update(old(self).cursor() as int, entry@));
        }
    }

    /// Says what is to be done for the segment at the cursor. An empty
    /// segment gets the empty string at once, and the cursor moves on to
    /// the next segment that needs a backend.
    pub fn next(&mut self, segments: &Vec<SessionSegment>, self_user_id: &Option<String>) -> (step:
        BatchStep)
        requires
            old(self).wf(),
            segments@.len() == old(self).count(),
        ensures
            final(self).wf(),
            final(self).count() == old(self).count(),
            final(self).texts().len() == old(self).texts().len(),
            old(self).cursor() <= final(self).cursor(),
            forall|i: int|
                0 <= i < final(self).texts().len() ==> #[trigger] final(self).texts()[i] == (if old(
                    self,
                ).cursor() <= i < final(self).cursor() {
                    Seq::<char>::empty()
                } else {
                    old(self).texts()[i]
                }),
            forall|i: int|
                old(self).cursor() <= i < final(self).cursor() ==> (#[trigger] segments@[i]).end_ms
                    <= segments@[i].start_ms,
            match step {
                BatchStep::Done => final(self).cursor() == final(self).count(),
                BatchStep::Transcribe { index, side, skip_samples, take_samples } => {
                    &&& index == final(self).cursor()
                    &&& index < final(self).count()
                    &&& plan_of(
                        segments@[index as int].start_ms,
                        segments@[index as int].end_ms,
                        segments@[index as int].user_id@,
                        opt_text(*self_user_id),
                    ) == (SegmentPlan::Slice { side, skip_samples, take_samples })
                },
            },
    {
        while self.cursor < self.count
            invariant
                self.wf(),
                segments@.len() == self.count(),
                self.count() == old(self).count(),
                self.texts().len() == old(self).texts().len(),
                old(self).cursor() <= self.cursor(),
                forall|i: int|
                    0 <= i < self.texts().len() ==> #[trigger] self.texts()[i] == (if old(
                        self,
                    ).cursor() <= i < self.cursor() {
                        Seq::<char>::empty()
                    } else {
                        old(self).texts()[i]
                    }),
                forall|i: int|
                    old(self).cursor() <= i < self.cursor() ==> (#[trigger] segments@[i]).end_ms
                        <= segments@[i].start_ms,
            decreases self.count() - self.cursor(),
        {
            match plan_segment(&segments[self.cursor], self_user_id) {
                SegmentPlan::Empty => {
                    self.put(String::new());
                },
                SegmentPlan::Slice { side, skip_samples, take_samples } => {
                    return BatchStep::Transcribe {
                        index: self.cursor,
                        side,
                        skip_samples,
                        take_samples,
                    };
                },
            }
        }
        BatchStep::Done
    }

    /// Records the backend's outcome for the segment at the cursor and
    /// moves on. A failure is recorded as a sentinel text; the run goes on.
    pub fn record(&mut self, outcome: Result<String, String>, via_sidecar: bool)
        requires
            old(self).wf(),
            old(self).cursor() < old(self).count(),
        ensures
            final(self).wf(),
            final(self).count() == old(self).count(),
            final(self).cursor() == old(self).cursor() + 1,
            final(self).texts() == old(self).texts().update(
                old(self).cursor() as int,
                entry_of(outcome, via_sidecar),
            ),
    {
        let entry = result_entry(outcome, via_sidecar);
        self.put(entry);
    }

    /// Whether a segment is left to record.
    pub fn is_waiting(&self) -> (b: bool)
        ensures
            b == (self.cursor() < self.count()),
    {
        self.cursor < self.count
    }

    /// Ends the run and hands out the texts: at least one per segment.
    pub fn finish(self) -> (texts: Vec<String>)
        requires
            self.wf(),
        ensures
            texts_view(texts@) == self.texts(),
            texts@.len() >= self.count(),
    {
        self.texts
    }
}

/// Adds the text of a segment that was transcribed live, and returns the
/// index under which it is published: the texts grow by one at the end.
pub fn push_live_text(texts: &mut Vec<String>, text: String) -> (index: usize)
    ensures
        index == old(texts)@.len(),
        texts_view(final(texts)@) == texts_view(old(texts)@).push(text@),
{
    let index: usize = texts.len();
    let ghost before = texts_view(texts@);
    texts.push(text);
    proof {
        assert(texts_view(texts@) =~= before.push(text@));
    }
    index
}

} // verus!
