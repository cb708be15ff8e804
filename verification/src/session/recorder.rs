//! The recorder: one active session at a time, driven by speaking events.

use crate::labels::{copy_opt, labels_view, lookup_label, opt_text, UserLabel};
use crate::session::model::{
    closed, closed_at, finalized, flush, flushed, fresh, gap, kept, on_finish, on_start, on_stop,
    on_tick, open_index, pending_index, selected, FlushRule, OpenModel, PendingModel,
    SegmentModel, SessionModel,
};
use crate::session::laws::{lemma_flush_well_formed, lemma_start_well_formed, lemma_stop_well_formed};
use crate::session::naming::{default_template, format_session_id, session_id_text, SessionStamp};
use vstd::prelude::*;

verus! {

/// A single segment of speech from a speaker.
#[derive(Debug)]
pub struct SessionSegment {
    pub start_ms: u64,
    pub end_ms: u64,
    pub user_id: String,
    pub speaker_name: Option<String>,
}

impl View for SessionSegment {
    type V = SegmentModel;

    open spec fn view(&self) -> SegmentModel {
        SegmentModel {
            start_ms: self.start_ms,
            end_ms: self.end_ms,
            user_id: self.user_id@,
            speaker_name: opt_text(self.speaker_name),
        }
    }
}

impl SessionSegment {
    /// A copy of this segment.
    pub fn copy(&self) -> (c: SessionSegment)
        ensures
            c@ == self@,
    {
        SessionSegment {
            start_ms: self.start_ms,
            end_ms: self.end_ms,
            user_id: self.user_id.clone(),
            speaker_name: copy_opt(&self.speaker_name),
        }
    }
}

/// The segments of a list as plain values, in list order.
pub open spec fn segments_view(segments: Seq<SessionSegment>) -> Seq<SegmentModel> {
    Seq::new(segments.len(), |i: int| segments[i]@)
}

/// Where the two captured streams of a session are stored.
#[derive(Debug)]
pub struct SessionAudioPaths {
    pub loopback: Option<String>,
    pub microphone: Option<String>,
}

/// What a session knows of where it was recorded.
pub struct SessionMeta {
    pub guild_name: Option<Seq<char>>,
    pub guild_id: Option<Seq<char>>,
    pub channel_name: Option<Seq<char>>,
    pub channel_id: Option<Seq<char>>,
    pub channel_type: Option<u8>,
    pub self_user_id: Option<Seq<char>>,
    pub live_mode_enabled: bool,
    pub template: Seq<char>,
    pub start_time_ms: u64,
}

/// Full session state for persistence.
#[derive(Debug)]
pub struct SessionState {
    pub session_id: String,
    pub created_at: u64,
    pub guild_name: Option<String>,
    pub guild_id: Option<String>,
    pub channel_name: Option<String>,
    pub channel_id: Option<String>,
    /// Voice-channel kind as the voice client numbers it.
    pub channel_type: Option<u8>,
    pub live_mode_enabled: bool,
    pub self_user_id: Option<String>,
    pub user_labels: Vec<UserLabel>,
    pub segments: Vec<SessionSegment>,
    pub transcript_texts: Vec<String>,
    pub audio_paths: SessionAudioPaths,
}

struct OpenSegment {
    user_id: String,
    start_ms: u64,
}

struct PendingSegment {
    user_id: String,
    start_ms: u64,
    stop_ms: u64,
}

enum FlushSelector<'a> {
    Others(&'a String),
    Elapsed(u64),
    Every,
}

struct ActiveSession {
    start_time_ms: u64,
    segments: Vec<SessionSegment>,
    user_labels: Vec<UserLabel>,
    self_user_id: Option<String>,
    guild_name: Option<String>,
    guild_id: Option<String>,
    channel_name: Option<String>,
    channel_id: Option<String>,
    channel_type: Option<u8>,
    live_mode_enabled: bool,
    open_segments: Vec<OpenSegment>,
    pending_cooldown: Vec<PendingSegment>,
    segment_merge_buffer_ms: u64,
    project_name_template: String,
}

/// Holds the active session, if any, and whether finalized segments are
/// also published for live transcription.
pub struct Recorder {
    session: Option<ActiveSession>,
    live_publish: bool,
}

spec fn open_view(open: Seq<OpenSegment>) -> Seq<OpenModel> {
    Seq::new(open.len(), |i: int| OpenModel { user_id: open[i].user_id@, start_ms: open[i].start_ms })
}

spec fn pending_model(p: PendingSegment) -> PendingModel {
    PendingModel { user_id: p.user_id@, start_ms: p.start_ms, stop_ms: p.stop_ms }
}

spec fn pending_view(pending: Seq<PendingSegment>) -> Seq<PendingModel> {
    Seq::new(pending.len(), |i: int| pending_model(pending[i]))
}

spec fn selector_view(rule: FlushSelector) -> FlushRule {
    match rule {
        FlushSelector::Others(user) => FlushRule::Others(user@),
        FlushSelector::Elapsed(now) => FlushRule::Elapsed(now),
        FlushSelector::Every => FlushRule::Every,
    }
}

/// Milliseconds from `start_ms` to `now_ms` on one clock; zero when the
/// clock reads earlier than the start.
pub fn elapsed_ms_since(start_ms: u64, now_ms: u64) -> (elapsed: u64)
    ensures
        elapsed == gap(now_ms, start_ms),
{
    if now_ms >= start_ms {
        now_ms - start_ms
    } else {
        0
    }
}

fn selects(p: &PendingSegment, rule: &FlushSelector, buffer: u64) -> (hit: bool)
    ensures
        hit == selected(pending_model(*p), selector_view(*rule), buffer),
{
    match rule {
        FlushSelector::Others(user) => !p.user_id.eq(*user),
        FlushSelector::Elapsed(now) => elapsed_ms_since(p.stop_ms, *now) >= buffer,
        FlushSelector::Every => true,
    }
}

fn flush_into(
    segments: &mut Vec<SessionSegment>,
    pending: &Vec<PendingSegment>,
    labels: &Vec<UserLabel>,
    rule: &FlushSelector,
    buffer: u64,
) -> (rest: Vec<PendingSegment>)
    ensures
        segments_view(final(segments)@) == segments_view(old(segments)@) + flushed(
            pending_view(pending@),
            selector_view(*rule),
            buffer,
            labels_view(labels@),
        ),
        pending_view(rest@) == kept(pending_view(pending@), selector_view(*rule), buffer),
{
    let mut rest: Vec<PendingSegment> = Vec::new();
    let mut i: usize = 0;
    let ghost all = pending_view(pending@);
    let ghost r = selector_view(*rule);
    let ghost lv = labels_view(labels@);
    proof {
        assert(all.take(0) =~= Seq::empty());
        assert(segments_view(segments@) =~= segments_view(old(segments)@) + Seq::<
            SegmentModel,
        >::empty());
        assert(pending_view(rest@) =~= Seq::empty());
    }
    while i < pending.len()
        invariant
            i <= pending@.len(),
            all == pending_view(pending@),
            r == selector_view(*rule),
            lv == labels_view(labels@),
            segments_view(segments@) == segments_view(old(segments)@) + flushed(
                all.take(i as int),
                r,
                buffer,
                lv,
            ),
            pending_view(rest@) == kept(all.take(i as int), r, buffer),
        decreases pending@.len() - i,
    {
        let p = &pending[i];
        let ghost segs_before = segments_view(segments@);
        let ghost rest_before = pending_view(rest@);
        proof {
            assert(all.take(i + 1).drop_last() =~= all.take(i as int));
            assert(all.take(i + 1).last() == pending_model(*p));
        }
        if selects(p, rule, buffer) {
            let seg = SessionSegment {
                start_ms: p.start_ms,
                end_ms: p.stop_ms,
                user_id: p.user_id.clone(),
                speaker_name: lookup_label(labels, &p.user_id),
            };
            segments.push(seg);
            proof {
                assert(segments_view(segments@) =~= segs_before.push(
                    finalized(pending_model(*p), lv),
                ));
                assert(segments_view(segments@) =~= segments_view(old(segments)@) + flushed(
                    all.take(i + 1),
                    r,
                    buffer,
                    lv,
                ));
            }
        } else {
            rest.push(
                PendingSegment {
                    user_id: p.user_id.clone(),
                    start_ms: p.start_ms,
                    stop_ms: p.stop_ms,
                },
            );
            proof {
                assert(pending_view(rest@) =~= rest_before.push(pending_model(*p)));
            }
        }
        i = i + 1;
    }
    proof {
        assert(all.take(pending@.len() as int) =~= all);
    }
    rest
}

fn find_open(open: &Vec<OpenSegment>, user_id: &String) -> (k: usize)
    ensures
        k == open_index(open_view(open@), user_id@, 0),
        k <= open@.len(),
{
    let mut i: usize = 0;
    while i < open.len()
        invariant
            i <= open@.len(),
            open_index(open_view(open@), user_id@, 0) == open_index(
                open_view(open@),
                user_id@,
                i as int,
            ),
        decreases open@.len() - i,
    {
        if open[i].user_id.eq(user_id) {
            return i;
        }
        i = i + 1;
    }
    i
}

fn find_pending(pending: &Vec<PendingSegment>, user_id: &String) -> (k: usize)
    ensures
        k == pending_index(pending_view(pending@), user_id@, 0),
        k <= pending@.len(),
{
    let mut i: usize = 0;
    while i < pending.len()
        invariant
            i <= pending@.len(),
            pending_index(pending_view(pending@), user_id@, 0) == pending_index(
                pending_view(pending@),
                user_id@,
                i as int,
            ),
        decreases pending@.len() - i,
    {
        if pending[i].user_id.eq(user_id) {
            return i;
        }
        i = i + 1;
    }
    i
}

impl ActiveSession {
    spec fn view(&self) -> SessionModel {
        SessionModel {
            segments: segments_view(self.segments@),
            open: open_view(self.open_segments@),
            pending: pending_view(self.pending_cooldown@),
            merge_buffer_ms: self.segment_merge_buffer_ms,
            labels: labels_view(self.user_labels@),
        }
    }

    spec fn meta(&self) -> SessionMeta {
        SessionMeta {
            guild_name: opt_text(self.guild_name),
            guild_id: opt_text(self.guild_id),
            channel_name: opt_text(self.channel_name),
            channel_id: opt_text(self.channel_id),
            channel_type: self.channel_type,
            self_user_id: opt_text(self.self_user_id),
            live_mode_enabled: self.live_mode_enabled,
            template: self.project_name_template@,
            start_time_ms: self.start_time_ms,
        }
    }

    fn flush_where(&mut self, rule: &FlushSelector)
        ensures
            final(self)@ == flush(old(self)@, selector_view(*rule)),
            final(self).meta() == old(self).meta(),
    {
        let rest = flush_into(
            &mut self.segments,
            &self.pending_cooldown,
            &self.user_labels,
            rule,
            self.segment_merge_buffer_ms,
        );
        self.pending_cooldown = rest;
    }

    fn push_open(&mut self, user_id: String, start_ms: u64)
        ensures
            final(self)@ == (SessionModel {
                open: old(self)@.open.push(OpenModel { user_id: user_id@, start_ms }),
                ..old(self)@
            }),
            final(self).meta() == old(self).meta(),
    {
        let ghost before = open_view(self.open_segments@);
        self.open_segments.push(OpenSegment { user_id, start_ms });
        proof {
            assert(open_view(self.open_segments@) =~= before.push(
                OpenModel { user_id: user_id@, start_ms },
            ));
        }
    }

    fn start_speaking(&mut self, user_id: String, now: u64)
        ensures
            final(self)@ == on_start(old(self)@, user_id@, now),
            final(self).meta() == old(self).meta(),
    {
        if find_open(&self.open_segments, &user_id) < self.open_segments.len() {
            return;
        }
        self.flush_where(&FlushSelector::Others(&user_id));
        let ghost f = self@;
        if self.pending_cooldown.len() > 0 {
            let ghost pv = pending_view(self.pending_cooldown@);
            let p = self.pending_cooldown.remove(0);
            proof {
                assert(pending_view(self.pending_cooldown@) =~= pv.drop_first());
                assert(pv[0] == pending_model(p));
            }
            if elapsed_ms_since(p.stop_ms, now) <= self.segment_merge_buffer_ms {
                self.push_open(user_id, p.start_ms);
            } else {
                let ghost sv = segments_view(self.segments@);
                let speaker_name = lookup_label(&self.user_labels, &p.user_id);
                self.segments.push(
                    SessionSegment {
                        start_ms: p.start_ms,
                        end_ms: p.stop_ms,
                        user_id: p.user_id,
                        speaker_name,
                    },
                );
                proof {
                    assert(segments_view(self.segments@) =~= sv.push(
                        finalized(pending_model(p), f.labels),
                    ));
                }
                self.push_open(user_id, now);
            }
        } else {
            self.push_open(user_id, now);
        }
    }

    fn stop_speaking(&mut self, user_id: String, now: u64)
        ensures
            final(self)@ == on_stop(old(self)@, user_id@, now),
            final(self).meta() == old(self).meta(),
    {
        let k: usize = find_open(&self.open_segments, &user_id);
        if k < self.open_segments.len() {
            let ghost ov = open_view(self.open_segments@);
            let ghost pv = pending_view(self.pending_cooldown@);
            let o = self.open_segments.remove(k);
            self.pending_cooldown.push(
                PendingSegment { user_id, start_ms: o.start_ms, stop_ms: now },
            );
            proof {
                assert(open_view(self.open_segments@) =~= ov.remove(k as int));
                assert(pending_view(self.pending_cooldown@) =~= pv.push(
                    PendingModel { user_id: user_id@, start_ms: ov[k as int].start_ms, stop_ms: now },
                ));
            }
        } else {
            let j: usize = find_pending(&self.pending_cooldown, &user_id);
            if j < self.pending_cooldown.len() {
                let ghost pv = pending_view(self.pending_cooldown@);
                let p = &self.pending_cooldown[j];
                let moved = PendingSegment {
                    user_id: p.user_id.clone(),
                    start_ms: p.start_ms,
                    stop_ms: now,
                };
                self.pending_cooldown.set(j, moved);
                proof {
                    assert(pending_view(self.pending_cooldown@) =~= pv.update(
                        j as int,
                        PendingModel { stop_ms: now, ..pv[j as int] },
                    ));
                }
            }
        }
    }

    fn finish(&mut self, now: u64)
        ensures
            final(self)@ == on_finish(old(self)@, now),
            final(self).meta() == old(self).meta(),
    {
        let ghost m = self@;
        self.flush_where(&FlushSelector::Every);
        let ghost base = segments_view(self.segments@);
        let ghost ov = open_view(self.open_segments@);
        let mut i: usize = 0;
        while i < self.open_segments.len()
            invariant
                i <= self.open_segments@.len(),
                ov == open_view(self.open_segments@),
                self.meta() == old(self).meta(),
                self.segment_merge_buffer_ms == m.merge_buffer_ms,
                labels_view(self.user_labels@) == m.labels,
                segments_view(self.segments@) == base + closed(ov, now, m.labels).take(i as int),
            decreases self.open_segments@.len() - i,
        {
            let ghost sv = segments_view(self.segments@);
            let speaker_name = lookup_label(&self.user_labels, &self.open_segments[i].user_id);
            let seg = SessionSegment {
                start_ms: self.open_segments[i].start_ms,
                end_ms: now,
                user_id: self.open_segments[i].user_id.clone(),
                speaker_name,
            };
            self.segments.push(seg);
            proof {
                assert(segments_view(self.segments@) =~= sv.push(
                    closed_at(ov[i as int], now, m.labels),
                ));
                assert(closed(ov, now, m.labels).take(i + 1) =~= closed(ov, now, m.labels).take(
                    i as int,
                ).push(closed_at(ov[i as int], now, m.labels)));
            }
            i = i + 1;
        }
        proof {
            assert(closed(ov, now, m.labels).take(ov.len() as int) =~= closed(ov, now, m.labels));
        }
        self.open_segments = Vec::new();
        self.pending_cooldown = Vec::new();
        proof {
            assert(open_view(self.open_segments@) =~= Seq::empty());
            assert(pending_view(self.pending_cooldown@) =~= Seq::empty());
        }
    }
}

/// The segments that `after` holds beyond those of `before`.
pub open spec fn appended(before: Seq<SegmentModel>, after: Seq<SegmentModel>) -> Seq<
    SegmentModel,
> {
    after.skip(before.len() as int)
}

/// What is published after a step: the newly finalized segments while
/// live publishing is on and a session is active, nothing otherwise.
pub open spec fn published_by(
    publishing: bool,
    before: Seq<SegmentModel>,
    after: Seq<SegmentModel>,
) -> Seq<SegmentModel> {
    if publishing {
        appended(before, after)
    } else {
        Seq::empty()
    }
}

fn copy_tail(segments: &Vec<SessionSegment>, from: usize) -> (out: Vec<SessionSegment>)
    requires
        from <= segments@.len(),
    ensures
        segments_view(out@) == segments_view(segments@).skip(from as int),
{
    let mut out: Vec<SessionSegment> = Vec::new();
    let mut i: usize = from;
    while i < segments.len()
        invariant
            from <= i <= segments@.len(),
            out@.len() == i - from,
            forall|k: int| 0 <= k < out@.len() ==> out@[k]@ == segments@[from + k]@,
        decreases segments@.len() - i,
    {
        out.push(segments[i].copy());
        i = i + 1;
    }
    proof {
        assert(segments_view(out@) =~= segments_view(segments@).skip(from as int));
    }
    out
}

fn opt_str(o: &Option<String>) -> (s: Option<&str>)
    ensures
        match s {
            Some(n) => Some(n@),
            None => None,
        } == opt_text(*o),
{
    match o {
        Some(text) => Some(text.as_str()),
        None => None,
    }
}

impl Recorder {
    /// Whether a session is active.
    pub closed spec fn active(&self) -> bool {
        self.session is Some
    }

    /// The segmenter state of the active session; that of a session
    /// without events when none is active.
    pub closed spec fn model(&self) -> SessionModel {
        match self.session {
            Some(s) => s@,
            None => fresh(1, Seq::empty()),
        }
    }

    /// Where and when the active session was started.
    pub closed spec fn meta(&self) -> SessionMeta {
        match self.session {
            Some(s) => s.meta(),
            None => SessionMeta {
                guild_name: None,
                guild_id: None,
                channel_name: None,
                channel_id: None,
                channel_type: None,
                self_user_id: None,
                live_mode_enabled: false,
                template: Seq::empty(),
                start_time_ms: 0,
            },
        }
    }

    /// Whether finalized segments are also published.
    pub closed spec fn live(&self) -> bool {
        self.live_publish
    }

    /// The recorder's invariant: the segmenter's tables are well formed.
    pub open spec fn wf(&self) -> bool {
        crate::session::model::well_formed(self.model())
    }

    /// A recorder without a session that publishes nothing.
    pub fn new() -> (recorder: Recorder)
        ensures
            !recorder.active(),
            !recorder.live(),
            recorder.wf(),
    {
        Recorder { session: None, live_publish: false }
    }

    /// Whether a session is active.
    pub fn is_active(&self) -> (b: bool)
        ensures
            b == self.active(),
    {
        self.session.is_some()
    }

    /// Whether finalized segments are also published.
    pub fn is_live(&self) -> (b: bool)
        ensures
            b == self.live(),
    {
        self.live_publish
    }

    /// A copy of the segments finalized so far.
    pub fn segments(&self) -> (out: Vec<SessionSegment>)
        ensures
            segments_view(out@) == self.model().segments,
    {
        match &self.session {
            Some(s) => {
                let out = copy_tail(&s.segments, 0);
                proof {
                    assert(segments_view(s.segments@).skip(0) =~= segments_view(s.segments@));
                }
                out
            },
            None => {
                let out: Vec<SessionSegment> = Vec::new();
                proof {
                    assert(segments_view(out@) =~= Seq::empty());
                }
                out
            },
        }
    }

    /// Number of users who are speaking now.
    pub fn open_count(&self) -> (n: usize)
        ensures
            n == self.model().open.len(),
    {
        match &self.session {
            Some(s) => s.open_segments.len(),
            None => 0,
        }
    }

    /// Number of utterances held back for merging.
    pub fn pending_count(&self) -> (n: usize)
        ensures
            n == self.model().pending.len(),
    {
        match &self.session {
            Some(s) => s.pending_cooldown.len(),
            None => 0,
        }
    }

    /// The start time of the utterance that `user_id` has open, if any.
    pub fn open_start(&self, user_id: &String) -> (start: Option<u64>)
        ensures
            start == (if open_index(self.model().open, user_id@, 0) < self.model().open.len() {
                Some(self.model().open[open_index(self.model().open, user_id@, 0)].start_ms)
            } else {
                None
            }),
    {
        match &self.session {
            Some(s) => {
                let k: usize = find_open(&s.open_segments, user_id);
                if k < s.open_segments.len() {
                    Some(s.open_segments[k].start_ms)
                } else {
                    None
                }
            },
            None => None,
        }
    }
}

/// Turns on the publishing of finalized segments for live transcription.
pub fn set_live_segment_tx(recorder: &mut Recorder)
    ensures
        final(recorder).live(),
        final(recorder).active() == old(recorder).active(),
        final(recorder).model() == old(recorder).model(),
        final(recorder).meta() == old(recorder).meta(),
{
    recorder.live_publish = true;
}

/// Turns off the publishing of finalized segments.
pub fn clear_live_segment_tx(recorder: &mut Recorder)
    ensures
        !final(recorder).live(),
        final(recorder).active() == old(recorder).active(),
        final(recorder).model() == old(recorder).model(),
        final(recorder).meta() == old(recorder).meta(),
{
    recorder.live_publish = false;
}

/// Starts a new session at clock reading `now_ms`, replacing any earlier
/// one. A merge buffer of zero counts as 1 ms; an empty name template
/// counts as `{guild}_{channel}_{timestamp}`.
pub fn start_session(
    recorder: &mut Recorder,
    guild_name: Option<String>,
    guild_id: Option<String>,
    channel_name: Option<String>,
    channel_id: Option<String>,
    channel_type: Option<u8>,
    self_user_id: Option<String>,
    user_labels: Vec<UserLabel>,
    segment_merge_buffer_ms: u64,
    project_name_template: String,
    live_mode_enabled: bool,
    now_ms: u64,
)
    ensures
        final(recorder).active(),
        final(recorder).wf(),
        final(recorder).live() == old(recorder).live(),
        final(recorder).model() == fresh(segment_merge_buffer_ms, labels_view(user_labels@)),
        final(recorder).meta() == (SessionMeta {
            guild_name: opt_text(guild_name),
            guild_id: opt_text(guild_id),
            channel_name: opt_text(channel_name),
            channel_id: opt_text(channel_id),
            channel_type,
            self_user_id: opt_text(self_user_id),
            live_mode_enabled,
            template: if project_name_template@.len() == 0 {
                default_template()
            } else {
                project_name_template@
            },
            start_time_ms: now_ms,
        }),
{
    let template: String = if project_name_template.as_str().is_empty() {
        "{guild}_{channel}_{timestamp}".to_owned()
    } else {
        project_name_template
    };
    let session = ActiveSession {
        start_time_ms: now_ms,
        segments: Vec::new(),
        user_labels,
        self_user_id,
        guild_name,
        guild_id,
        channel_name,
        channel_id,
        channel_type,
        live_mode_enabled,
        open_segments: Vec::new(),
        pending_cooldown: Vec::new(),
        segment_merge_buffer_ms: if segment_merge_buffer_ms < 1 {
            1
        } else {
            segment_merge_buffer_ms
        },
        project_name_template: template,
    };
    proof {
        assert(session@.segments =~= Seq::empty());
        assert(session@.open =~= Seq::empty());
        assert(session@.pending =~= Seq::empty());
    }
    recorder.session = Some(session);
}

/// Finalizes every pending utterance that stopped at least a merge buffer
/// before `now_ms`, and returns what is to be published. Without an active
/// session nothing changes.
pub fn flush_pending_if_elapsed(recorder: &mut Recorder, now_ms: u64) -> (published: Vec<
    SessionSegment,
>)
    requires
        old(recorder).wf(),
    ensures
        final(recorder).wf(),
        final(recorder).live() == old(recorder).live(),
        final(recorder).active() == old(recorder).active(),
        final(recorder).meta() == old(recorder).meta(),
        final(recorder).model() == (if old(recorder).active() {
            on_tick(old(recorder).model(), gap(now_ms, old(recorder).meta().start_time_ms) as u64)
        } else {
            old(recorder).model()
        }),
        segments_view(published@) == published_by(
            old(recorder).live() && old(recorder).active(),
            old(recorder).model().segments,
            final(recorder).model().segments,
        ),
{
    let mut published: Vec<SessionSegment> = Vec::new();
    proof {
        assert(segments_view(published@) =~= Seq::empty());
    }
    match recorder.session.take() {
        None => {},
        Some(mut session) => {
            let before: usize = session.segments.len();
            let elapsed: u64 = elapsed_ms_since(session.start_time_ms, now_ms);
            proof {
                lemma_flush_well_formed(session@, FlushRule::Elapsed(elapsed));
            }
            let ghost m0 = session@;
            session.flush_where(&FlushSelector::Elapsed(elapsed));
            proof {
                assert(m0.segments.len() == before);
                assert(session@.segments.len() == session.segments@.len());
                assert(flush(m0, FlushRule::Elapsed(elapsed)).segments.len() >= before);
            }
            if recorder.live_publish {
                published = copy_tail(&session.segments, before);
            }
            recorder.session = Some(session);
        },
    }
    published
}

/// Records that `user_id` started (`is_start`) or stopped speaking at clock
/// reading `now_ms`, and returns what is to be published. Without an
/// active session nothing changes.
pub fn record_speaking_event(
    recorder: &mut Recorder,
    is_start: bool,
    user_id: String,
    now_ms: u64,
) -> (published: Vec<SessionSegment>)
    requires
        old(recorder).wf(),
    ensures
        final(recorder).wf(),
        final(recorder).live() == old(recorder).live(),
        final(recorder).active() == old(recorder).active(),
        final(recorder).meta() == old(recorder).meta(),
        final(recorder).model() == (if !old(recorder).active() {
            old(recorder).model()
        } else if is_start {
            on_start(
                old(recorder).model(),
                user_id@,
                gap(now_ms, old(recorder).meta().start_time_ms) as u64,
            )
        } else {
            on_stop(
                old(recorder).model(),
                user_id@,
                gap(now_ms, old(recorder).meta().start_time_ms) as u64,
            )
        }),
        segments_view(published@) == published_by(
            old(recorder).live() && old(recorder).active(),
            old(recorder).model().segments,
            final(recorder).model().segments,
        ),
{
    let mut published: Vec<SessionSegment> = Vec::new();
    proof {
        assert(segments_view(published@) =~= Seq::empty());
    }
    match recorder.session.take() {
        None => {},
        Some(mut session) => {
            let before: usize = session.segments.len();
            let elapsed: u64 = elapsed_ms_since(session.start_time_ms, now_ms);
            proof {
                lemma_start_well_formed(session@, user_id@, elapsed);
                lemma_stop_well_formed(session@, user_id@, elapsed);
            }
            let ghost m0 = session@;
            if is_start {
                session.start_speaking(user_id, elapsed);
            } else {
                session.stop_speaking(user_id, elapsed);
            }
            proof {
                assert(m0.segments.len() == before);
                assert(session@.segments.len() == session.segments@.len());
                assert(flush(m0, FlushRule::Others(user_id@)).segments.len() >= before);
                assert(session@.segments.len() >= before);
            }
            if recorder.live_publish {
                published = copy_tail(&session.segments, before);
            }
            recorder.session = Some(session);
        },
    }
    published
}

/// Stops the active session at clock reading `now_ms` and returns its
/// state for persistence: every pending utterance is finalized, every open
/// one is closed at `now_ms`, and the segments stand in the order in which
/// they were appended. The recorder is left without a session, so no
/// utterance stays open or pending. Without an active session the result
/// is `None`.
pub fn stop_session(
    recorder: &mut Recorder,
    audio_paths: SessionAudioPaths,
    now_ms: u64,
    stamp: &SessionStamp,
) -> (state: Option<SessionState>)
    requires
        old(recorder).wf(),
    ensures
        !final(recorder).active(),
        final(recorder).wf(),
        final(recorder).live() == old(recorder).live(),
        final(recorder).model().open.len() == 0,
        final(recorder).model().pending.len() == 0,
        state is Some <==> old(recorder).active(),
        match state {
            Some(s) => {
                let meta = old(recorder).meta();
                let m = old(recorder).model();
                &&& segments_view(s.segments@) == on_finish(
                    m,
                    gap(now_ms, meta.start_time_ms) as u64,
                ).segments
                &&& s.transcript_texts@.len() == 0
                &&& s.session_id@ == session_id_text(
                    meta.template,
                    meta.guild_name,
                    meta.channel_name,
                    stamp.timestamp@,
                    stamp.date@,
                    stamp.time@,
                )
                &&& s.created_at == meta.start_time_ms / 1000
                &&& opt_text(s.guild_name) == meta.guild_name
                &&& opt_text(s.guild_id) == meta.guild_id
                &&& opt_text(s.channel_name) == meta.channel_name
                &&& opt_text(s.channel_id) == meta.channel_id
                &&& s.channel_type == meta.channel_type
                &&& s.live_mode_enabled == meta.live_mode_enabled
                &&& opt_text(s.self_user_id) == meta.self_user_id
                &&& labels_view(s.user_labels@) == m.labels
                &&& opt_text(s.audio_paths.loopback) == opt_text(audio_paths.loopback)
                &&& opt_text(s.audio_paths.microphone) == opt_text(audio_paths.microphone)
            },
            None => true,
        },
{
    match recorder.session.take() {
        None => None,
        Some(mut session) => {
            let elapsed: u64 = elapsed_ms_since(session.start_time_ms, now_ms);
            session.finish(elapsed);
            let session_id = format_session_id(
                session.project_name_template.as_str(),
                opt_str(&session.guild_name),
                opt_str(&session.channel_name),
                stamp,
            );
            Some(
                SessionState {
                    session_id,
                    created_at: session.start_time_ms / 1000,
                    guild_name: session.guild_name,
                    guild_id: session.guild_id,
                    channel_name: session.channel_name,
                    channel_id: session.channel_id,
                    channel_type: session.channel_type,
                    live_mode_enabled: session.live_mode_enabled,
                    self_user_id: session.self_user_id,
                    user_labels: session.user_labels,
                    segments: session.segments,
                    transcript_texts: Vec::new(),
                    audio_paths,
                },
            )
        },
    }
}

} // verus!

