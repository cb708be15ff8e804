//! The recorder driven by the machine's own clock. Each function reads
//! the clock once and then does what its counterpart does for that reading.

use crate::session::model::{gap, on_finish, on_start, on_stop, on_tick, SessionModel};
use crate::session::naming::{
    format_project_name, project_name_text, session_id_text, SessionStamp,
};
use crate::session::recorder::{
    flush_pending_if_elapsed, published_by, record_speaking_event, segments_view, stop_session,
    Recorder, SessionAudioPaths, SessionSegment, SessionState,
};
use crate::text::texts_view;
use crate::discord_rpc::events::ChannelInfo;
use crate::labels::{labels_view, opt_text};
use crate::session::model::fresh;
use crate::session::naming::default_template;
use crate::session::orchestrator::{
    not_connected_text, start_recording, stop_recording, RecordingOptions,
};
use crate::session::recorder::SessionMeta;
use crate::transcription::dispatch::padded_texts;
use vstd::prelude::*;

verus! {

/// `SystemTime::now` reads the system clock, and `duration_since` with
/// `UNIX_EPOCH` gives the time since the epoch, or an error when the clock
/// reads earlier, which counts as zero here. The result is that time in
/// whole milliseconds. Nothing is claimed of the reading.
#[verifier::external_body]
fn system_clock_ms() -> (ms: u64) {
    let since_epoch = std::time::SystemTime::now().duration_since(std::time::UNIX_EPOCH);
    since_epoch.unwrap_or_default().as_millis() as u64
}

/// `chrono::Utc::now` reads the system clock as a UTC date and time;
/// `timestamp` gives its seconds since the epoch, and `format` writes it
/// by a pattern, here year-month-day and hour-minute-second. Nothing is
/// claimed of the three texts. The call fails only where the clock reads
/// earlier than the epoch.
#[verifier::external_body]
fn utc_stamp() -> (stamp: SessionStamp) {
    let now = chrono::Utc::now();
    SessionStamp {
        timestamp: now.timestamp().to_string(),
        date: now.format("%Y-%m-%d").to_string(),
        time: now.format("%H-%M-%S").to_string(),
    }
}

/// The session model after an event at clock reading `now_ms`.
pub open spec fn recorded(
    m: SessionModel,
    start_time_ms: u64,
    is_start: bool,
    user: Seq<char>,
    now_ms: u64,
) -> SessionModel {
    if is_start {
        on_start(m, user, gap(now_ms, start_time_ms) as u64)
    } else {
        on_stop(m, user, gap(now_ms, start_time_ms) as u64)
    }
}

/// The session model after a periodic flush at clock reading `now_ms`.
pub open spec fn ticked(m: SessionModel, start_time_ms: u64, now_ms: u64) -> SessionModel {
    on_tick(m, gap(now_ms, start_time_ms) as u64)
}

/// The segments of a session that is stopped at clock reading `now_ms`.
pub open spec fn finished_segments(m: SessionModel, start_time_ms: u64, now_ms: u64) -> Seq<
    crate::session::model::SegmentModel,
> {
    on_finish(m, gap(now_ms, start_time_ms) as u64).segments
}

/// The text of an optional name.
pub open spec fn name_text(name: Option<&str>) -> Option<Seq<char>> {
    match name {
        Some(n) => Some(n@),
        None => None,
    }
}

/// Starts a recording at the present clock reading: what
/// `start_recording` does, with the session's start time read off the
/// clock.
pub fn start_recording_now(
    recorder: &mut Recorder,
    channel_info: Option<ChannelInfo>,
    options: RecordingOptions,
) -> (started: Result<(), String>)
    ensures
        started is Ok <==> channel_info is Some,
        match channel_info {
            None => {
                &&& started->Err_0@ == not_connected_text()
                &&& final(recorder).active() == old(recorder).active()
                &&& final(recorder).model() == old(recorder).model()
                &&& final(recorder).meta() == old(recorder).meta()
                &&& final(recorder).live() == old(recorder).live()
            },
            Some(info) => {
                &&& final(recorder).active()
                &&& final(recorder).wf()
                &&& final(recorder).live() == (options.live || old(recorder).live())
                &&& final(recorder).model() == fresh(
                    options.merge_buffer_ms,
                    labels_view(info.user_labels@),
                )
                &&& final(recorder).meta() == (SessionMeta {
                    guild_name: opt_text(info.guild_name),
                    guild_id: opt_text(info.guild_id),
                    channel_name: opt_text(info.channel_name),
                    channel_id: Some(info.channel_id@),
                    channel_type: info.channel_type,
                    self_user_id: opt_text(info.self_user_id),
                    live_mode_enabled: options.live,
                    template: if options.template@.len() == 0 {
                        default_template()
                    } else {
                        options.template@
                    },
                    start_time_ms: final(recorder).meta().start_time_ms,
                })
            },
        },
{
    let now_ms: u64 = system_clock_ms();
    start_recording(recorder, channel_info, options, now_ms)
}

/// Stops a recording at the present clock reading: what `stop_recording`
/// does, with the time and the name's moment read off the clock.
pub fn stop_recording_now(
    recorder: &mut Recorder,
    audio_paths: Option<SessionAudioPaths>,
    live_texts: Vec<String>,
) -> (state: Option<SessionState>)
    requires
        old(recorder).wf(),
    ensures
        final(recorder).wf(),
        !final(recorder).live(),
        state is Some <==> (audio_paths is Some && old(recorder).active()),
        audio_paths is Some ==> !final(recorder).active(),
        audio_paths is None ==> final(recorder).active() == old(recorder).active()
            && final(recorder).model() == old(recorder).model(),
        match state {
            Some(s) => {
                let meta = old(recorder).meta();
                &&& exists|now_ms: u64|
                    segments_view(s.segments@) == #[trigger] finished_segments(
                        old(recorder).model(),
                        meta.start_time_ms,
                        now_ms,
                    )
                &&& texts_view(s.transcript_texts@) == (if old(recorder).live() {
                    padded_texts(texts_view(live_texts@), s.segments@.len())
                } else {
                    Seq::empty()
                })
                &&& old(recorder).live() ==> s.transcript_texts@.len() >= s.segments@.len()
                &&& s.created_at == meta.start_time_ms / 1000
            },
            None => true,
        },
{
    let now_ms: u64 = system_clock_ms();
    let stamp = utc_stamp();
    let state = stop_recording(recorder, audio_paths, live_texts, now_ms, &stamp);
    proof {
        match &state {
            Some(s) => {
                assert(segments_view(s.segments@) == finished_segments(
                    old(recorder).model(),
                    old(recorder).meta().start_time_ms,
                    now_ms,
                ));
            },
            None => {},
        }
    }
    state
}

/// Records a speaking event at the present clock reading.
pub fn record_speaking_event_now(recorder: &mut Recorder, is_start: bool, user_id: String) -> (published:
    Vec<SessionSegment>)
    requires
        old(recorder).wf(),
    ensures
        final(recorder).wf(),
        final(recorder).live() == old(recorder).live(),
        final(recorder).active() == old(recorder).active(),
        final(recorder).meta() == old(recorder).meta(),
        !old(recorder).active() ==> final(recorder).model() == old(recorder).model(),
        old(recorder).active() ==> exists|now_ms: u64|
            final(recorder).model() == #[trigger] recorded(
                old(recorder).model(),
                old(recorder).meta().start_time_ms,
                is_start,
                user_id@,
                now_ms,
            ),
        segments_view(published@) == published_by(
            old(recorder).live() && old(recorder).active(),
            old(recorder).model().segments,
            final(recorder).model().segments,
        ),
{
    let now_ms: u64 = system_clock_ms();
    let published = record_speaking_event(recorder, is_start, user_id, now_ms);
    proof {
        if old(recorder).active() {
            assert(final(recorder).model() == recorded(
                old(recorder).model(),
                old(recorder).meta().start_time_ms,
                is_start,
                user_id@,
                now_ms,
            ));
        }
    }
    published
}

/// Finalizes, at the present clock reading, the pending utterances whose
/// merge buffer has run out.
pub fn flush_pending_now(recorder: &mut Recorder) -> (published: Vec<SessionSegment>)
    requires
        old(recorder).wf(),
    ensures
        final(recorder).wf(),
        final(recorder).live() == old(recorder).live(),
        final(recorder).active() == old(recorder).active(),
        final(recorder).meta() == old(recorder).meta(),
        !old(recorder).active() ==> final(recorder).model() == old(recorder).model(),
        old(recorder).active() ==> exists|now_ms: u64|
            final(recorder).model() == #[trigger] ticked(
                old(recorder).model(),
                old(recorder).meta().start_time_ms,
                now_ms,
            ),
        segments_view(published@) == published_by(
            old(recorder).live() && old(recorder).active(),
            old(recorder).model().segments,
            final(recorder).model().segments,
        ),
{
    let now_ms: u64 = system_clock_ms();
    let published = flush_pending_if_elapsed(recorder, now_ms);
    proof {
        if old(recorder).active() {
            assert(final(recorder).model() == ticked(
                old(recorder).model(),
                old(recorder).meta().start_time_ms,
                now_ms,
            ));
        }
    }
    published
}

/// Stops the active session at the present clock reading, and names it
/// for the present moment.
pub fn stop_session_now(recorder: &mut Recorder, audio_paths: SessionAudioPaths) -> (state: Option<
    SessionState,
>)
    requires
        old(recorder).wf(),
    ensures
        !final(recorder).active(),
        final(recorder).wf(),
        final(recorder).live() == old(recorder).live(),
        final(recorder).model().open.len() == 0,
        final(recorder).model().pending.len() == 0,
        state is Some <==> old(recorder).active(),
        match state {
            Some(s) => {
                let meta = old(recorder).meta();
                &&& exists|now_ms: u64|
                    segments_view(s.segments@) == #[trigger] finished_segments(
                        old(recorder).model(),
                        meta.start_time_ms,
                        now_ms,
                    )
                &&& exists|stamp: SessionStamp|
                    s.session_id@ == #[trigger] session_id_text(
                        meta.template,
                        meta.guild_name,
                        meta.channel_name,
                        stamp.timestamp@,
                        stamp.date@,
                        stamp.time@,
                    )
                &&& s.transcript_texts@.len() == 0
                &&& s.created_at == meta.start_time_ms / 1000
            },
            None => true,
        },
{
    let now_ms: u64 = system_clock_ms();
    let stamp = utc_stamp();
    let state = stop_session(recorder, audio_paths, now_ms, &stamp);
    proof {
        match &state {
            Some(s) => {
                let meta = old(recorder).meta();
                assert(segments_view(s.segments@) == finished_segments(
                    old(recorder).model(),
                    meta.start_time_ms,
                    now_ms,
                ));
                assert(s.session_id@ == session_id_text(
                    meta.template,
                    meta.guild_name,
                    meta.channel_name,
                    stamp.timestamp@,
                    stamp.date@,
                    stamp.time@,
                ));
            },
            None => {},
        }
    }
    state
}

/// The name that a template gives for the present moment.
pub fn format_project_name_now(template: &str, guild: Option<&str>, channel: Option<&str>) -> (name:
    String)
    ensures
        exists|stamp: SessionStamp|
            name@ == #[trigger] project_name_text(
                template@,
                name_text(guild),
                name_text(channel),
                stamp.timestamp@,
                stamp.date@,
                stamp.time@,
            ),
{
    let stamp = utc_stamp();
    let name = format_project_name(template, guild, channel, &stamp);
    proof {
        assert(name@ == project_name_text(
            template@,
            name_text(guild),
            name_text(channel),
            stamp.timestamp@,
            stamp.date@,
            stamp.time@,
        ));
    }
    name
}

} // verus!
