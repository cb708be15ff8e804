//! Starting and stopping a recording: the session is primed from the
//! current channel, and on stop the texts of a live run are attached.

use crate::text::texts_view;
use crate::discord_rpc::events::ChannelInfo;
use crate::labels::{labels_view, opt_text};
use crate::session::model::{fresh, gap, on_finish};
use crate::session::naming::{default_template, session_id_text, SessionStamp};
use crate::session::recorder::{
    clear_live_segment_tx, segments_view, set_live_segment_tx, start_session, stop_session,
    Recorder, SessionAudioPaths, SessionMeta, SessionState,
};
use crate::transcription::dispatch::{attach_live_texts, padded_texts};
use vstd::prelude::*;

verus! {

/// The period of the flush tick in live mode.
pub const FLUSH_TICK_MS: u64 = 500;

/// The merge buffer used when none is configured.
pub const DEFAULT_MERGE_BUFFER_MS: u64 = 1000;

/// How a recording is to be made.
#[derive(Debug)]
pub struct RecordingOptions {
    pub merge_buffer_ms: u64,
    pub template: String,
    pub live: bool,
}

/// The options of a recording, with what is left open filled in: a merge
/// buffer of 1000 ms, the template `{guild}_{channel}_{timestamp}`, and
/// no live transcription.
pub fn recording_options(
    segment_merge_buffer_ms: Option<u64>,
    project_name_template: Option<String>,
    live_realtime: Option<bool>,
) -> (options: RecordingOptions)
    ensures
        options.merge_buffer_ms == match segment_merge_buffer_ms {
            Some(ms) => ms,
            None => DEFAULT_MERGE_BUFFER_MS,
        },
        options.template@ == match project_name_template {
            Some(t) => t@,
            None => default_template(),
        },
        options.live == match live_realtime {
            Some(b) => b,
            None => false,
        },
{
    RecordingOptions {
        merge_buffer_ms: match segment_merge_buffer_ms {
            Some(ms) => ms,
            None => DEFAULT_MERGE_BUFFER_MS,
        },
        template: match project_name_template {
            Some(t) => t,
            None => "{guild}_{channel}_{timestamp}".to_owned(),
        },
        live: match live_realtime {
            Some(b) => b,
            None => false,
        },
    }
}

/// What is said when a recording is started without a channel.
pub open spec fn not_connected_text() -> Seq<char> {
    "Not connected to Discord. Connect in Settings first."@
}

/// Starts a recording at clock reading `now_ms`. Without channel info
/// nothing is started. Otherwise a session is begun for the channel, and
/// in live mode the publishing of finalized segments is turned on.
pub fn start_recording(
    recorder: &mut Recorder,
    channel_info: Option<ChannelInfo>,
    options: RecordingOptions,
    now_ms: u64,
) -> (started: Result<(), String>)
    ensures
        started is Ok <==> channel_info is Some,
        match channel_info {
            None => {
                &&& started->Err_0@ == not_connected_text()
                &&& final(recorder).active() == old(recorder).active()
                &&& final(recorder).model() == old(recorder).model()
                &&& final(recorder).meta() == old(recorder).meta()
                &&& final(recorder).live() == old(recorder).live()
            },
            Some(info) => {
                &&& final(recorder).active()
                &&& final(recorder).wf()
                &&& final(recorder).live() == (options.live || old(recorder).live())
                &&& final(recorder).model() == fresh(
                    options.merge_buffer_ms,
                    labels_view(info.user_labels@),
                )
                &&& final(recorder).meta() == (SessionMeta {
                    guild_name: opt_text(info.guild_name),
                    guild_id: opt_text(info.guild_id),
                    channel_name: opt_text(info.channel_name),
                    channel_id: Some(info.channel_id@),
                    channel_type: info.channel_type,
                    self_user_id: opt_text(info.self_user_id),
                    live_mode_enabled: options.live,
                    template: if options.template@.len() == 0 {
                        default_template()
                    } else {
                        options.template@
                    },
                    start_time_ms: now_ms,
                })
            },
        },
{
    match channel_info {
        None => Err("Not connected to Discord. Connect in Settings first.".to_owned()),
        Some(info) => {
            let live: bool = options.live;
            start_session(
                recorder,
                info.guild_name,
                info.guild_id,
                info.channel_name,
                Some(info.channel_id),
                info.channel_type,
                info.self_user_id,
                info.user_labels,
                options.merge_buffer_ms,
                options.template,
                live,
                now_ms,
            );
            if live {
                set_live_segment_tx(recorder);
            }
            Ok(())
        },
    }
}

/// Stops a recording at clock reading `now_ms`. Live publishing is turned
/// off. When the audio paths of the recording are known the session is
/// stopped and its state returned; after a live run the state holds the
/// live texts, padded with empty strings to one per segment.
pub fn stop_recording(
    recorder: &mut Recorder,
    audio_paths: Option<SessionAudioPaths>,
    live_texts: Vec<String>,
    now_ms: u64,
    stamp: &SessionStamp,
) -> (state: Option<SessionState>)
    requires
        old(recorder).wf(),
    ensures
        final(recorder).wf(),
        !final(recorder).live(),
        state is Some <==> (audio_paths is Some && old(recorder).active()),
        audio_paths is Some ==> !final(recorder).active(),
        audio_paths is None ==> final(recorder).active() == old(recorder).active()
            && final(recorder).model() == old(recorder).model(),
        match state {
            Some(s) => {
                let meta = old(recorder).meta();
                &&& segments_view(s.segments@) == on_finish(
                    old(recorder).model(),
                    gap(now_ms, meta.start_time_ms) as u64,
                ).segments
                &&& texts_view(s.transcript_texts@) == (if old(recorder).live() {
                    padded_texts(texts_view(live_texts@), s.segments@.len())
                } else {
                    Seq::empty()
                })
                &&& old(recorder).live() ==> s.transcript_texts@.len() >= s.segments@.len()
                &&& s.session_id@ == session_id_text(
                    meta.template,
                    meta.guild_name,
                    meta.channel_name,
                    stamp.timestamp@,
                    stamp.date@,
                    stamp.time@,
                )
                &&& s.created_at == meta.start_time_ms / 1000
            },
            None => true,
        },
{
    let was_live: bool = recorder.is_live();
    clear_live_segment_tx(recorder);
    match audio_paths {
        None => None,
        Some(paths) => {
            match stop_session(recorder, paths, now_ms, stamp) {
                None => None,
                Some(mut s) => {
                    if was_live {
                        attach_live_texts(&mut s, live_texts);
                    } else {
                        proof {
                            assert(texts_view(s.transcript_texts@) =~= Seq::empty());
                        }
                    }
                    Some(s)
                },
            }
        },
    }
}

} // verus!
