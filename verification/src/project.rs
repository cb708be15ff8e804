//! The project file: a session as it is persisted.

use crate::labels::UserLabel;
use crate::session::naming::{sanitize_chars, sanitized};
use crate::session::recorder::{SessionAudioPaths, SessionSegment, SessionState};
use crate::text::{append_chars, append_str, chars_of, decimal, decimal_text, text_of};
use vstd::prelude::*;

verus! {

/// Project file format: the fields of a session state.
#[derive(Debug)]
pub struct ProjectFile {
    pub session_id: String,
    pub created_at: u64,
    pub guild_name: Option<String>,
    pub guild_id: Option<String>,
    pub channel_name: Option<String>,
    pub channel_id: Option<String>,
    /// Voice-channel kind as the voice client numbers it.
    pub channel_type: Option<u8>,
    pub live_mode_enabled: bool,
    pub self_user_id: Option<String>,
    pub user_labels: Vec<UserLabel>,
    pub segments: Vec<SessionSegment>,
    pub transcript_texts: Vec<String>,
    pub audio_paths: SessionAudioPaths,
}

/// Metadata for display in a project list.
#[derive(Debug)]
pub struct ProjectMeta {
    pub name: String,
    pub path: String,
    pub guild_name: Option<String>,
    pub channel_name: Option<String>,
    pub created_at: u64,
}

impl ProjectFile {
    /// The project file of a session state: every field is carried over.
    pub fn from_state(s: SessionState) -> (p: ProjectFile)
        ensures
            p.session_id == s.session_id,
            p.created_at == s.created_at,
            p.guild_name == s.guild_name,
            p.guild_id == s.guild_id,
            p.channel_name == s.channel_name,
            p.channel_id == s.channel_id,
            p.channel_type == s.channel_type,
            p.live_mode_enabled == s.live_mode_enabled,
            p.self_user_id == s.self_user_id,
            p.user_labels == s.user_labels,
            p.segments == s.segments,
            p.transcript_texts == s.transcript_texts,
            p.audio_paths == s.audio_paths,
    {
        ProjectFile {
            session_id: s.session_id,
            created_at: s.created_at,
            guild_name: s.guild_name,
            guild_id: s.guild_id,
            channel_name: s.channel_name,
            channel_id: s.channel_id,
            channel_type: s.channel_type,
            live_mode_enabled: s.live_mode_enabled,
            self_user_id: s.self_user_id,
            user_labels: s.user_labels,
            segments: s.segments,
            transcript_texts: s.transcript_texts,
            audio_paths: s.audio_paths,
        }
    }

    /// The session state of a project file: every field is carried over.
    pub fn into_state(self) -> (s: SessionState)
        ensures
            s.session_id == self.session_id,
            s.created_at == self.created_at,
            s.guild_name == self.guild_name,
            s.guild_id == self.guild_id,
            s.channel_name == self.channel_name,
            s.channel_id == self.channel_id,
            s.channel_type == self.channel_type,
            s.live_mode_enabled == self.live_mode_enabled,
            s.self_user_id == self.self_user_id,
            s.user_labels == self.user_labels,
            s.segments == self.segments,
            s.transcript_texts == self.transcript_texts,
            s.audio_paths == self.audio_paths,
    {
        SessionState {
            session_id: self.session_id,
            created_at: self.created_at,
            guild_name: self.guild_name,
            guild_id: self.guild_id,
            channel_name: self.channel_name,
            channel_id: self.channel_id,
            channel_type: self.channel_type,
            live_mode_enabled: self.live_mode_enabled,
            self_user_id: self.self_user_id,
            user_labels: self.user_labels,
            segments: self.segments,
            transcript_texts: self.transcript_texts,
            audio_paths: self.audio_paths,
        }
    }
}

/// The file name of an automatic save: the session id made safe for a
/// file name, an underscore, the creation time, and `.json`.
pub open spec fn auto_save_text(session_id: Seq<char>, created_at: u64) -> Seq<char> {
    sanitized(session_id) + seq!['_'] + decimal_text(created_at as nat) + ".json"@
}

/// The file name under which a session is saved automatically.
pub fn auto_save_name(state: &SessionState) -> (name: String)
    ensures
        name@ == auto_save_text(state.session_id@, state.created_at),
{
    let mut out = sanitize_chars(&chars_of(state.session_id.as_str()));
    out.push('_');
    append_chars(&mut out, &decimal(state.created_at));
    append_str(&mut out, ".json");
    proof {
        assert(out@ =~= auto_save_text(state.session_id@, state.created_at));
    }
    text_of(&out)
}

/// Whether an automatic save is older than the retention allows: it has a
/// creation time, and that time is before the cutoff.
pub fn is_expired(created_at: Option<u64>, cutoff_secs: u64) -> (expired: bool)
    ensures
        expired == match created_at {
            Some(t) => t < cutoff_secs,
            None => false,
        },
{
    match created_at {
        Some(t) => t < cutoff_secs,
        None => false,
    }
}

/// Whether a file extension is that of a project file.
pub fn is_project_extension(extension: &String) -> (b: bool)
    ensures
        b == (extension@ == "json"@ || extension@ == "dscribe"@),
{
    extension.eq(&"json".to_owned()) || extension.eq(&"dscribe".to_owned())
}

} // verus!
