//! Voice-session recording core: a bounded sample ring, a speaker
//! segmenter, the voice-client RPC protocol rules, and the bookkeeping that
//! keeps transcript texts aligned with segments.

pub mod audio;
pub mod text;
pub mod labels;
pub mod session;
pub mod discord_rpc;
pub mod transcription;
pub mod export;
pub mod project;
