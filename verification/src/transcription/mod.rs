//! Transcription of segments: slicing, backends, and result bookkeeping.

pub mod backend;
pub mod dispatch;
pub mod model_download;
pub mod remote_api;
pub mod wav_extract;
pub mod whisper_cli;

pub use backend::{TranscriptSegment, TranscriptionBackend};
pub use model_download::{list_installed_model_names, resolve_model_path};
pub use remote_api::RemoteTranscriptionConfig;
pub use wav_extract::extract_segment;
pub use whisper_cli::WhisperCliBackend;
