//! What every transcription backend offers.

use vstd::prelude::*;

verus! {

/// A single transcribed segment with speaker and timing.
#[derive(Debug)]
pub struct TranscriptSegment {
    pub start_ms: u64,
    pub end_ms: u64,
    pub speaker_id: String,
    pub speaker_name: Option<String>,
    pub text: String,
}

/// A transcription backend. Whether it is available and what it makes of
/// an audio file is for each backend to say.
pub trait TranscriptionBackend {
    fn id(&self) -> &'static str;

    fn name(&self) -> &'static str;

    fn is_available(&self) -> bool;

    fn transcribe(&self, audio_path: &str) -> Result<Vec<TranscriptSegment>, String>;
}

} // verus!
