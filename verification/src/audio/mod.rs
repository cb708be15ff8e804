//! Audio capture control and sample storage for live slicing.

pub mod buffer;
pub mod capture;

pub use buffer::AudioBuffer;
pub use capture::{start_audio_capture, stop_audio_capture, AudioCaptureHandle};
