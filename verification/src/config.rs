//! The integer tunables of the voice pipeline.
//!
//! The level thresholds of the pipeline (wake-word threshold, sensitivity,
//! silence level) are fractional quantities; they stay with the caller, which
//! compares levels and hands this library the outcome.

use vstd::prelude::*;

verus! {

/// Rate of the canonical stream, in samples per second.
pub const CANONICAL_SAMPLE_RATE: u32 = 16000;

/// Samples in a canonical chunk: 80 ms at the canonical rate.
pub const CANONICAL_CHUNK_SIZE: usize = 1280;

/// Mel frames in the wake-word window.
pub const MEL_FRAME_COUNT: usize = 76;

/// Mel bands in a frame.
pub const MEL_BANDS: usize = 32;

/// Silent chunks after speech that end an utterance: about 1.3 s.
pub const SILENCE_FRAMES_THRESHOLD: usize = 16;

/// Samples that the capture side forwards at a time.
pub const CAPTURE_CHUNK_SIZE: usize = 1024;

/// The tunables as a value.
#[derive(Debug, Clone, Copy, PartialEq, Eq, Structural)]
pub struct VoiceConfig {
    /// Rate of the stream that the pipeline works on.
    pub sample_rate: u32,
    /// Samples per chunk.
    pub chunk_size: usize,
    /// Mel frames to gather before the embedding model runs.
    pub mel_frame_count: usize,
    /// Silent chunks after speech that end the utterance.
    pub silence_frames_threshold: usize,
}

impl Default for VoiceConfig {
    fn default() -> (config: Self)
        ensures
            config.sample_rate == 16000,
            config.chunk_size == 1280,
            config.mel_frame_count == 76,
            config.silence_frames_threshold == 16,
    {
        VoiceConfig {
            sample_rate: CANONICAL_SAMPLE_RATE,
            chunk_size: CANONICAL_CHUNK_SIZE,
            mel_frame_count: MEL_FRAME_COUNT,
            silence_frames_threshold: SILENCE_FRAMES_THRESHOLD,
        }
    }
}

} // verus!
