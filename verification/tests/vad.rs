use jarvis_voice::config::VoiceConfig;
use jarvis_voice::vad::{VadResult, VoiceActivityDetector};

/// The level side of the endpointer: smoothed RMS against a threshold.
struct Level {
    smoothed: f32,
    threshold: f32,
}

impl Level {
    fn new(threshold: f32) -> Self {
        Level { smoothed: 0.0, threshold }
    }

    fn is_silent(&mut self, samples: &[f32]) -> bool {
        let rms = if samples.is_empty() {
            0.0
        } else {
            let sum: f32 = samples.iter().map(|&s| s * s).sum();
            (sum / samples.len() as f32).sqrt()
        };
        self.smoothed = 0.3 * rms + (1.0 - 0.3) * self.smoothed;
        self.smoothed < self.threshold
    }

    fn reset(&mut self) {
        self.smoothed = 0.0;
    }
}

fn make_config() -> VoiceConfig {
    VoiceConfig { silence_frames_threshold: 3, ..Default::default() }
}

fn loud() -> Vec<f32> {
    (0..1280).map(|i| (i as f32 * 0.01).sin() * 0.5).collect()
}

#[test]
fn test_detect_silence() {
    let mut vad = VoiceActivityDetector::new(&make_config());
    let mut level = Level::new(0.01);
    let silent_samples = vec![0.0; 1280];
    let result = vad.process(level.is_silent(&silent_samples));
    assert_eq!(result, VadResult::Silence);
}

#[test]
fn test_detect_speech() {
    let mut vad = VoiceActivityDetector::new(&make_config());
    let mut level = Level::new(0.01);
    let loud_samples = loud();
    let result = vad.process(level.is_silent(&loud_samples));
    assert_eq!(result, VadResult::Speech);
}

#[test]
fn test_speech_end_detection() {
    let mut vad = VoiceActivityDetector::new(&make_config());

    vad.process(false);
    assert!(vad.has_speech());

    vad.process(true);
    vad.process(true);
    let result = vad.process(true);

    assert_eq!(result, VadResult::SpeechEnd);
}

#[test]
fn test_reset() {
    let mut vad = VoiceActivityDetector::new(&make_config());
    let mut level = Level::new(0.01);

    let loud_samples = loud();
    vad.process(level.is_silent(&loud_samples));
    assert!(vad.has_speech());

    vad.reset();
    level.reset();
    assert!(!vad.has_speech());
    assert_eq!(vad.silent_frames(), 0);
}

#[test]
fn silence_before_any_speech_never_ends_speech() {
    let mut vad = VoiceActivityDetector::new(&VoiceConfig::default());
    for _ in 0..100 {
        assert_eq!(vad.process(true), VadResult::Silence);
        assert!(!vad.has_speech());
        assert_eq!(vad.silent_frames(), 0);
    }
}

#[test]
fn sixteen_silent_chunks_after_speech_end_it_once() {
    let mut vad = VoiceActivityDetector::new(&VoiceConfig::default());
    assert_eq!(vad.process(false), VadResult::Speech);
    let mut ends = 0;
    for i in 1..=16 {
        let result = vad.process(true);
        if result == VadResult::SpeechEnd {
            ends += 1;
            assert_eq!(i, 16);
        } else {
            assert_eq!(result, VadResult::Silence);
        }
        assert_eq!(vad.silent_frames(), i);
    }
    assert_eq!(ends, 1);
}

#[test]
fn zeros_after_speech_through_the_level_meter() {
    let mut vad = VoiceActivityDetector::new(&VoiceConfig::default());
    let mut level = Level::new(0.01);
    assert_eq!(vad.process(level.is_silent(&loud())), VadResult::Speech);
    let zeros = vec![0.0f32; 1280];
    let mut ends = 0;
    let mut silent_chunks = 0;
    while silent_chunks < 16 {
        let silent = level.is_silent(&zeros);
        if silent {
            silent_chunks += 1;
        }
        if vad.process(silent) == VadResult::SpeechEnd {
            ends += 1;
        }
    }
    assert_eq!(ends, 1);
    assert_eq!(vad.silent_frames(), 16);
}

#[test]
fn speech_restarts_the_count() {
    let mut vad = VoiceActivityDetector::new(&make_config());
    vad.process(false);
    assert_eq!(vad.process(true), VadResult::Silence);
    assert_eq!(vad.process(true), VadResult::Silence);
    assert_eq!(vad.process(false), VadResult::Speech);
    assert_eq!(vad.silent_frames(), 0);
    assert_eq!(vad.process(true), VadResult::Silence);
    assert_eq!(vad.process(true), VadResult::Silence);
    assert_eq!(vad.process(true), VadResult::SpeechEnd);
    assert_eq!(vad.process(true), VadResult::SpeechEnd);
    assert_eq!(vad.silent_frames(), 4);
}

#[test]
fn empty_chunk_is_silent() {
    let mut level = Level::new(0.01);
    assert!(level.is_silent(&[]));
    let mut vad = VoiceActivityDetector::new(&VoiceConfig::default());
    assert_eq!(vad.process(level.is_silent(&[])), VadResult::Silence);
}

#[test]
fn default_tunables() {
    let config = VoiceConfig::default();
    assert_eq!(config.sample_rate, 16000);
    assert_eq!(config.chunk_size, 1280);
    assert_eq!(config.mel_frame_count, 76);
    assert_eq!(config.silence_frames_threshold, 16);
    assert_eq!(jarvis_voice::config::MEL_BANDS, 32);
    assert_eq!(jarvis_voice::config::CAPTURE_CHUNK_SIZE, 1024);
}
