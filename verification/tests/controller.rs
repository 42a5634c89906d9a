use jarvis_voice::audio_capture::AudioCaptureError;
use jarvis_voice::controller::{ChunkRoute, VoiceControllerState, VoiceError};
use jarvis_voice::state_machine::{StateAction, VoiceEvent, VoiceState};
use jarvis_voice::vad::VoiceActivityDetector;
use jarvis_voice::wake_word::{ModelProbe, WakeWordDetector, WakeWordError};

fn models(exists: bool) -> ModelProbe {
    ModelProbe { path: "res/models".to_string(), exists }
}

fn running() -> VoiceControllerState<f32> {
    let mut state = VoiceControllerState::new();
    state.start(&models(true), Ok(())).unwrap();
    state
}

#[test]
fn new_controller_is_stopped_with_defaults() {
    let state = VoiceControllerState::<f32>::new();
    assert!(!state.is_running());
    assert!(state.wake_word_enabled);
    assert_eq!(state.current_state(), VoiceState::Idle);
    assert_eq!(state.get_input_device(), None);
    assert_eq!(state.get_output_device(), None);
    assert_eq!(state.config.chunk_size, 1280);
    assert_eq!(state.config.silence_frames_threshold, 16);
}

#[test]
fn start_fails_without_models_and_stays_stopped() {
    let mut state = VoiceControllerState::<f32>::new();
    match state.start(&models(false), Ok(())) {
        Err(VoiceError::ModelsNotFound(path)) => assert_eq!(path, "res/models"),
        other => panic!("unexpected {:?}", other),
    }
    assert!(!state.is_running());
    match state.start(&models(false), Err(AudioCaptureError::NoInputDevice)) {
        Err(VoiceError::ModelsNotFound(_)) => {}
        other => panic!("unexpected {:?}", other),
    }
}

#[test]
fn start_fails_without_capture_and_stays_stopped() {
    let mut state = VoiceControllerState::<f32>::new();
    match state.start(&models(true), Err(AudioCaptureError::DeviceNotFound("USB".to_string()))) {
        Err(VoiceError::AudioCapture(AudioCaptureError::DeviceNotFound(name))) => assert_eq!(name, "USB"),
        other => panic!("unexpected {:?}", other),
    }
    assert!(!state.is_running());
    assert!(state.start(&models(true), Ok(())).is_ok());
    assert!(state.is_running());
    state.stop();
    assert!(!state.is_running());
    state.stop();
    assert!(!state.is_running());
}

#[test]
fn chunks_are_routed_by_state() {
    let mut state = VoiceControllerState::<f32>::new();
    assert_eq!(state.route_chunk(true), ChunkRoute::Stop);
    state.start(&models(true), Ok(())).unwrap();
    assert_eq!(state.route_chunk(true), ChunkRoute::WakeWord);
    assert_eq!(state.route_chunk(false), ChunkRoute::Discard);
    state.set_wake_word_enabled(false);
    assert_eq!(state.route_chunk(true), ChunkRoute::Discard);
    state.manual_trigger();
    assert_eq!(state.route_chunk(true), ChunkRoute::Capture);
    assert_eq!(state.route_chunk(false), ChunkRoute::Capture);
    state.state_machine.transition(VoiceEvent::VadSpeechEnd);
    assert_eq!(state.route_chunk(true), ChunkRoute::Discard);
    state.transcription_complete("t".to_string());
    assert_eq!(state.route_chunk(true), ChunkRoute::Discard);
    state.response_ready("r".to_string());
    assert_eq!(state.route_chunk(true), ChunkRoute::Discard);
    state.stop();
    assert_eq!(state.route_chunk(true), ChunkRoute::Stop);
}

#[test]
fn wake_word_hit_starts_listening_and_resets_the_endpointer() {
    let mut state = running();
    let mut vad = VoiceActivityDetector::new(&state.config);
    let mut window = WakeWordDetector::<f32>::new(&state.config);
    for _ in 0..75 {
        assert!(window.push_mel_frame(vec![0.0; 32]).is_none());
    }
    vad.process(false);
    vad.process(true);
    assert_eq!(state.process_idle_state(false, &mut vad, &mut window), None);
    assert_eq!(state.current_state(), VoiceState::Idle);
    assert!(vad.has_speech());
    assert!(window.push_mel_frame(vec![0.0; 32]).is_some());
    assert_eq!(state.process_idle_state(true, &mut vad, &mut window), Some(VoiceState::Listening));
    assert_eq!(state.current_state(), VoiceState::Listening);
    assert!(!vad.has_speech());
    assert_eq!(vad.silent_frames(), 0);
    assert!(window.push_mel_frame(vec![0.0; 32]).is_none());
}

#[test]
fn utterance_is_handed_over_at_the_end_of_speech() {
    let mut state = running();
    let mut vad = VoiceActivityDetector::new(&state.config);
    let small = jarvis_voice::config::VoiceConfig { mel_frame_count: 1, ..Default::default() };
    let mut window = Some(WakeWordDetector::<f32>::new(&small));
    let mut absent: Option<WakeWordDetector<f32>> = None;
    state.process_idle_state(true, &mut vad, window.as_mut().unwrap());
    assert!(state.process_listening_state(&[0.1, 0.2], false, &mut vad, &mut absent).is_none());
    assert!(absent.is_none());
    assert!(window.as_mut().unwrap().push_mel_frame(vec![1.0; 32]).is_some());
    for i in 0..15 {
        assert!(state.process_listening_state(&[i as f32], true, &mut vad, &mut window).is_none());
        assert_eq!(state.current_state(), VoiceState::Listening);
    }
    let ended = state.process_listening_state(&[99.0], true, &mut vad, &mut window).unwrap();
    assert_eq!(window.as_mut().unwrap().push_mel_frame(vec![2.0; 32]), Some(vec![2.0; 32]));
    assert_eq!(ended.new_state, VoiceState::Transcribing);
    let mut expected = vec![0.1f32, 0.2];
    expected.extend((0..15).map(|i| i as f32));
    expected.push(99.0);
    match ended.action {
        Some(StateAction::SendToStt(audio)) => assert_eq!(audio, expected),
        other => panic!("unexpected {:?}", other),
    }
    assert_eq!(state.current_state(), VoiceState::Transcribing);
    assert!(!vad.has_speech());
    assert_eq!(vad.silent_frames(), 0);
}

#[test]
fn commands_become_events() {
    let mut state = running();
    assert_eq!(state.manual_trigger(), Some(VoiceState::Listening));
    assert_eq!(state.manual_trigger(), None);
    assert_eq!(state.current_state(), VoiceState::Listening);
    assert_eq!(state.cancel(), Some(VoiceState::Idle));
    assert_eq!(state.transcription_complete("x".to_string()), None);
    assert_eq!(state.manual_trigger(), Some(VoiceState::Listening));
    state.state_machine.transition(VoiceEvent::VadSpeechEnd);
    assert_eq!(state.response_ready("early".to_string()), None);
    assert_eq!(state.current_state(), VoiceState::Transcribing);
    assert_eq!(state.transcription_complete("x".to_string()), Some(VoiceState::Processing));
    assert_eq!(state.response_ready("y".to_string()), Some(VoiceState::Speaking));
    assert_eq!(state.speech_complete(), Some(VoiceState::Idle));
    assert_eq!(state.dispatch(VoiceEvent::Error("e".to_string())), None);
    assert_eq!(state.dispatch(VoiceEvent::WakeWordDetected), Some(VoiceState::Listening));
    assert_eq!(state.dispatch(VoiceEvent::Error("e".to_string())), Some(VoiceState::Idle));
    assert!(state.is_running());
}

#[test]
fn devices_are_stored() {
    let mut state = VoiceControllerState::<f32>::new();
    state.set_input_device(Some("USB Mic".to_string()));
    state.set_output_device(Some("Speakers".to_string()));
    assert_eq!(state.get_input_device(), Some("USB Mic".to_string()));
    assert_eq!(state.get_output_device(), Some("Speakers".to_string()));
    state.set_input_device(None);
    assert_eq!(state.get_input_device(), None);
    assert_eq!(state.get_output_device(), Some("Speakers".to_string()));
}

#[test]
fn voice_error_messages() {
    assert_eq!(
        VoiceError::from(AudioCaptureError::NoInputDevice).message(),
        "Audio capture error: No input device available"
    );
    assert_eq!(
        VoiceError::from(WakeWordError::InferenceError("shape".to_string())).message(),
        "Wake word error: Inference error: shape"
    );
    assert_eq!(VoiceError::NotInitialized.message(), "Voice system not initialized");
    assert_eq!(VoiceError::ModelsNotFound("/m".to_string()).message(), "Models not found at: /m");
}
