use jarvis_voice::state_machine::{StateAction, VoiceEvent, VoiceState, VoiceStateMachine};

fn speaking() -> VoiceStateMachine<f32> {
    let mut sm = VoiceStateMachine::new();
    sm.transition(VoiceEvent::WakeWordDetected);
    sm.transition(VoiceEvent::VadSpeechEnd);
    sm.transition(VoiceEvent::TranscriptionComplete("test".to_string()));
    sm.transition(VoiceEvent::ResponseReady("response".to_string()));
    sm
}

fn captured(sm: &mut VoiceStateMachine<f32>) -> Vec<f32> {
    match sm.transition(VoiceEvent::VadSpeechEnd).action {
        Some(StateAction::SendToStt(audio)) => audio,
        other => panic!("expected SendToStt, got {:?}", other),
    }
}

#[test]
fn test_initial_state() {
    let sm = VoiceStateMachine::<f32>::new();
    assert_eq!(sm.state(), VoiceState::Idle);
}

#[test]
fn test_wake_word_transition() {
    let mut sm = VoiceStateMachine::<f32>::new();
    let result = sm.transition(VoiceEvent::WakeWordDetected);
    assert_eq!(result.new_state, VoiceState::Listening);
    assert!(matches!(result.action, Some(StateAction::StartCapture)));
}

#[test]
fn test_manual_trigger() {
    let mut sm = VoiceStateMachine::<f32>::new();
    let result = sm.transition(VoiceEvent::ManualTrigger);
    assert_eq!(result.new_state, VoiceState::Listening);
}

#[test]
fn test_full_flow() {
    let mut sm = VoiceStateMachine::<f32>::new();

    sm.transition(VoiceEvent::WakeWordDetected);
    assert_eq!(sm.state(), VoiceState::Listening);

    sm.transition(VoiceEvent::VadSpeechEnd);
    assert_eq!(sm.state(), VoiceState::Transcribing);

    sm.transition(VoiceEvent::TranscriptionComplete("hello".to_string()));
    assert_eq!(sm.state(), VoiceState::Processing);

    sm.transition(VoiceEvent::ResponseReady("Hi there".to_string()));
    assert_eq!(sm.state(), VoiceState::Speaking);

    sm.transition(VoiceEvent::SpeechComplete);
    assert_eq!(sm.state(), VoiceState::Idle);
}

#[test]
fn test_barge_in() {
    let mut sm = VoiceStateMachine::<f32>::new();
    sm.transition(VoiceEvent::WakeWordDetected);
    sm.transition(VoiceEvent::VadSpeechEnd);
    sm.transition(VoiceEvent::TranscriptionComplete("test".to_string()));
    sm.transition(VoiceEvent::ResponseReady("response".to_string()));

    let result = sm.transition(VoiceEvent::BargeIn);
    assert_eq!(result.new_state, VoiceState::Listening);
    assert!(matches!(result.action, Some(StateAction::StopTts)));
}

#[test]
fn test_timeout() {
    let mut sm = VoiceStateMachine::<f32>::new();
    sm.transition(VoiceEvent::WakeWordDetected);

    let result = sm.transition(VoiceEvent::Timeout);
    assert_eq!(result.new_state, VoiceState::Idle);
}

#[test]
fn test_error_resets_to_idle() {
    let mut sm = VoiceStateMachine::<f32>::new();
    sm.transition(VoiceEvent::WakeWordDetected);
    sm.transition(VoiceEvent::VadSpeechEnd);

    let result = sm.transition(VoiceEvent::Error("test error".to_string()));
    assert_eq!(result.new_state, VoiceState::Idle);
}

#[test]
fn wake_speak_transcribe_answer_speak() {
    let mut sm = VoiceStateMachine::<f32>::new();

    let r = sm.transition(VoiceEvent::WakeWordDetected);
    assert!(matches!(r.action, Some(StateAction::StartCapture)));

    sm.add_audio(&[0.1; 1280]);
    assert_eq!(sm.state(), VoiceState::Listening);

    let r = sm.transition(VoiceEvent::VadSpeechEnd);
    match r.action {
        Some(StateAction::SendToStt(audio)) => assert_eq!(audio, vec![0.1f32; 1280]),
        other => panic!("expected SendToStt, got {:?}", other),
    }

    let r = sm.transition(VoiceEvent::TranscriptionComplete("hi".to_string()));
    assert!(matches!(r.action, Some(StateAction::ProcessText(ref t)) if t == "hi"));

    let r = sm.transition(VoiceEvent::ResponseReady("hello".to_string()));
    assert!(matches!(r.action, Some(StateAction::PlayTts(ref t)) if t == "hello"));

    let r = sm.transition(VoiceEvent::SpeechComplete);
    assert!(r.action.is_none());
    assert_eq!(r.new_state, VoiceState::Idle);
    assert_eq!(sm.state(), VoiceState::Idle);
}

#[test]
fn manual_trigger_then_cancel() {
    let mut sm = VoiceStateMachine::<f32>::new();
    let r = sm.transition(VoiceEvent::ManualTrigger);
    assert_eq!(r.new_state, VoiceState::Listening);
    assert!(matches!(r.action, Some(StateAction::StartCapture)));
    let r = sm.transition(VoiceEvent::Cancel);
    assert_eq!(r.new_state, VoiceState::Idle);
    assert!(matches!(r.action, Some(StateAction::StopCapture)));
}

#[test]
fn barge_in_starts_with_nothing_captured() {
    let mut sm = speaking();
    assert_eq!(sm.state(), VoiceState::Speaking);
    let r = sm.transition(VoiceEvent::BargeIn);
    assert_eq!(r.new_state, VoiceState::Listening);
    assert!(matches!(r.action, Some(StateAction::StopTts)));
    assert_eq!(captured(&mut sm), Vec::<f32>::new());
}

#[test]
fn error_while_transcribing() {
    let mut sm = VoiceStateMachine::<f32>::new();
    sm.transition(VoiceEvent::WakeWordDetected);
    sm.transition(VoiceEvent::VadSpeechEnd);
    let r = sm.transition(VoiceEvent::Error("stt down".to_string()));
    assert_eq!(r.new_state, VoiceState::Idle);
    assert!(matches!(r.action, Some(StateAction::EmitError(ref e)) if e == "stt down"));
    assert_eq!(sm.state(), VoiceState::Idle);
}

#[test]
fn timeout_after_wake_without_speech() {
    let mut sm = VoiceStateMachine::<f32>::new();
    sm.transition(VoiceEvent::WakeWordDetected);
    let r = sm.transition(VoiceEvent::Timeout);
    assert_eq!(r.new_state, VoiceState::Idle);
    assert!(matches!(r.action, Some(StateAction::StopCapture)));
    assert_eq!(sm.state(), VoiceState::Idle);
}

#[test]
fn second_wake_word_keeps_what_was_captured() {
    let mut sm = VoiceStateMachine::<f32>::new();
    sm.transition(VoiceEvent::WakeWordDetected);
    sm.add_audio(&[0.25, 0.5]);
    let r = sm.transition(VoiceEvent::WakeWordDetected);
    assert_eq!(r.new_state, VoiceState::Listening);
    assert!(r.action.is_none());
    assert_eq!(captured(&mut sm), vec![0.25, 0.5]);
}

#[test]
fn manual_trigger_while_listening_changes_nothing() {
    let mut sm = VoiceStateMachine::<f32>::new();
    sm.transition(VoiceEvent::ManualTrigger);
    sm.add_audio(&[1.0]);
    let r = sm.transition(VoiceEvent::ManualTrigger);
    assert_eq!(r.new_state, VoiceState::Listening);
    assert!(r.action.is_none());
    assert_eq!(captured(&mut sm), vec![1.0]);
}

#[test]
fn error_from_every_state_leaves_idle_and_empty() {
    let events_to_reach: Vec<Vec<VoiceEvent>> = vec![
        vec![],
        vec![VoiceEvent::WakeWordDetected],
        vec![VoiceEvent::WakeWordDetected, VoiceEvent::VadSpeechEnd],
        vec![
            VoiceEvent::WakeWordDetected,
            VoiceEvent::VadSpeechEnd,
            VoiceEvent::TranscriptionComplete("a".to_string()),
        ],
        vec![
            VoiceEvent::WakeWordDetected,
            VoiceEvent::VadSpeechEnd,
            VoiceEvent::TranscriptionComplete("a".to_string()),
            VoiceEvent::ResponseReady("b".to_string()),
        ],
    ];
    for events in events_to_reach {
        let mut sm = VoiceStateMachine::<f32>::new();
        for event in events {
            sm.transition(event);
        }
        sm.add_audio(&[0.5; 4]);
        let r = sm.transition(VoiceEvent::Error("boom".to_string()));
        assert_eq!(r.new_state, VoiceState::Idle);
        assert!(matches!(r.action, Some(StateAction::EmitError(ref e)) if e == "boom"));
        assert_eq!(sm.state(), VoiceState::Idle);
        sm.transition(VoiceEvent::WakeWordDetected);
        assert_eq!(captured(&mut sm), Vec::<f32>::new());
    }
}

#[test]
fn episode_hands_over_its_chunks_in_order() {
    let mut sm = VoiceStateMachine::<f32>::new();
    sm.add_audio(&[9.0, 9.0]);
    sm.transition(VoiceEvent::ManualTrigger);
    sm.add_audio(&[1.0, 2.0]);
    sm.add_audio(&[]);
    sm.add_audio(&[3.0]);
    sm.add_audio(&[4.0, 5.0, 6.0]);
    let audio = captured(&mut sm);
    assert_eq!(audio, vec![1.0, 2.0, 3.0, 4.0, 5.0, 6.0]);
    assert_eq!(audio.len(), 2 + 0 + 1 + 3);
    assert_eq!(sm.state(), VoiceState::Transcribing);
    sm.add_audio(&[7.0]);
    sm.transition(VoiceEvent::Error("x".to_string()));
    sm.transition(VoiceEvent::WakeWordDetected);
    assert_eq!(captured(&mut sm), Vec::<f32>::new());
}

#[test]
fn unlisted_pairs_are_ignored() {
    let mut sm = VoiceStateMachine::<f32>::new();
    for event in [
        VoiceEvent::VadSpeechEnd,
        VoiceEvent::TranscriptionComplete("t".to_string()),
        VoiceEvent::ResponseReady("r".to_string()),
        VoiceEvent::SpeechComplete,
        VoiceEvent::BargeIn,
        VoiceEvent::Timeout,
        VoiceEvent::Cancel,
    ] {
        let r = sm.transition(event);
        assert_eq!(r.new_state, VoiceState::Idle);
        assert!(r.action.is_none());
    }
    let mut sm = speaking();
    let r = sm.transition(VoiceEvent::Cancel);
    assert_eq!(r.new_state, VoiceState::Idle);
    assert!(matches!(r.action, Some(StateAction::StopTts)));
}

#[test]
fn reset_forces_idle_and_drops_audio() {
    let mut sm = VoiceStateMachine::<f32>::new();
    sm.transition(VoiceEvent::WakeWordDetected);
    sm.add_audio(&[1.0, 2.0]);
    sm.reset();
    assert_eq!(sm.state(), VoiceState::Idle);
    sm.transition(VoiceEvent::WakeWordDetected);
    assert_eq!(captured(&mut sm), Vec::<f32>::new());
}

#[test]
fn state_names_and_default() {
    assert_eq!(VoiceState::default(), VoiceState::Idle);
    assert_eq!(VoiceState::Idle.as_str(), "idle");
    assert_eq!(VoiceState::Listening.as_str(), "listening");
    assert_eq!(VoiceState::Transcribing.as_str(), "transcribing");
    assert_eq!(VoiceState::Processing.as_str(), "processing");
    assert_eq!(VoiceState::Speaking.as_str(), "speaking");
}

#[test]
fn time_in_state_is_small_right_after_a_transition() {
    let mut sm = VoiceStateMachine::<f32>::new();
    sm.transition(VoiceEvent::WakeWordDetected);
    assert!(sm.time_in_state().as_secs() < 5);
}
