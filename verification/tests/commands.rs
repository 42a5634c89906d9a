use jarvis_voice::audio_capture::AudioCaptureError;
use jarvis_voice::commands::{
    cancel_voice_operation, check_wake_word_available, get_current_input_device,
    get_current_output_device, get_voice_state, is_voice_running, set_input_device,
    set_output_device, set_wake_word_enabled, start_voice_listening, stop_voice_listening,
    trigger_voice_listening, voice_response_ready, voice_speech_complete,
    voice_transcription_complete,
};
use jarvis_voice::controller::VoiceControllerState;
use jarvis_voice::state_machine::{VoiceEvent, VoiceState};
use jarvis_voice::wake_word::ModelProbe;

type Slot = Option<VoiceControllerState<f32>>;

fn models(exists: bool) -> ModelProbe {
    ModelProbe { path: "res/models".to_string(), exists }
}

fn started() -> Slot {
    let mut slot: Slot = None;
    start_voice_listening(&mut slot, &models(true), Ok(())).unwrap();
    slot
}

#[test]
fn commands_fail_until_started() {
    let mut slot: Slot = None;
    let not_started = "Voice system not started".to_string();
    assert_eq!(trigger_voice_listening(&mut slot), Err(not_started.clone()));
    assert_eq!(cancel_voice_operation(&mut slot), Err(not_started.clone()));
    assert_eq!(set_wake_word_enabled(false, &mut slot), Err(not_started.clone()));
    assert_eq!(voice_transcription_complete("t".to_string(), &mut slot), Err(not_started.clone()));
    assert_eq!(voice_response_ready("r".to_string(), &mut slot), Err(not_started.clone()));
    assert_eq!(voice_speech_complete(&mut slot), Err(not_started));
    assert!(slot.is_none());
    assert_eq!(get_voice_state(&slot), VoiceState::Idle);
    assert!(!is_voice_running(&slot));
    assert!(check_wake_word_available());
}

#[test]
fn devices_are_stored_and_apply_at_the_next_start() {
    let mut slot: Slot = None;
    assert_eq!(get_current_input_device(&slot), None);
    assert_eq!(get_current_output_device(&slot), None);
    assert_eq!(set_input_device(Some("USB".to_string()), &mut slot), Ok(()));
    assert_eq!(get_current_input_device(&slot), Some("USB".to_string()));
    assert_eq!(get_current_output_device(&slot), None);
    assert!(!is_voice_running(&slot));
    assert_eq!(trigger_voice_listening(&mut slot), Err("Voice system not started".to_string()));
    assert_eq!(set_output_device(Some("Out".to_string()), &mut slot), Ok(()));

    start_voice_listening(&mut slot, &models(true), Ok(())).unwrap();
    assert!(is_voice_running(&slot));
    assert_eq!(get_current_input_device(&slot), Some("USB".to_string()));
    assert_eq!(get_current_output_device(&slot), Some("Out".to_string()));

    assert_eq!(set_input_device(Some("Headset".to_string()), &mut slot), Ok(()));
    assert_eq!(trigger_voice_listening(&mut slot), Ok(Some(VoiceState::Listening)));
    stop_voice_listening(&mut slot);
    assert!(!is_voice_running(&slot));
    assert_eq!(get_voice_state(&slot), VoiceState::Idle);
    assert_eq!(get_current_input_device(&slot), Some("Headset".to_string()));
    assert_eq!(cancel_voice_operation(&mut slot), Err("Voice system not started".to_string()));

    start_voice_listening(&mut slot, &models(true), Ok(())).unwrap();
    assert_eq!(get_current_input_device(&slot), Some("Headset".to_string()));
    assert_eq!(get_current_output_device(&slot), Some("Out".to_string()));
    assert_eq!(set_input_device(None, &mut slot), Ok(()));
    assert_eq!(get_current_input_device(&slot), None);
}

#[test]
fn start_reports_errors_as_sentences() {
    let mut slot: Slot = None;
    assert_eq!(
        start_voice_listening(&mut slot, &models(false), Ok(())),
        Err("Models not found at: res/models".to_string())
    );
    assert!(slot.is_none());
    assert_eq!(
        start_voice_listening(&mut slot, &models(true), Err(AudioCaptureError::NoInputDevice)),
        Err("Audio capture error: No input device available".to_string())
    );
    assert!(slot.is_none());
    assert!(!is_voice_running(&slot));
}

#[test]
fn start_and_stop_are_idempotent() {
    let mut slot = started();
    assert!(is_voice_running(&slot));
    assert_eq!(trigger_voice_listening(&mut slot), Ok(Some(VoiceState::Listening)));
    assert_eq!(start_voice_listening(&mut slot, &models(false), Err(AudioCaptureError::NoInputDevice)), Ok(()));
    assert!(is_voice_running(&slot));
    assert_eq!(get_voice_state(&slot), VoiceState::Listening);
    stop_voice_listening(&mut slot);
    assert!(!is_voice_running(&slot));
    assert_eq!(get_voice_state(&slot), VoiceState::Idle);
    stop_voice_listening(&mut slot);
    assert!(!is_voice_running(&slot));
    let mut empty: Slot = None;
    stop_voice_listening(&mut empty);
    assert!(empty.is_none());
}

#[test]
fn commands_drive_the_machine() {
    let mut slot = started();
    assert_eq!(voice_speech_complete(&mut slot), Ok(None));
    assert_eq!(trigger_voice_listening(&mut slot), Ok(Some(VoiceState::Listening)));
    assert_eq!(trigger_voice_listening(&mut slot), Ok(None));
    assert_eq!(cancel_voice_operation(&mut slot), Ok(Some(VoiceState::Idle)));
    assert_eq!(trigger_voice_listening(&mut slot), Ok(Some(VoiceState::Listening)));
    slot.as_mut().unwrap().state_machine.transition(VoiceEvent::VadSpeechEnd);
    assert_eq!(voice_response_ready("early".to_string(), &mut slot), Ok(None));
    assert_eq!(voice_transcription_complete("t".to_string(), &mut slot), Ok(Some(VoiceState::Processing)));
    assert_eq!(voice_response_ready("r".to_string(), &mut slot), Ok(Some(VoiceState::Speaking)));
    assert_eq!(cancel_voice_operation(&mut slot), Ok(Some(VoiceState::Idle)));
    assert_eq!(get_voice_state(&slot), VoiceState::Idle);
    assert_eq!(set_wake_word_enabled(false, &mut slot), Ok(()));
    assert!(!slot.as_ref().unwrap().wake_word_enabled);
}
