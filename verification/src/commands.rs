//! The host's commands, as functions on the slot that holds the controller.
//!
//! The slot is empty until a device is chosen or the voice system is
//! started. The chosen devices outlive a stop and apply at the next start;
//! everything else starts afresh. A command that needs the running system
//! fails with a sentence while the system does not run, and changes nothing.
//! A command that hands an event to the machine returns the state to
//! announce, if the state changed.

use crate::audio_capture::AudioCaptureError;
use crate::controller::VoiceControllerState;
use crate::controller::VoiceError;
use crate::state_machine::fresh;
use crate::state_machine::step;
use crate::state_machine::EventModel;
use crate::state_machine::VoiceEvent;
use crate::state_machine::VoiceState;
use crate::wake_word::ModelProbe;
use vstd::prelude::*;

verus! {

/// What a command answers while the voice system does not run.
pub open spec fn not_started() -> Seq<char> {
    "Voice system not started"@
}

/// Whether the slot holds a running controller.
pub open spec fn runs<T: Copy>(slot: Option<VoiceControllerState<T>>) -> bool {
    slot matches Some(controller) && controller.is_running
}

/// The input device chosen in the slot.
pub open spec fn chosen_input<T: Copy>(slot: Option<VoiceControllerState<T>>) -> Option<String> {
    match slot {
        Some(controller) => controller.input_device,
        None => None,
    }
}

/// The output device chosen in the slot.
pub open spec fn chosen_output<T: Copy>(slot: Option<VoiceControllerState<T>>) -> Option<String> {
    match slot {
        Some(controller) => controller.output_device,
        None => None,
    }
}

/// Whether `controller` is as new but for the devices and for whether it
/// runs.
pub open spec fn afresh<T: Copy>(
    controller: VoiceControllerState<T>,
    running: bool,
    input_device: Option<String>,
    output_device: Option<String>,
) -> bool {
    &&& controller.state_machine@ == fresh::<T>()
    &&& controller.config.sample_rate == 16000
    &&& controller.config.chunk_size == 1280
    &&& controller.config.mel_frame_count == 76
    &&& controller.config.silence_frames_threshold == 16
    &&& controller.wake_word_enabled
    &&& controller.is_running == running
    &&& controller.input_device == input_device
    &&& controller.output_device == output_device
}

/// What handing `event` to the controller in `before` leaves in `after` and
/// answers with `answer`.
pub open spec fn delivered<T: Copy>(
    before: Option<VoiceControllerState<T>>,
    after: Option<VoiceControllerState<T>>,
    event: EventModel,
    answer: Result<Option<VoiceState>, String>,
) -> bool {
    if runs(before) {
        &&& after matches Some(now)
        &&& now.state_machine@ == step(before->0.state_machine@, event)
        &&& now.same_settings(&before->0)
        &&& answer == Ok::<Option<VoiceState>, String>(before->0.announced(event))
    } else {
        &&& after == before
        &&& answer matches Err(message)
        &&& message@ == not_started()
    }
}

fn deliver<T: Copy>(slot: &mut Option<VoiceControllerState<T>>, event: VoiceEvent) -> (answer:
    Result<Option<VoiceState>, String>)
    ensures
        delivered(*old(slot), *final(slot), event@, answer),
{
    match slot {
        Some(controller) => {
            if controller.is_running {
                Ok(controller.dispatch(event))
            } else {
                Err(String::from_str("Voice system not started"))
            }
        },
        None => Err(String::from_str("Voice system not started")),
    }
}

/// A stopped controller that is new but for the devices chosen in `slot`.
fn renewed<T: Copy>(slot: &Option<VoiceControllerState<T>>) -> (controller: VoiceControllerState<T>)
    ensures
        afresh(controller, false, chosen_input(*slot), chosen_output(*slot)),
{
    let mut controller: VoiceControllerState<T> = VoiceControllerState::new();
    match slot {
        Some(previous) => {
            controller.set_input_device(previous.get_input_device());
            controller.set_output_device(previous.get_output_device());
        },
        None => {},
    }
    controller
}

/// Starts the voice system unless it already runs. A running system is left
/// as it is. Otherwise `models_dir` says where the models directory should
/// be and whether it is there, and `capture` how opening and starting
/// capture went. If both went well the slot holds a running controller that
/// is new but for the chosen devices. If not, the slot is left as it was and
/// the error is returned as a sentence: the missing directory first.
pub fn start_voice_listening<T: Copy>(
    slot: &mut Option<VoiceControllerState<T>>,
    models_dir: &ModelProbe,
    capture: Result<(), AudioCaptureError>,
) -> (started: Result<(), String>)
    ensures
        runs(*old(slot)) ==> started.is_ok() && *final(slot) == *old(slot),
        !runs(*old(slot)) ==> match started {
            Ok(()) => {
                &&& models_dir.exists
                &&& capture.is_ok()
                &&& *final(slot) matches Some(now)
                &&& afresh(now, true, chosen_input(*old(slot)), chosen_output(*old(slot)))
            },
            Err(message) => {
                &&& *final(slot) == *old(slot)
                &&& if !models_dir.exists {
                    message@ == (VoiceError::ModelsNotFound(models_dir.path)).text()
                } else {
                    capture matches Err(cause) && message@ == (VoiceError::AudioCapture(
                        cause,
                    )).text()
                }
            },
        },
{
    let running = match slot {
        Some(controller) => controller.is_running,
        None => false,
    };
    if running {
        return Ok(());
    }
    let mut controller = renewed(slot);
    match controller.start(models_dir, capture) {
        Ok(()) => {
            *slot = Some(controller);
            Ok(())
        },
        Err(error) => Err(error.message()),
    }
}

/// Stops the voice system. What is left is a stopped controller that is new
/// but for the chosen devices; an empty slot stays empty.
pub fn stop_voice_listening<T: Copy>(slot: &mut Option<VoiceControllerState<T>>)
    ensures
        !runs(*final(slot)),
        old(slot).is_none() ==> final(slot).is_none(),
        old(slot).is_some() ==> final(slot).is_some() && afresh(
            final(slot)->0,
            false,
            chosen_input(*old(slot)),
            chosen_output(*old(slot)),
        ),
{
    if slot.is_some() {
        let controller = renewed(slot);
        *slot = Some(controller);
    }
}

/// Push-to-talk.
pub fn trigger_voice_listening<T: Copy>(slot: &mut Option<VoiceControllerState<T>>) -> (answer:
    Result<Option<VoiceState>, String>)
    ensures
        delivered(*old(slot), *final(slot), EventModel::ManualTrigger, answer),
{
    deliver(slot, VoiceEvent::ManualTrigger)
}

/// Calls the current interaction off.
pub fn cancel_voice_operation<T: Copy>(slot: &mut Option<VoiceControllerState<T>>) -> (answer:
    Result<Option<VoiceState>, String>)
    ensures
        delivered(*old(slot), *final(slot), EventModel::Cancel, answer),
{
    deliver(slot, VoiceEvent::Cancel)
}

/// The utterance was transcribed.
pub fn voice_transcription_complete<T: Copy>(
    text: String,
    slot: &mut Option<VoiceControllerState<T>>,
) -> (answer: Result<Option<VoiceState>, String>)
    ensures
        delivered(*old(slot), *final(slot), EventModel::TranscriptionComplete(text@), answer),
{
    deliver(slot, VoiceEvent::TranscriptionComplete(text))
}

/// The reply is ready to be spoken.
pub fn voice_response_ready<T: Copy>(
    response: String,
    slot: &mut Option<VoiceControllerState<T>>,
) -> (answer: Result<Option<VoiceState>, String>)
    ensures
        delivered(*old(slot), *final(slot), EventModel::ResponseReady(response@), answer),
{
    deliver(slot, VoiceEvent::ResponseReady(response))
}

/// The reply was spoken.
pub fn voice_speech_complete<T: Copy>(slot: &mut Option<VoiceControllerState<T>>) -> (answer:
    Result<Option<VoiceState>, String>)
    ensures
        delivered(*old(slot), *final(slot), EventModel::SpeechComplete, answer),
{
    deliver(slot, VoiceEvent::SpeechComplete)
}

/// Turns wake-word detection of the running system on or off.
pub fn set_wake_word_enabled<T: Copy>(
    enabled: bool,
    slot: &mut Option<VoiceControllerState<T>>,
) -> (answer: Result<(), String>)
    ensures
        runs(*old(slot)) ==> {
            &&& answer.is_ok()
            &&& *final(slot) matches Some(now)
            &&& now.wake_word_enabled == enabled
            &&& now.state_machine == old(slot)->0.state_machine
            &&& now.config == old(slot)->0.config
            &&& now.is_running
            &&& now.input_device == old(slot)->0.input_device
            &&& now.output_device == old(slot)->0.output_device
        },
        !runs(*old(slot)) ==> {
            &&& *final(slot) == *old(slot)
            &&& answer matches Err(message)
            &&& message@ == not_started()
        },
{
    match slot {
        Some(controller) => {
            if controller.is_running {
                controller.wake_word_enabled = enabled;
                Ok(())
            } else {
                Err(String::from_str("Voice system not started"))
            }
        },
        None => Err(String::from_str("Voice system not started")),
    }
}

/// Whether wake-word detection can be had: always, as it needs no key.
pub fn check_wake_word_available() -> (available: bool)
    ensures
        available,
{
    true
}

/// The machine's state; `Idle` while the slot is empty.
pub fn get_voice_state<T: Copy>(slot: &Option<VoiceControllerState<T>>) -> (state: VoiceState)
    ensures
        state == match *slot {
            Some(controller) => controller.state_machine@.state,
            None => VoiceState::Idle,
        },
{
    match slot {
        Some(controller) => controller.current_state(),
        None => VoiceState::Idle,
    }
}

/// Whether the voice system runs.
pub fn is_voice_running<T: Copy>(slot: &Option<VoiceControllerState<T>>) -> (running: bool)
    ensures
        running == runs(*slot),
{
    match slot {
        Some(controller) => controller.is_running(),
        None => false,
    }
}

/// Chooses the input device. It is stored whether or not the system runs,
/// and applies at the next start.
pub fn set_input_device<T: Copy>(
    device_name: Option<String>,
    slot: &mut Option<VoiceControllerState<T>>,
) -> (answer: Result<(), String>)
    ensures
        answer.is_ok(),
        final(slot).is_some(),
        final(slot)->0.input_device == device_name,
        match *old(slot) {
            Some(controller) => {
                &&& final(slot)->0.state_machine == controller.state_machine
                &&& final(slot)->0.config == controller.config
                &&& final(slot)->0.is_running == controller.is_running
                &&& final(slot)->0.wake_word_enabled == controller.wake_word_enabled
                &&& final(slot)->0.output_device == controller.output_device
            },
            None => afresh(final(slot)->0, false, device_name, None),
        },
{
    match slot {
        Some(controller) => {
            controller.input_device = device_name;
        },
        None => {
            let mut controller: VoiceControllerState<T> = VoiceControllerState::new();
            controller.set_input_device(device_name);
            *slot = Some(controller);
        },
    }
    Ok(())
}

/// Chooses the output device. It is stored whether or not the system runs.
pub fn set_output_device<T: Copy>(
    device_name: Option<String>,
    slot: &mut Option<VoiceControllerState<T>>,
) -> (answer: Result<(), String>)
    ensures
        answer.is_ok(),
        final(slot).is_some(),
        final(slot)->0.output_device == device_name,
        match *old(slot) {
            Some(controller) => {
                &&& final(slot)->0.state_machine == controller.state_machine
                &&& final(slot)->0.config == controller.config
                &&& final(slot)->0.is_running == controller.is_running
                &&& final(slot)->0.wake_word_enabled == controller.wake_word_enabled
                &&& final(slot)->0.input_device == controller.input_device
            },
            None => afresh(final(slot)->0, false, None, device_name),
        },
{
    match slot {
        Some(controller) => {
            controller.output_device = device_name;
        },
        None => {
            let mut controller: VoiceControllerState<T> = VoiceControllerState::new();
            controller.set_output_device(device_name);
            *slot = Some(controller);
        },
    }
    Ok(())
}

/// The chosen input device.
pub fn get_current_input_device<T: Copy>(slot: &Option<VoiceControllerState<T>>) -> (device_name:
    Option<String>)
    ensures
        device_name == chosen_input(*slot),
{
    match slot {
        Some(controller) => controller.get_input_device(),
        None => None,
    }
}

/// The chosen output device.
pub fn get_current_output_device<T: Copy>(slot: &Option<VoiceControllerState<T>>) -> (device_name:
    Option<String>)
    ensures
        device_name == chosen_output(*slot),
{
    match slot {
        Some(controller) => controller.get_output_device(),
        None => None,
    }
}

} // verus!
