//! The controller's state and its decisions: where a chunk goes, what a
//! wake-word hit or the end of speech does to the machine, and how the
//! host's commands become events.
//!
//! The value is meant to live behind one lock, shared by the host thread and
//! the processing thread. Each function here is one short critical section:
//! it takes the state, decides, and says what is to be announced.

use crate::audio_capture::AudioCaptureError;
use crate::config::VoiceConfig;
use crate::state_machine::action_for;
use crate::state_machine::fresh;
use crate::state_machine::hear;
use crate::state_machine::step;
use crate::state_machine::EventModel;
use crate::state_machine::TransitionResult;
use crate::state_machine::VoiceEvent;
use crate::state_machine::VoiceState;
use crate::state_machine::VoiceStateMachine;
use crate::vad::vad_next;
use crate::vad::vad_start;
use crate::vad::vad_verdict;
use crate::vad::VadResult;
use crate::vad::VoiceActivityDetector;
use crate::wake_word::ModelProbe;
use crate::wake_word::WakeWordDetector;
use crate::wake_word::WakeWordError;
use vstd::prelude::*;
use vstd::std_specs::convert::FromSpecImpl;

verus! {

/// Why the voice system could not be started or used.
#[derive(Debug, Clone)]
pub enum VoiceError {
    /// Capture could not be opened or started.
    AudioCapture(AudioCaptureError),
    /// The wake-word detector failed.
    WakeWord(WakeWordError),
    /// The voice system was not set up.
    NotInitialized,
    /// The models directory is not there.
    ModelsNotFound(String),
}

impl VoiceError {
    /// The error as a sentence, in characters.
    pub open spec fn text(&self) -> Seq<char> {
        match self {
            VoiceError::AudioCapture(cause) => "Audio capture error: "@ + cause.text(),
            VoiceError::WakeWord(cause) => "Wake word error: "@ + cause.text(),
            VoiceError::NotInitialized => "Voice system not initialized"@,
            VoiceError::ModelsNotFound(path) => "Models not found at: "@ + path@,
        }
    }

    /// The error as a sentence.
    pub fn message(&self) -> (message: String)
        ensures
            message@ == self.text(),
    {
        match self {
            VoiceError::AudioCapture(cause) => {
                let detail = cause.message();
                String::from_str("Audio capture error: ").concat(detail.as_str())
            },
            VoiceError::WakeWord(cause) => {
                let detail = cause.message();
                String::from_str("Wake word error: ").concat(detail.as_str())
            },
            VoiceError::NotInitialized => String::from_str("Voice system not initialized"),
            VoiceError::ModelsNotFound(path) => String::from_str("Models not found at: ").concat(
                path.as_str(),
            ),
        }
    }
}

impl From<AudioCaptureError> for VoiceError {
    fn from(cause: AudioCaptureError) -> (error: VoiceError) {
        VoiceError::AudioCapture(cause)
    }
}

impl FromSpecImpl<AudioCaptureError> for VoiceError {
    open spec fn obeys_from_spec() -> bool {
        true
    }

    open spec fn from_spec(cause: AudioCaptureError) -> VoiceError {
        VoiceError::AudioCapture(cause)
    }
}

impl From<WakeWordError> for VoiceError {
    fn from(cause: WakeWordError) -> (error: VoiceError) {
        VoiceError::WakeWord(cause)
    }
}

impl FromSpecImpl<WakeWordError> for VoiceError {
    open spec fn obeys_from_spec() -> bool {
        true
    }

    open spec fn from_spec(cause: WakeWordError) -> VoiceError {
        VoiceError::WakeWord(cause)
    }
}

/// What the processing loop does with a chunk.
#[derive(Debug, Clone, Copy, PartialEq, Eq, Structural)]
pub enum ChunkRoute {
    /// The system was stopped: leave the loop.
    Stop,
    /// Feed the chunk to the wake-word detector.
    WakeWord,
    /// Add the chunk to the utterance and ask the endpointer.
    Capture,
    /// Drop the chunk.
    Discard,
}

/// The state that the host thread and the processing thread share.
#[derive(Debug)]
pub struct VoiceControllerState<T> {
    pub state_machine: VoiceStateMachine<T>,
    pub config: VoiceConfig,
    pub is_running: bool,
    pub wake_word_enabled: bool,
    pub input_device: Option<String>,
    pub output_device: Option<String>,
}

impl<T: Copy> VoiceControllerState<T> {
    /// Whether everything but the state machine is the same in both.
    pub open spec fn same_settings(&self, other: &Self) -> bool {
        &&& self.config == other.config
        &&& self.is_running == other.is_running
        &&& self.wake_word_enabled == other.wake_word_enabled
        &&& self.input_device == other.input_device
        &&& self.output_device == other.output_device
    }

    /// Where a chunk goes in this state, `detector_present` saying whether
    /// the wake-word detector could be made.
    pub open spec fn route(&self, detector_present: bool) -> ChunkRoute {
        if !self.is_running {
            ChunkRoute::Stop
        } else if self.state_machine@.state == VoiceState::Idle {
            if self.wake_word_enabled && detector_present {
                ChunkRoute::WakeWord
            } else {
                ChunkRoute::Discard
            }
        } else if self.state_machine@.state == VoiceState::Listening {
            ChunkRoute::Capture
        } else {
            ChunkRoute::Discard
        }
    }

    /// A stopped controller: machine at rest, default tunables, wake word
    /// enabled, no device chosen.
    pub fn new() -> (state: Self)
        ensures
            state.state_machine@ == fresh::<T>(),
            state.config.sample_rate == 16000,
            state.config.chunk_size == 1280,
            state.config.mel_frame_count == 76,
            state.config.silence_frames_threshold == 16,
            !state.is_running,
            state.wake_word_enabled,
            state.input_device.is_none(),
            state.output_device.is_none(),
    {
        VoiceControllerState {
            state_machine: VoiceStateMachine::new(),
            config: VoiceConfig::default(),
            is_running: false,
            wake_word_enabled: true,
            input_device: None,
            output_device: None,
        }
    }

    /// Chooses the input device; it is opened at the next start.
    pub fn set_input_device(&mut self, device_name: Option<String>)
        ensures
            final(self).input_device == device_name,
            final(self).state_machine == old(self).state_machine,
            final(self).config == old(self).config,
            final(self).is_running == old(self).is_running,
            final(self).wake_word_enabled == old(self).wake_word_enabled,
            final(self).output_device == old(self).output_device,
    {
        self.input_device = device_name;
    }

    /// Chooses the output device.
    pub fn set_output_device(&mut self, device_name: Option<String>)
        ensures
            final(self).output_device == device_name,
            final(self).state_machine == old(self).state_machine,
            final(self).config == old(self).config,
            final(self).is_running == old(self).is_running,
            final(self).wake_word_enabled == old(self).wake_word_enabled,
            final(self).input_device == old(self).input_device,
    {
        self.output_device = device_name;
    }

    /// The chosen input device, if one was chosen.
    pub fn get_input_device(&self) -> (device_name: Option<String>)
        ensures
            device_name == self.input_device,
    {
        match &self.input_device {
            Some(name) => Some(name.clone()),
            None => None,
        }
    }

    /// The chosen output device, if one was chosen.
    pub fn get_output_device(&self) -> (device_name: Option<String>)
        ensures
            device_name == self.output_device,
    {
        match &self.output_device {
            Some(name) => Some(name.clone()),
            None => None,
        }
    }

    /// Decides a start. `models_dir` says where the models directory should
    /// be and whether it is there, `capture` how opening and starting capture
    /// went. A missing directory is reported first, then a capture failure;
    /// either leaves the controller stopped. Otherwise it runs.
    pub fn start(&mut self, models_dir: &ModelProbe, capture: Result<(), AudioCaptureError>) -> (started:
        Result<(), VoiceError>)
        ensures
            final(self).state_machine == old(self).state_machine,
            final(self).config == old(self).config,
            final(self).wake_word_enabled == old(self).wake_word_enabled,
            final(self).input_device == old(self).input_device,
            final(self).output_device == old(self).output_device,
            match started {
                Ok(()) => models_dir.exists && capture.is_ok() && final(self).is_running,
                Err(VoiceError::ModelsNotFound(path)) => !models_dir.exists && path@
                    == models_dir.path@ && final(self).is_running == old(self).is_running,
                Err(VoiceError::AudioCapture(cause)) => models_dir.exists && capture == Err::<
                    (),
                    AudioCaptureError,
                >(cause) && !final(self).is_running,
                Err(_) => false,
            },
    {
        if !models_dir.exists {
            return Err(VoiceError::ModelsNotFound(models_dir.path.clone()));
        }
        match capture {
            Ok(()) => {
                self.is_running = true;
                Ok(())
            },
            Err(cause) => {
                self.is_running = false;
                Err(VoiceError::AudioCapture(cause))
            },
        }
    }

    /// Stops the system. Stopping a stopped system changes nothing.
    pub fn stop(&mut self)
        ensures
            !final(self).is_running,
            final(self).state_machine == old(self).state_machine,
            final(self).config == old(self).config,
            final(self).wake_word_enabled == old(self).wake_word_enabled,
            final(self).input_device == old(self).input_device,
            final(self).output_device == old(self).output_device,
    {
        self.is_running = false;
    }

    /// Turns wake-word detection on or off.
    pub fn set_wake_word_enabled(&mut self, enabled: bool)
        ensures
            final(self).wake_word_enabled == enabled,
            final(self).state_machine == old(self).state_machine,
            final(self).config == old(self).config,
            final(self).is_running == old(self).is_running,
            final(self).input_device == old(self).input_device,
            final(self).output_device == old(self).output_device,
    {
        self.wake_word_enabled = enabled;
    }

    /// The machine's state.
    pub fn current_state(&self) -> (state: VoiceState)
        ensures
            state == self.state_machine@.state,
    {
        self.state_machine.state()
    }

    /// Whether the system runs.
    pub fn is_running(&self) -> (running: bool)
        ensures
            running == self.is_running,
    {
        self.is_running
    }

    /// What a command announces: the new state if `event` changed the state,
    /// nothing if it did not.
    pub open spec fn announced(&self, event: EventModel) -> Option<VoiceState> {
        let next = step(self.state_machine@, event).state;
        if next != self.state_machine@.state {
            Some(next)
        } else {
            None
        }
    }

    /// Hands `event` to the machine and returns the state to announce, if
    /// the state changed.
    pub fn dispatch(&mut self, event: VoiceEvent) -> (announce: Option<VoiceState>)
        ensures
            final(self).state_machine@ == step(old(self).state_machine@, event@),
            announce == old(self).announced(event@),
            final(self).same_settings(old(self)),
    {
        let before = self.state_machine.state();
        let result = self.state_machine.transition(event);
        if result.new_state != before {
            Some(result.new_state)
        } else {
            None
        }
    }

    /// Push-to-talk: hands `ManualTrigger` to the machine. Returns the state
    /// to announce, if it changed.
    pub fn manual_trigger(&mut self) -> (announce: Option<VoiceState>)
        ensures
            final(self).state_machine@ == step(
                old(self).state_machine@,
                EventModel::ManualTrigger,
            ),
            announce == old(self).announced(EventModel::ManualTrigger),
            final(self).same_settings(old(self)),
    {
        self.dispatch(VoiceEvent::ManualTrigger)
    }

    /// Hands `Cancel` to the machine. Returns the state to announce, if it
    /// changed.
    pub fn cancel(&mut self) -> (announce: Option<VoiceState>)
        ensures
            final(self).state_machine@ == step(old(self).state_machine@, EventModel::Cancel),
            announce == old(self).announced(EventModel::Cancel),
            final(self).same_settings(old(self)),
    {
        self.dispatch(VoiceEvent::Cancel)
    }

    /// Hands the transcription to the machine. Returns the state to
    /// announce, if it changed.
    pub fn transcription_complete(&mut self, text: String) -> (announce: Option<VoiceState>)
        ensures
            final(self).state_machine@ == step(
                old(self).state_machine@,
                EventModel::TranscriptionComplete(text@),
            ),
            announce == old(self).announced(EventModel::TranscriptionComplete(text@)),
            final(self).same_settings(old(self)),
    {
        self.dispatch(VoiceEvent::TranscriptionComplete(text))
    }

    /// Hands the reply to the machine. Returns the state to announce, if it
    /// changed.
    pub fn response_ready(&mut self, response: String) -> (announce: Option<VoiceState>)
        ensures
            final(self).state_machine@ == step(
                old(self).state_machine@,
                EventModel::ResponseReady(response@),
            ),
            announce == old(self).announced(EventModel::ResponseReady(response@)),
            final(self).same_settings(old(self)),
    {
        self.dispatch(VoiceEvent::ResponseReady(response))
    }

    /// Tells the machine that the reply was spoken. Returns the state to
    /// announce, if it changed.
    pub fn speech_complete(&mut self) -> (announce: Option<VoiceState>)
        ensures
            final(self).state_machine@ == step(
                old(self).state_machine@,
                EventModel::SpeechComplete,
            ),
            announce == old(self).announced(EventModel::SpeechComplete),
            final(self).same_settings(old(self)),
    {
        self.dispatch(VoiceEvent::SpeechComplete)
    }

    /// Where the next chunk goes.
    pub fn route_chunk(&self, detector_present: bool) -> (route: ChunkRoute)
        ensures
            route == self.route(detector_present),
    {
        if !self.is_running {
            ChunkRoute::Stop
        } else {
            let state = self.state_machine.state();
            if state == VoiceState::Idle {
                if self.wake_word_enabled && detector_present {
                    ChunkRoute::WakeWord
                } else {
                    ChunkRoute::Discard
                }
            } else if state == VoiceState::Listening {
                ChunkRoute::Capture
            } else {
                ChunkRoute::Discard
            }
        }
    }

    /// Takes the detector's verdict on a chunk that was routed to it. A hit
    /// hands `WakeWordDetected` to the machine, resets the endpointer for the
    /// utterance to come and empties the detector's window; the state to
    /// announce is returned. Without a hit nothing changes and nothing is
    /// announced.
    pub fn process_idle_state(
        &mut self,
        detected: bool,
        vad: &mut VoiceActivityDetector,
        window: &mut WakeWordDetector<T>,
    ) -> (announce: Option<VoiceState>)
        ensures
            final(self).same_settings(old(self)),
            final(window).mel_frame_count() == old(window).mel_frame_count(),
            final(window).mel_bands() == old(window).mel_bands(),
            detected ==> {
                &&& final(self).state_machine@ == step(
                    old(self).state_machine@,
                    EventModel::WakeWordDetected,
                )
                &&& final(vad)@ == vad_start(old(vad)@.threshold)
                &&& final(window)@ == Seq::<Seq<T>>::empty()
                &&& announce == Some(final(self).state_machine@.state)
            },
            !detected ==> {
                &&& final(self).state_machine@ == old(self).state_machine@
                &&& final(vad)@ == old(vad)@
                &&& final(window)@ == old(window)@
                &&& announce.is_none()
            },
    {
        if detected {
            let result = self.state_machine.transition(VoiceEvent::WakeWordDetected);
            vad.reset();
            window.reset();
            Some(result.new_state)
        } else {
            None
        }
    }

    /// Takes a chunk that was routed to capture, with the verdict on its
    /// level. The chunk is offered to the machine and the verdict to the
    /// endpointer. If that ends the utterance, `VadSpeechEnd` is handed to the
    /// machine, the endpointer is reset, the detector's window, if there is a
    /// detector, is emptied, and the transition is returned: its action
    /// carries the captured utterance. Otherwise nothing is returned.
    pub fn process_listening_state(
        &mut self,
        samples: &[T],
        is_silent: bool,
        vad: &mut VoiceActivityDetector,
        window: &mut Option<WakeWordDetector<T>>,
    ) -> (ended: Option<TransitionResult<T>>)
        ensures
            final(self).same_settings(old(self)),
            final(window).is_some() == old(window).is_some(),
            old(window).is_some() ==> final(window)->0.mel_frame_count() == old(
                window,
            )->0.mel_frame_count() && final(window)->0.mel_bands() == old(window)->0.mel_bands(),
            vad_verdict(old(vad)@, is_silent) == VadResult::SpeechEnd ==> {
                let heard = hear(old(self).state_machine@, samples@);
                &&& final(self).state_machine@ == step(heard, EventModel::VadSpeechEnd)
                &&& final(vad)@ == vad_start(old(vad)@.threshold)
                &&& old(window).is_some() ==> final(window)->0@ == Seq::<Seq<T>>::empty()
                &&& ended matches Some(result)
                &&& result.new_state == final(self).state_machine@.state
                &&& result.action_model() == action_for(
                    heard.state,
                    heard.audio,
                    EventModel::VadSpeechEnd,
                )
            },
            vad_verdict(old(vad)@, is_silent) != VadResult::SpeechEnd ==> {
                &&& final(self).state_machine@ == hear(old(self).state_machine@, samples@)
                &&& final(vad)@ == vad_next(old(vad)@, is_silent)
                &&& old(window).is_some() ==> final(window)->0@ == old(window)->0@
                &&& ended.is_none()
            },
    {
        self.state_machine.add_audio(samples);
        let verdict = vad.process(is_silent);
        if verdict == VadResult::SpeechEnd {
            let result = self.state_machine.transition(VoiceEvent::VadSpeechEnd);
            vad.reset();
            match window {
                Some(detector) => {
                    detector.reset();
                },
                None => {},
            }
            Some(result)
        } else {
            None
        }
    }
}

} // verus!
