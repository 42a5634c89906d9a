//! The interaction state machine: five states, one event at a time.
//!
//! The machine is modelled by [`MachineModel`]: its state and the samples it
//! has captured so far. [`step`] is the transition table over that model, and
//! the executable [`VoiceStateMachine::transition`] is proved against it.

use crate::sequences::concat;
use crate::sequences::concat_len;
use crate::sequences::total_len;
use std::time::Duration;
use std::time::Instant;
use vstd::prelude::*;

verus! {

/// `std::time::Instant`, carried through the machine as an opaque value.
#[verifier::external_type_specification]
#[verifier::external_body]
pub struct ExInstant(Instant);

/// Reads the monotonic clock with `Instant::now`. Nothing is claimed of the
/// value that comes back.
#[verifier::external_body]
fn clock_now() -> (now: Instant) {
    Instant::now()
}

/// Calls `Instant::elapsed` on `since`. Nothing is claimed of the duration.
#[verifier::external_body]
fn clock_elapsed(since: &Instant) -> (elapsed: Duration) {
    since.elapsed()
}

/// Where the interaction stands.
#[derive(Debug, Clone, Copy, PartialEq, Eq, Structural)]
pub enum VoiceState {
    /// Waiting for the wake word.
    Idle,
    /// Capturing the user's utterance.
    Listening,
    /// The utterance is with the speech-to-text collaborator.
    Transcribing,
    /// The text is with the dialogue collaborator.
    Processing,
    /// The reply is being spoken.
    Speaking,
}

impl Default for VoiceState {
    fn default() -> (state: Self)
        ensures
            state == VoiceState::Idle,
    {
        VoiceState::Idle
    }
}

impl VoiceState {
    /// The name under which the state is announced to event consumers.
    pub open spec fn wire_name(self) -> Seq<char> {
        match self {
            VoiceState::Idle => "idle"@,
            VoiceState::Listening => "listening"@,
            VoiceState::Transcribing => "transcribing"@,
            VoiceState::Processing => "processing"@,
            VoiceState::Speaking => "speaking"@,
        }
    }

    /// The state's wire name: lower case, as event consumers expect it.
    pub fn as_str(&self) -> (name: &'static str)
        ensures
            name@ == self.wire_name(),
    {
        match self {
            VoiceState::Idle => "idle",
            VoiceState::Listening => "listening",
            VoiceState::Transcribing => "transcribing",
            VoiceState::Processing => "processing",
            VoiceState::Speaking => "speaking",
        }
    }
}

/// What can happen to the machine.
#[derive(Debug, Clone)]
pub enum VoiceEvent {
    /// The wake phrase was heard.
    WakeWordDetected,
    /// The user asked to be listened to (push-to-talk).
    ManualTrigger,
    /// The endpointer saw the utterance end.
    VadSpeechEnd,
    /// The transcription of the utterance.
    TranscriptionComplete(String),
    /// The reply to speak.
    ResponseReady(String),
    /// The reply has been spoken.
    SpeechComplete,
    /// The user spoke over the reply.
    BargeIn,
    /// The listening window ran out.
    Timeout,
    /// A collaborator failed.
    Error(String),
    /// The user called the interaction off.
    Cancel,
}

/// An event with its texts as character sequences.
pub enum EventModel {
    WakeWordDetected,
    ManualTrigger,
    VadSpeechEnd,
    TranscriptionComplete(Seq<char>),
    ResponseReady(Seq<char>),
    SpeechComplete,
    BargeIn,
    Timeout,
    Error(Seq<char>),
    Cancel,
}

impl View for VoiceEvent {
    type V = EventModel;

    open spec fn view(&self) -> EventModel {
        match self {
            VoiceEvent::WakeWordDetected => EventModel::WakeWordDetected,
            VoiceEvent::ManualTrigger => EventModel::ManualTrigger,
            VoiceEvent::VadSpeechEnd => EventModel::VadSpeechEnd,
            VoiceEvent::TranscriptionComplete(text) => EventModel::TranscriptionComplete(text@),
            VoiceEvent::ResponseReady(text) => EventModel::ResponseReady(text@),
            VoiceEvent::SpeechComplete => EventModel::SpeechComplete,
            VoiceEvent::BargeIn => EventModel::BargeIn,
            VoiceEvent::Timeout => EventModel::Timeout,
            VoiceEvent::Error(message) => EventModel::Error(message@),
            VoiceEvent::Cancel => EventModel::Cancel,
        }
    }
}

/// What the caller is to do after a transition.
#[derive(Debug, Clone)]
pub enum StateAction<T> {
    /// Begin collecting the utterance.
    StartCapture,
    /// Stop collecting.
    StopCapture,
    /// Hand the captured utterance to speech-to-text. The samples are moved
    /// out of the machine.
    SendToStt(Vec<T>),
    /// Hand the transcription to the dialogue collaborator.
    ProcessText(String),
    /// Speak the reply.
    PlayTts(String),
    /// Silence the reply.
    StopTts,
    /// Report the failure.
    EmitError(String),
}

/// An action with its payload as a sequence.
pub enum ActionModel<T> {
    StartCapture,
    StopCapture,
    SendToStt(Seq<T>),
    ProcessText(Seq<char>),
    PlayTts(Seq<char>),
    StopTts,
    EmitError(Seq<char>),
}

impl<T> View for StateAction<T> {
    type V = ActionModel<T>;

    open spec fn view(&self) -> ActionModel<T> {
        match self {
            StateAction::StartCapture => ActionModel::StartCapture,
            StateAction::StopCapture => ActionModel::StopCapture,
            StateAction::SendToStt(audio) => ActionModel::SendToStt(audio@),
            StateAction::ProcessText(text) => ActionModel::ProcessText(text@),
            StateAction::PlayTts(text) => ActionModel::PlayTts(text@),
            StateAction::StopTts => ActionModel::StopTts,
            StateAction::EmitError(message) => ActionModel::EmitError(message@),
        }
    }
}

/// The state after a transition and the action it asks for, if any.
#[derive(Debug)]
pub struct TransitionResult<T> {
    pub new_state: VoiceState,
    pub action: Option<StateAction<T>>,
}

impl<T> TransitionResult<T> {
    /// The action, with its payload as a sequence.
    pub open spec fn action_model(&self) -> Option<ActionModel<T>> {
        match self.action {
            Some(action) => Some(action@),
            None => None,
        }
    }
}

/// The machine as the contracts see it.
pub struct MachineModel<T> {
    pub state: VoiceState,
    /// The samples captured in the current listening episode, oldest first.
    pub audio: Seq<T>,
}

/// The machine at rest, with nothing captured.
pub open spec fn fresh<T>() -> MachineModel<T> {
    MachineModel { state: VoiceState::Idle, audio: Seq::empty() }
}

/// The state that `event` leads to from `state`. A pair that the table does
/// not list leaves the state as it is; an error leads to `Idle` from anywhere.
pub open spec fn next_state(state: VoiceState, event: EventModel) -> VoiceState {
    match (state, event) {
        (VoiceState::Idle, EventModel::WakeWordDetected) => VoiceState::Listening,
        (VoiceState::Idle, EventModel::ManualTrigger) => VoiceState::Listening,
        (VoiceState::Listening, EventModel::VadSpeechEnd) => VoiceState::Transcribing,
        (VoiceState::Listening, EventModel::Timeout) => VoiceState::Idle,
        (VoiceState::Listening, EventModel::Cancel) => VoiceState::Idle,
        (VoiceState::Transcribing, EventModel::TranscriptionComplete(_)) => VoiceState::Processing,
        (VoiceState::Processing, EventModel::ResponseReady(_)) => VoiceState::Speaking,
        (VoiceState::Speaking, EventModel::SpeechComplete) => VoiceState::Idle,
        (VoiceState::Speaking, EventModel::BargeIn) => VoiceState::Listening,
        (VoiceState::Speaking, EventModel::Cancel) => VoiceState::Idle,
        (_, EventModel::Error(_)) => VoiceState::Idle,
        _ => state,
    }
}

/// The action that `event` asks for in `state`, `audio` being what the
/// machine has captured.
pub open spec fn action_for<T>(state: VoiceState, audio: Seq<T>, event: EventModel) -> Option<
    ActionModel<T>,
> {
    match (state, event) {
        (VoiceState::Idle, EventModel::WakeWordDetected) => Some(ActionModel::StartCapture),
        (VoiceState::Idle, EventModel::ManualTrigger) => Some(ActionModel::StartCapture),
        (VoiceState::Listening, EventModel::VadSpeechEnd) => Some(ActionModel::SendToStt(audio)),
        (VoiceState::Listening, EventModel::Timeout) => Some(ActionModel::StopCapture),
        (VoiceState::Listening, EventModel::Cancel) => Some(ActionModel::StopCapture),
        (VoiceState::Transcribing, EventModel::TranscriptionComplete(text)) => Some(
            ActionModel::ProcessText(text),
        ),
        (VoiceState::Processing, EventModel::ResponseReady(text)) => Some(
            ActionModel::PlayTts(text),
        ),
        (VoiceState::Speaking, EventModel::BargeIn) => Some(ActionModel::StopTts),
        (VoiceState::Speaking, EventModel::Cancel) => Some(ActionModel::StopTts),
        (_, EventModel::Error(message)) => Some(ActionModel::EmitError(message)),
        _ => None,
    }
}

/// Whether `event` empties the captured audio in `state`: on entry to
/// `Listening`, on every way out of it, and on every error.
pub open spec fn empties_audio(state: VoiceState, event: EventModel) -> bool {
    match (state, event) {
        (VoiceState::Idle, EventModel::WakeWordDetected) => true,
        (VoiceState::Idle, EventModel::ManualTrigger) => true,
        (VoiceState::Listening, EventModel::VadSpeechEnd) => true,
        (VoiceState::Listening, EventModel::Timeout) => true,
        (VoiceState::Listening, EventModel::Cancel) => true,
        (VoiceState::Speaking, EventModel::BargeIn) => true,
        (_, EventModel::Error(_)) => true,
        _ => false,
    }
}

/// The machine after `event`.
pub open spec fn step<T>(machine: MachineModel<T>, event: EventModel) -> MachineModel<T> {
    MachineModel {
        state: next_state(machine.state, event),
        audio: if empties_audio(machine.state, event) {
            Seq::empty()
        } else {
            machine.audio
        },
    }
}

/// The machine after `samples` were offered to it: kept while listening,
/// ignored otherwise.
pub open spec fn hear<T>(machine: MachineModel<T>, samples: Seq<T>) -> MachineModel<T> {
    MachineModel {
        state: machine.state,
        audio: if machine.state == VoiceState::Listening {
            machine.audio + samples
        } else {
            machine.audio
        },
    }
}

/// The interaction state machine. It owns the samples of the utterance that
/// is being captured.
#[derive(Debug)]
pub struct VoiceStateMachine<T> {
    state: VoiceState,
    last_transition: Instant,
    captured_audio: Vec<T>,
}

impl<T> View for VoiceStateMachine<T> {
    type V = MachineModel<T>;

    closed spec fn view(&self) -> MachineModel<T> {
        MachineModel { state: self.state, audio: self.captured_audio@ }
    }
}

impl<T: Copy> Default for VoiceStateMachine<T> {
    fn default() -> (machine: Self)
        ensures
            machine@ == fresh::<T>(),
    {
        VoiceStateMachine::new()
    }
}

impl<T: Copy> VoiceStateMachine<T> {
    /// The instant of the last change of state.
    pub closed spec fn last_transition(&self) -> Instant {
        self.last_transition
    }

    /// A machine at rest.
    pub fn new() -> (machine: Self)
        ensures
            machine@ == fresh::<T>(),
    {
        VoiceStateMachine {
            state: VoiceState::Idle,
            last_transition: clock_now(),
            captured_audio: Vec::new(),
        }
    }

    /// The current state.
    pub fn state(&self) -> (state: VoiceState)
        ensures
            state == self@.state,
    {
        self.state
    }

    /// How long the machine has been in its current state.
    pub fn time_in_state(&self) -> Duration {
        clock_elapsed(&self.last_transition)
    }

    /// Appends `samples` to the captured audio if the machine is listening;
    /// does nothing otherwise.
    pub fn add_audio(&mut self, samples: &[T])
        ensures
            final(self)@ == hear(old(self)@, samples@),
            final(self).last_transition() == old(self).last_transition(),
    {
        if self.state == VoiceState::Listening {
            let mut i: usize = 0;
            while i < samples.len()
                invariant
                    i <= samples.len(),
                    self.state == old(self).state,
                    self.last_transition == old(self).last_transition,
                    self.captured_audio@ == old(self).captured_audio@ + samples@.subrange(
                        0,
                        i as int,
                    ),
                decreases samples.len() - i,
            {
                self.captured_audio.push(samples[i]);
                i += 1;
                assert(self.captured_audio@ =~= old(self).captured_audio@ + samples@.subrange(
                    0,
                    i as int,
                ));
            }
            assert(samples@.subrange(0, i as int) =~= samples@);
        }
    }

    /// Takes one event. The new state, the action and what becomes of the
    /// captured audio are those of the transition table; the instant of the
    /// last transition moves only if the state changed.
    pub fn transition(&mut self, event: VoiceEvent) -> (result: TransitionResult<T>)
        ensures
            final(self)@ == step(old(self)@, event@),
            result.new_state == final(self)@.state,
            result.action_model() == action_for(old(self)@.state, old(self)@.audio, event@),
            final(self)@.state == old(self)@.state ==> final(self).last_transition() == old(
                self,
            ).last_transition(),
    {
        let current = self.state;
        let (new_state, action) = match event {
            VoiceEvent::Error(message) => {
                self.captured_audio.clear();
                (VoiceState::Idle, Some(StateAction::EmitError(message)))
            },
            VoiceEvent::WakeWordDetected | VoiceEvent::ManualTrigger => {
                if current == VoiceState::Idle {
                    self.captured_audio.clear();
                    (VoiceState::Listening, Some(StateAction::StartCapture))
                } else {
                    (current, None)
                }
            },
            VoiceEvent::VadSpeechEnd => {
                if current == VoiceState::Listening {
                    let mut audio: Vec<T> = Vec::new();
                    std::mem::swap(&mut audio, &mut self.captured_audio);
                    (VoiceState::Transcribing, Some(StateAction::SendToStt(audio)))
                } else {
                    (current, None)
                }
            },
            VoiceEvent::Timeout => {
                if current == VoiceState::Listening {
                    self.captured_audio.clear();
                    (VoiceState::Idle, Some(StateAction::StopCapture))
                } else {
                    (current, None)
                }
            },
            VoiceEvent::Cancel => {
                if current == VoiceState::Listening {
                    self.captured_audio.clear();
                    (VoiceState::Idle, Some(StateAction::StopCapture))
                } else if current == VoiceState::Speaking {
                    (VoiceState::Idle, Some(StateAction::StopTts))
                } else {
                    (current, None)
                }
            },
            VoiceEvent::TranscriptionComplete(text) => {
                if current == VoiceState::Transcribing {
                    (VoiceState::Processing, Some(StateAction::ProcessText(text)))
                } else {
                    (current, None)
                }
            },
            VoiceEvent::ResponseReady(text) => {
                if current == VoiceState::Processing {
                    (VoiceState::Speaking, Some(StateAction::PlayTts(text)))
                } else {
                    (current, None)
                }
            },
            VoiceEvent::SpeechComplete => {
                if current == VoiceState::Speaking {
                    (VoiceState::Idle, None)
                } else {
                    (current, None)
                }
            },
            VoiceEvent::BargeIn => {
                if current == VoiceState::Speaking {
                    self.captured_audio.clear();
                    (VoiceState::Listening, Some(StateAction::StopTts))
                } else {
                    (current, None)
                }
            },
        };
        if new_state != current {
            self.state = new_state;
            self.last_transition = clock_now();
        }
        TransitionResult { new_state, action }
    }

    /// Forces the machine to rest and drops what it had captured.
    pub fn reset(&mut self)
        ensures
            final(self)@ == fresh::<T>(),
    {
        self.state = VoiceState::Idle;
        self.last_transition = clock_now();
        self.captured_audio.clear();
    }
}

/// One thing offered to the machine: an event, or a chunk of samples.
pub enum InputModel<T> {
    Event(EventModel),
    Audio(Seq<T>),
}

/// The machine after one input.
pub open spec fn feed<T>(machine: MachineModel<T>, input: InputModel<T>) -> MachineModel<T> {
    match input {
        InputModel::Event(event) => step(machine, event),
        InputModel::Audio(samples) => hear(machine, samples),
    }
}

/// The machine after a sequence of inputs, taken in order.
pub open spec fn run<T>(machine: MachineModel<T>, inputs: Seq<InputModel<T>>) -> MachineModel<T>
    decreases inputs.len(),
{
    if inputs.len() == 0 {
        machine
    } else {
        feed(run(machine, inputs.drop_last()), inputs.last())
    }
}

/// Nothing is held outside `Listening`.
pub open spec fn quiet_outside_listening<T>(machine: MachineModel<T>) -> bool {
    machine.state != VoiceState::Listening ==> machine.audio.len() == 0
}

/// The chunks as inputs to the machine.
pub open spec fn audio_inputs<T>(chunks: Seq<Seq<T>>) -> Seq<InputModel<T>> {
    Seq::new(chunks.len(), |i: int| InputModel::Audio(chunks[i]))
}

/// Whatever came before, an error leaves the machine at rest with nothing
/// captured: a run of inputs that ends in an error ends in the fresh machine.
pub proof fn error_returns_to_rest<T>(machine: MachineModel<T>, inputs: Seq<InputModel<T>>)
    requires
        inputs.len() > 0,
        inputs.last() matches InputModel::Event(EventModel::Error(_)),
    ensures
        run(machine, inputs).state == VoiceState::Idle,
        run(machine, inputs).audio =~= Seq::<T>::empty(),
        run(machine, inputs) == fresh::<T>(),
{
}

/// Every input keeps the captured audio inside `Listening`.
pub proof fn feed_keeps_audio_inside_listening<T>(machine: MachineModel<T>, input: InputModel<T>)
    requires
        quiet_outside_listening(machine),
    ensures
        quiet_outside_listening(feed(machine, input)),
{
}

/// From a fresh machine, every run of inputs ends in one of the five states,
/// and with nothing captured unless that state is `Listening`.
pub proof fn run_stays_legal<T>(inputs: Seq<InputModel<T>>)
    ensures
        quiet_outside_listening(run(fresh::<T>(), inputs)),
        ({
            let state = run(fresh::<T>(), inputs).state;
            ||| state == VoiceState::Idle
            ||| state == VoiceState::Listening
            ||| state == VoiceState::Transcribing
            ||| state == VoiceState::Processing
            ||| state == VoiceState::Speaking
        }),
    decreases inputs.len(),
{
    if inputs.len() > 0 {
        run_stays_legal(inputs.drop_last());
        feed_keeps_audio_inside_listening(run(fresh::<T>(), inputs.drop_last()), inputs.last());
    }
}

/// While the machine listens, the chunks offered to it are appended in
/// order and the machine keeps listening.
pub proof fn listening_collects_chunks<T>(machine: MachineModel<T>, chunks: Seq<Seq<T>>)
    requires
        machine.state == VoiceState::Listening,
    ensures
        run(machine, audio_inputs(chunks)).state == VoiceState::Listening,
        run(machine, audio_inputs(chunks)).audio =~= machine.audio + concat(chunks),
    decreases chunks.len(),
{
    if chunks.len() > 0 {
        listening_collects_chunks(machine, chunks.drop_last());
        assert(audio_inputs(chunks).drop_last() =~= audio_inputs(chunks.drop_last()));
        assert(audio_inputs(chunks).last() == InputModel::Audio(chunks.last()));
    }
}

/// A listening episode hands over exactly what it heard. If `start` takes
/// the machine into `Listening` and `chunks` are then offered to it, the end
/// of speech asks for `SendToStt` with the chunks joined in order, whose
/// length is the sum of theirs, and leaves the machine with nothing captured.
pub proof fn episode_yields_its_chunks<T>(
    before: MachineModel<T>,
    start: EventModel,
    chunks: Seq<Seq<T>>,
)
    requires
        before.state != VoiceState::Listening,
        next_state(before.state, start) == VoiceState::Listening,
    ensures
        ({
            let heard = run(step(before, start), audio_inputs(chunks));
            &&& heard.state == VoiceState::Listening
            &&& action_for(heard.state, heard.audio, EventModel::VadSpeechEnd) == Some(
                ActionModel::SendToStt(concat(chunks)),
            )
            &&& concat(chunks).len() == total_len(chunks)
            &&& step(heard, EventModel::VadSpeechEnd).state == VoiceState::Transcribing
            &&& step(heard, EventModel::VadSpeechEnd).audio.len() == 0
        }),
{
    let entered = step(before, start);
    assert(entered.audio =~= Seq::<T>::empty());
    listening_collects_chunks(entered, chunks);
    concat_len(chunks);
    let heard = run(entered, audio_inputs(chunks));
    assert(heard.audio =~= concat(chunks));
}

} // verus!
