//! The endpointer: decides from a run of per-chunk silence verdicts when an
//! utterance has ended.
//!
//! Whether a chunk is silent is a comparison of levels that the caller
//! makes. The detector latches the first speech, counts the silent chunks
//! that follow it without interruption, and reports the end of speech once
//! the count reaches its threshold.

use crate::config::VoiceConfig;
use vstd::prelude::*;

verus! {

/// What the detector says of one chunk.
#[derive(Debug, Clone, Copy, PartialEq, Eq, Structural)]
pub enum VadResult {
    /// The chunk carries speech.
    Speech,
    /// The chunk is silent; the utterance may still go on.
    Silence,
    /// Enough silence has followed speech: the utterance is over.
    SpeechEnd,
}

/// The detector as the contracts see it.
pub struct VadModel {
    /// Silent chunks in a row that end an utterance.
    pub threshold: nat,
    /// Silent chunks since the last speech.
    pub silent_frames: nat,
    /// Whether speech was heard since the last reset.
    pub speech_detected: bool,
}

/// A detector that has heard nothing yet.
pub open spec fn vad_start(threshold: nat) -> VadModel {
    VadModel { threshold, silent_frames: 0, speech_detected: false }
}

/// The detector after one chunk. Speech latches and restarts the count;
/// silence counts only after speech, and the count stops at the largest
/// `usize`.
pub open spec fn vad_next(vad: VadModel, silent: bool) -> VadModel {
    if !silent {
        VadModel { threshold: vad.threshold, silent_frames: 0, speech_detected: true }
    } else if vad.speech_detected {
        VadModel {
            threshold: vad.threshold,
            silent_frames: if vad.silent_frames < usize::MAX {
                vad.silent_frames + 1
            } else {
                vad.silent_frames
            },
            speech_detected: true,
        }
    } else {
        vad
    }
}

/// The verdict on one chunk, given the detector before it.
pub open spec fn vad_verdict(vad: VadModel, silent: bool) -> VadResult {
    if !silent {
        VadResult::Speech
    } else if vad.speech_detected && vad_next(vad, silent).silent_frames >= vad.threshold {
        VadResult::SpeechEnd
    } else {
        VadResult::Silence
    }
}

/// The detector after a run of chunks, given by their silence verdicts.
pub open spec fn vad_run(vad: VadModel, silent: Seq<bool>) -> VadModel
    decreases silent.len(),
{
    if silent.len() == 0 {
        vad
    } else {
        vad_next(vad_run(vad, silent.drop_last()), silent.last())
    }
}

/// `count` silent chunks.
pub open spec fn silence(count: nat) -> Seq<bool> {
    Seq::new(count, |i: int| true)
}

/// The endpointer's state within one utterance.
#[derive(Debug)]
pub struct VoiceActivityDetector {
    silence_frames_threshold: usize,
    silent_frame_count: usize,
    speech_detected: bool,
}

impl View for VoiceActivityDetector {
    type V = VadModel;

    closed spec fn view(&self) -> VadModel {
        VadModel {
            threshold: self.silence_frames_threshold as nat,
            silent_frames: self.silent_frame_count as nat,
            speech_detected: self.speech_detected,
        }
    }
}

impl VoiceActivityDetector {
    /// A detector that has heard nothing, with the threshold of `config`.
    pub fn new(config: &VoiceConfig) -> (vad: Self)
        ensures
            vad@ == vad_start(config.silence_frames_threshold as nat),
    {
        VoiceActivityDetector {
            silence_frames_threshold: config.silence_frames_threshold,
            silent_frame_count: 0,
            speech_detected: false,
        }
    }

    /// Takes the verdict on one chunk, `is_silent`, and says where the
    /// utterance stands. The end of speech is reported only if speech was
    /// heard before this chunk; the detector does not reset itself after it.
    pub fn process(&mut self, is_silent: bool) -> (result: VadResult)
        ensures
            final(self)@ == vad_next(old(self)@, is_silent),
            result == vad_verdict(old(self)@, is_silent),
            result == VadResult::SpeechEnd ==> old(self)@.speech_detected,
    {
        if !is_silent {
            self.speech_detected = true;
            self.silent_frame_count = 0;
            VadResult::Speech
        } else if self.speech_detected {
            if self.silent_frame_count < usize::MAX {
                self.silent_frame_count += 1;
            }
            if self.silent_frame_count >= self.silence_frames_threshold {
                VadResult::SpeechEnd
            } else {
                VadResult::Silence
            }
        } else {
            VadResult::Silence
        }
    }

    /// Forgets the utterance: no speech heard, no silence counted. The
    /// threshold stays.
    pub fn reset(&mut self)
        ensures
            final(self)@ == vad_start(old(self)@.threshold),
    {
        self.silent_frame_count = 0;
        self.speech_detected = false;
    }

    /// Whether speech was heard since the last reset.
    pub fn has_speech(&self) -> (heard: bool)
        ensures
            heard == self@.speech_detected,
    {
        self.speech_detected
    }

    /// Silent chunks since the last speech.
    pub fn silent_frames(&self) -> (count: usize)
        ensures
            count == self@.silent_frames,
    {
        self.silent_frame_count
    }
}

/// Speech is latched exactly when some chunk of the run was not silent, and
/// nothing is counted before that.
pub proof fn speech_latch_follows_speech(threshold: nat, silent: Seq<bool>)
    ensures
        vad_run(vad_start(threshold), silent).speech_detected <==> exists|j: int|
            0 <= j < silent.len() && !silent[j],
        vad_run(vad_start(threshold), silent).threshold == threshold,
        !vad_run(vad_start(threshold), silent).speech_detected ==> vad_run(
            vad_start(threshold),
            silent,
        ).silent_frames == 0,
    decreases silent.len(),
{
    if silent.len() > 0 {
        let earlier = silent.drop_last();
        speech_latch_follows_speech(threshold, earlier);
        if vad_run(vad_start(threshold), earlier).speech_detected {
            let j = choose|j: int| 0 <= j < earlier.len() && !earlier[j];
            assert(!silent[j]);
        } else if !silent.last() {
            assert(!silent[silent.len() - 1]);
        } else {
            assert forall|j: int| 0 <= j < silent.len() implies silent[j] by {
                if j < earlier.len() {
                    assert(earlier[j] == silent[j]);
                }
            }
        }
    }
}

/// The end of speech is never reported before speech: if the verdict on the
/// chunk after a run is `SpeechEnd`, some chunk of the run was not silent and
/// the latch was already set.
pub proof fn speech_end_needs_speech(threshold: nat, silent: Seq<bool>, next: bool)
    requires
        vad_verdict(vad_run(vad_start(threshold), silent), next) == VadResult::SpeechEnd,
    ensures
        vad_run(vad_start(threshold), silent).speech_detected,
        exists|j: int| 0 <= j < silent.len() && !silent[j],
{
    speech_latch_follows_speech(threshold, silent);
}

/// After speech, silent chunks are counted one by one.
pub proof fn silence_is_counted(vad: VadModel, count: nat)
    requires
        vad.speech_detected,
        vad.silent_frames + count <= usize::MAX,
    ensures
        vad_run(vad, silence(count)) == (VadModel {
            threshold: vad.threshold,
            silent_frames: vad.silent_frames + count,
            speech_detected: true,
        }),
    decreases count,
{
    if count > 0 {
        silence_is_counted(vad, (count - 1) as nat);
        assert(silence(count).drop_last() =~= silence((count - 1) as nat));
    } else {
        assert(silence(count) =~= Seq::<bool>::empty());
    }
}

/// Silence after speech ends the utterance once: of the first `threshold`
/// silent chunks that follow speech, the last one and no other is answered
/// with `SpeechEnd`.
pub proof fn silence_ends_speech_once(vad: VadModel, earlier: nat)
    requires
        vad.speech_detected,
        vad.silent_frames == 0,
        1 <= vad.threshold <= usize::MAX,
        earlier < vad.threshold,
    ensures
        vad_verdict(vad_run(vad, silence(earlier)), true) == if earlier + 1 == vad.threshold {
            VadResult::SpeechEnd
        } else {
            VadResult::Silence
        },
{
    silence_is_counted(vad, earlier);
}

} // verus!
