//! The wake-word detector's window: what goes into the embedding model and
//! when.
//!
//! The three models are run by the caller. This module holds everything
//! between their runs that does not compute on sample values: which files
//! must be there, how the output of the mel model becomes one frame of 32
//! bands, the sliding window of 76 frames, the shapes of the model inputs,
//! and which value of the classifier's output is the score.

use crate::buffer::MelBuffer;
use crate::config::VoiceConfig;
use crate::config::MEL_BANDS;
use crate::sequences::concat;
use crate::sequences::keep_last;
use vstd::prelude::*;

verus! {

/// Why the detector could not be made, or could not score a chunk.
#[derive(Debug, Clone)]
pub enum WakeWordError {
    /// A model session could not be set up.
    ModelLoadError(String),
    /// A model run failed, or its input or output did not have the shape or
    /// type that was expected.
    InferenceError(String),
    /// A model file is not where it should be.
    ModelNotFound(String),
}

impl WakeWordError {
    /// The error as a sentence, in characters.
    pub open spec fn text(&self) -> Seq<char> {
        match self {
            WakeWordError::ModelLoadError(detail) => "Failed to load model: "@ + detail@,
            WakeWordError::InferenceError(detail) => "Inference error: "@ + detail@,
            WakeWordError::ModelNotFound(path) => "Model not found: "@ + path@,
        }
    }

    /// The error as a sentence.
    pub fn message(&self) -> (message: String)
        ensures
            message@ == self.text(),
    {
        match self {
            WakeWordError::ModelLoadError(detail) => String::from_str(
                "Failed to load model: ",
            ).concat(detail.as_str()),
            WakeWordError::InferenceError(detail) => String::from_str("Inference error: ").concat(
                detail.as_str(),
            ),
            WakeWordError::ModelNotFound(path) => String::from_str("Model not found: ").concat(
                path.as_str(),
            ),
        }
    }
}

/// One of the three models of the cascade, in the order in which they run.
#[derive(Debug, Clone, Copy, PartialEq, Eq, Structural)]
pub enum ModelFile {
    /// Audio chunk to mel spectrogram.
    MelSpectrogram,
    /// Window of mel frames to embedding.
    Embedding,
    /// Embedding to detection score.
    WakeWord,
}

impl ModelFile {
    /// The name of the model's file in the models directory, in characters.
    pub open spec fn name(self) -> Seq<char> {
        match self {
            ModelFile::MelSpectrogram => "melspectrogram.onnx"@,
            ModelFile::Embedding => "embedding_model.onnx"@,
            ModelFile::WakeWord => "hey_jarvis.onnx"@,
        }
    }

    /// The name of the model's file in the models directory.
    pub fn file_name(&self) -> (name: &'static str)
        ensures
            name@ == self.name(),
    {
        match self {
            ModelFile::MelSpectrogram => "melspectrogram.onnx",
            ModelFile::Embedding => "embedding_model.onnx",
            ModelFile::WakeWord => "hey_jarvis.onnx",
        }
    }
}

/// Where a model file should be, and whether it was found there.
#[derive(Debug, Clone)]
pub struct ModelProbe {
    /// The file's path, as it is reported when the file is missing.
    pub path: String,
    /// Whether the file exists.
    pub exists: bool,
}

/// Checks that the three model files are there. The first one that is
/// missing, in the order in which the models run, is reported by its path.
pub fn check_model_files(
    melspectrogram: &ModelProbe,
    embedding: &ModelProbe,
    wake_word: &ModelProbe,
) -> (checked: Result<(), WakeWordError>)
    ensures
        match checked {
            Ok(()) => melspectrogram.exists && embedding.exists && wake_word.exists,
            Err(WakeWordError::ModelNotFound(path)) => if !melspectrogram.exists {
                path@ == melspectrogram.path@
            } else if !embedding.exists {
                path@ == embedding.path@
            } else {
                !wake_word.exists && path@ == wake_word.path@
            },
            Err(_) => false,
        },
{
    if !melspectrogram.exists {
        Err(WakeWordError::ModelNotFound(melspectrogram.path.clone()))
    } else if !embedding.exists {
        Err(WakeWordError::ModelNotFound(embedding.path.clone()))
    } else if !wake_word.exists {
        Err(WakeWordError::ModelNotFound(wake_word.path.clone()))
    } else {
        Ok(())
    }
}

/// The directory that is searched last, relative to the working directory,
/// and that stands in if the models were found nowhere.
pub const FALLBACK_MODELS_DIR: &'static str = "resources/models";

/// The path of the first candidate that was found, or the fallback.
pub open spec fn first_found(candidates: Seq<ModelProbe>) -> Seq<char>
    decreases candidates.len(),
{
    if candidates.len() == 0 {
        FALLBACK_MODELS_DIR@
    } else if candidates[0].exists {
        candidates[0].path@
    } else {
        first_found(candidates.drop_first())
    }
}

/// Picks the models directory: the first candidate, in the order given, in
/// which the mel-spectrogram model was found; the fallback if there is none.
pub fn get_models_dir(candidates: &Vec<ModelProbe>) -> (dir: String)
    ensures
        dir@ == first_found(candidates@),
{
    let mut i: usize = 0;
    assert(candidates@.skip(0) =~= candidates@);
    while i < candidates.len()
        invariant
            i <= candidates@.len(),
            first_found(candidates@.skip(i as int)) == first_found(candidates@),
        decreases candidates.len() - i,
    {
        if candidates[i].exists {
            return candidates[i].path.clone();
        }
        assert(candidates@.skip(i as int).drop_first() =~= candidates@.skip(i + 1));
        i += 1;
    }
    String::from_str(FALLBACK_MODELS_DIR)
}

/// The first `width` values of `values`, or all of them followed by as many
/// `fill` as are missing.
pub open spec fn fitted<T>(values: Seq<T>, width: nat, fill: T) -> Seq<T> {
    Seq::new(
        width,
        |i: int|
            if i < values.len() {
                values[i]
            } else {
                fill
            },
    )
}

/// The window of mel frames that the detector slides over the stream. Its
/// view is the frames it holds, oldest first.
#[derive(Debug)]
pub struct WakeWordDetector<T> {
    mel_buffer: MelBuffer<T>,
}

impl<T> View for WakeWordDetector<T> {
    type V = Seq<Seq<T>>;

    closed spec fn view(&self) -> Seq<Seq<T>> {
        self.mel_buffer@
    }
}

impl<T: Copy> WakeWordDetector<T> {
    /// Frames in a full window.
    pub closed spec fn spec_mel_frame_count(&self) -> usize {
        self.mel_buffer.capacity()
    }

    /// Values in a frame.
    pub closed spec fn spec_mel_bands(&self) -> usize {
        self.mel_buffer.frame_size()
    }

    /// Frames in a full window.
    #[verifier::when_used_as_spec(spec_mel_frame_count)]
    pub fn mel_frame_count(&self) -> (count: usize)
        ensures
            count == self.mel_frame_count(),
    {
        self.mel_buffer.capacity()
    }

    /// Values in a frame.
    #[verifier::when_used_as_spec(spec_mel_bands)]
    pub fn mel_bands(&self) -> (bands: usize)
        ensures
            bands == self.mel_bands(),
    {
        self.mel_buffer.frame_size()
    }

    /// A detector with an empty window of `config.mel_frame_count` frames of
    /// 32 bands.
    pub fn new(config: &VoiceConfig) -> (detector: Self)
        ensures
            detector@ == Seq::<Seq<T>>::empty(),
            detector.mel_frame_count() == config.mel_frame_count,
            detector.mel_bands() == 32,
    {
        WakeWordDetector { mel_buffer: MelBuffer::new(config.mel_frame_count, MEL_BANDS) }
    }

    /// The shape of the mel model's input for a chunk of `samples` samples:
    /// one row of that many.
    pub fn mel_input_shape(samples: usize) -> (shape: [usize; 2])
        ensures
            shape@ == seq![1usize, samples],
    {
        let shape = [1usize, samples];
        assert(shape@ =~= seq![1usize, samples]);
        shape
    }

    /// One mel frame out of the mel model's flat output: its first values,
    /// as many as there are bands, with `zero` for each that is missing.
    pub fn mel_frame(&self, output: &[T], zero: T) -> (frame: Vec<T>)
        ensures
            frame@ == fitted(output@, self.mel_bands() as nat, zero),
            frame@.len() == self.mel_bands(),
    {
        let bands = self.mel_buffer.frame_size();
        let mut frame: Vec<T> = Vec::new();
        let mut i: usize = 0;
        while i < bands
            invariant
                i <= bands,
                frame@ == fitted(output@, i as nat, zero),
            decreases bands - i,
        {
            let value = if i < output.len() {
                output[i]
            } else {
                zero
            };
            frame.push(value);
            i += 1;
            assert(frame@ =~= fitted(output@, i as nat, zero));
        }
        frame
    }

    /// Slides the window over `frame`: the frame enters, and the oldest one
    /// leaves if the window was full. Once the window is full its frames are
    /// handed out, joined oldest first, as the embedding model's input;
    /// before that nothing is.
    pub fn push_mel_frame(&mut self, frame: Vec<T>) -> (window: Option<Vec<T>>)
        requires
            frame@.len() == old(self).mel_bands(),
        ensures
            final(self)@ == keep_last(old(self)@.push(frame@), old(self).mel_frame_count() as nat),
            final(self).mel_frame_count() == old(self).mel_frame_count(),
            final(self).mel_bands() == old(self).mel_bands(),
            match window {
                Some(values) => final(self)@.len() == final(self).mel_frame_count() && values@
                    == concat(final(self)@) && values@.len() == final(self).mel_frame_count()
                    * final(self).mel_bands(),
                None => final(self)@.len() < final(self).mel_frame_count(),
            },
    {
        self.mel_buffer.push_frame(frame);
        if self.mel_buffer.is_ready() {
            Some(self.mel_buffer.get_flattened())
        } else {
            None
        }
    }

    /// The shape of the embedding model's input: one window of
    /// `mel_frame_count` frames of `mel_bands` values.
    pub fn embedding_input_shape(&self) -> (shape: [usize; 3])
        ensures
            shape@ == seq![1usize, self.mel_frame_count(), self.mel_bands()],
    {
        let shape = [1usize, self.mel_buffer.capacity(), self.mel_buffer.frame_size()];
        assert(shape@ =~= seq![1usize, self.mel_frame_count(), self.mel_bands()]);
        shape
    }

    /// The shape of the classifier's input for an embedding of `values`
    /// values: one row of that many.
    pub fn classifier_input_shape(values: usize) -> (shape: [usize; 2])
        ensures
            shape@ == seq![1usize, values],
    {
        let shape = [1usize, values];
        assert(shape@ =~= seq![1usize, values]);
        shape
    }

    /// The detection score in the classifier's flat output: its first value,
    /// or `zero` if the output is empty.
    pub fn score(output: &[T], zero: T) -> (score: T)
        ensures
            score == if output@.len() > 0 {
                output@[0]
            } else {
                zero
            },
    {
        if output.len() > 0 {
            output[0]
        } else {
            zero
        }
    }

    /// Empties the window; its size stays.
    pub fn reset(&mut self)
        ensures
            final(self)@ == Seq::<Seq<T>>::empty(),
            final(self).mel_frame_count() == old(self).mel_frame_count(),
            final(self).mel_bands() == old(self).mel_bands(),
    {
        self.mel_buffer.clear();
    }
}

} // verus!
