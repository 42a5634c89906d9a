//! The capture side: which device to open, and how the samples that arrive
//! from it are cut into chunks of a fixed size without losing or reordering
//! any.

use crate::config::CAPTURE_CHUNK_SIZE;
use crate::sequences::frames;
use crate::sequences::full_chunks;
use crate::sequences::remainder;
use crate::sequences::views;
use vstd::prelude::*;
use vstd::slice::slice_subrange;

verus! {

/// Why capture could not be opened or started.
#[derive(Debug, Clone)]
pub enum AudioCaptureError {
    /// The host has no default input device.
    NoInputDevice,
    /// No input device has the name that was asked for.
    DeviceNotFound(String),
    /// The device's configuration could not be read, or its sample format
    /// is not one that capture accepts.
    ConfigError(String),
    /// The stream could not be built or started.
    StreamError(String),
    /// The resampler could not be made.
    ResamplerError(String),
}

impl AudioCaptureError {
    /// The error as a sentence, in characters.
    pub open spec fn text(&self) -> Seq<char> {
        match self {
            AudioCaptureError::NoInputDevice => "No input device available"@,
            AudioCaptureError::DeviceNotFound(name) => "Device not found: "@ + name@,
            AudioCaptureError::ConfigError(detail) => "Failed to get default stream config: "@
                + detail@,
            AudioCaptureError::StreamError(detail) => "Failed to build input stream: "@ + detail@,
            AudioCaptureError::ResamplerError(detail) => "Resampler error: "@ + detail@,
        }
    }

    /// The error as a sentence.
    pub fn message(&self) -> (message: String)
        ensures
            message@ == self.text(),
    {
        match self {
            AudioCaptureError::NoInputDevice => String::from_str("No input device available"),
            AudioCaptureError::DeviceNotFound(name) => String::from_str(
                "Device not found: ",
            ).concat(name.as_str()),
            AudioCaptureError::ConfigError(detail) => String::from_str(
                "Failed to get default stream config: ",
            ).concat(detail.as_str()),
            AudioCaptureError::StreamError(detail) => String::from_str(
                "Failed to build input stream: ",
            ).concat(detail.as_str()),
            AudioCaptureError::ResamplerError(detail) => String::from_str(
                "Resampler error: ",
            ).concat(detail.as_str()),
        }
    }
}

/// An audio device as it is listed to the user.
#[derive(Debug, Clone)]
pub struct AudioDeviceInfo {
    /// The device's name, by which it is selected.
    pub name: String,
    /// Whether the host uses this device by default.
    pub is_default: bool,
}

/// Whether `name` is the name of the default device.
pub open spec fn names_default(default_name: Option<String>, name: Seq<char>) -> bool {
    match default_name {
        Some(default) => default@ == name,
        None => false,
    }
}

/// Lists the devices with the given names, in order, marking each one whose
/// name is that of the default device.
pub fn describe_devices(names: &Vec<String>, default_name: &Option<String>) -> (devices: Vec<
    AudioDeviceInfo,
>)
    ensures
        devices@.len() == names@.len(),
        forall|i: int|
            0 <= i < names@.len() ==> (#[trigger] devices@[i]).name@ == names@[i]@
                && devices@[i].is_default == names_default(*default_name, names@[i]@),
{
    let mut devices: Vec<AudioDeviceInfo> = Vec::new();
    let mut i: usize = 0;
    while i < names.len()
        invariant
            i <= names@.len(),
            devices@.len() == i,
            forall|j: int|
                0 <= j < i ==> (#[trigger] devices@[j]).name@ == names@[j]@
                    && devices@[j].is_default == names_default(*default_name, names@[j]@),
        decreases names.len() - i,
    {
        let name = names[i].clone();
        let is_default = match default_name {
            Some(default) => *default == name,
            None => false,
        };
        devices.push(AudioDeviceInfo { name, is_default });
        i += 1;
    }
    devices
}

/// The device that capture is to open.
#[derive(Debug, Clone, Copy, PartialEq, Eq, Structural)]
pub enum DeviceChoice {
    /// The host's default input device.
    Default,
    /// The input device at this position of the host's list.
    Listed(usize),
}

/// Whether no name before position `end` equals `wanted`.
pub open spec fn absent_before(names: Seq<String>, wanted: Seq<char>, end: int) -> bool {
    forall|j: int| 0 <= j < end ==> (#[trigger] names[j])@ != wanted
}

/// Picks the input device. With a name, the first listed device of that name
/// is chosen, and there must be one; without a name the default device is
/// chosen, and the host must have one.
pub fn select_device(names: &Vec<String>, wanted: &Option<String>, has_default: bool) -> (choice:
    Result<DeviceChoice, AudioCaptureError>)
    ensures
        match (*wanted, choice) {
            (Some(name), Ok(DeviceChoice::Listed(i))) => i < names@.len() && names@[i as int]@
                == name@ && absent_before(names@, name@, i as int),
            (Some(name), Err(AudioCaptureError::DeviceNotFound(missing))) => missing@ == name@
                && absent_before(names@, name@, names@.len() as int),
            (None, Ok(DeviceChoice::Default)) => has_default,
            (None, Err(AudioCaptureError::NoInputDevice)) => !has_default,
            _ => false,
        },
{
    match wanted {
        Some(name) => {
            let mut i: usize = 0;
            while i < names.len()
                invariant
                    i <= names@.len(),
                    *wanted == Some(*name),
                    absent_before(names@, name@, i as int),
                decreases names.len() - i,
            {
                if names[i] == *name {
                    return Ok(DeviceChoice::Listed(i));
                }
                i += 1;
            }
            Err(AudioCaptureError::DeviceNotFound(name.clone()))
        },
        None => {
            if has_default {
                Ok(DeviceChoice::Default)
            } else {
                Err(AudioCaptureError::NoInputDevice)
            }
        },
    }
}

/// Whether capture has to resample: the device does not run at the rate
/// that the pipeline works on.
pub fn needs_resampling(device_rate: u32, target_rate: u32) -> (needed: bool)
    ensures
        needed == (device_rate != target_rate),
{
    device_rate != target_rate
}

/// The samples that have arrived from the device and have not yet been
/// forwarded. Its view is those samples, oldest first.
#[derive(Debug)]
pub struct ChunkAccumulator<T> {
    pending: Vec<T>,
}

impl<T> View for ChunkAccumulator<T> {
    type V = Seq<T>;

    closed spec fn view(&self) -> Seq<T> {
        self.pending@
    }
}

impl<T: Copy> ChunkAccumulator<T> {
    /// An accumulator that holds nothing.
    pub fn new() -> (accumulator: Self)
        ensures
            accumulator@ == Seq::<T>::empty(),
    {
        ChunkAccumulator { pending: Vec::new() }
    }

    /// How many samples wait to be forwarded.
    pub fn len(&self) -> (len: usize)
        ensures
            len == self@.len(),
    {
        self.pending.len()
    }

    /// Appends `samples` to what is waiting.
    pub fn extend(&mut self, samples: &[T])
        ensures
            final(self)@ == old(self)@ + samples@,
    {
        let mut i: usize = 0;
        while i < samples.len()
            invariant
                i <= samples.len(),
                self.pending@ == old(self).pending@ + samples@.subrange(0, i as int),
            decreases samples.len() - i,
        {
            self.pending.push(samples[i]);
            i += 1;
            assert(self.pending@ =~= old(self).pending@ + samples@.subrange(0, i as int));
        }
        assert(samples@.subrange(0, i as int) =~= samples@);
    }

    /// Takes the oldest 1024 samples if that many are waiting, and leaves
    /// the rest; takes nothing otherwise.
    pub fn next_chunk(&mut self) -> (chunk: Option<Vec<T>>)
        ensures
            match chunk {
                Some(taken) => old(self)@.len() >= CAPTURE_CHUNK_SIZE && taken@ == old(self)@.take(
                    CAPTURE_CHUNK_SIZE as int,
                ) && final(self)@ == old(self)@.skip(CAPTURE_CHUNK_SIZE as int),
                None => old(self)@.len() < CAPTURE_CHUNK_SIZE && final(self)@ == old(self)@,
            },
    {
        if self.pending.len() >= CAPTURE_CHUNK_SIZE {
            let mut taken = self.pending.split_off(CAPTURE_CHUNK_SIZE);
            std::mem::swap(&mut taken, &mut self.pending);
            assert(taken@ =~= old(self)@.take(CAPTURE_CHUNK_SIZE as int));
            assert(self@ =~= old(self)@.skip(CAPTURE_CHUNK_SIZE as int));
            Some(taken)
        } else {
            None
        }
    }

    /// Takes every full chunk that is waiting, oldest first, and leaves
    /// what does not fill one.
    pub fn drain_chunks(&mut self) -> (chunks: Vec<Vec<T>>)
        ensures
            views(chunks@) == full_chunks(old(self)@, CAPTURE_CHUNK_SIZE as nat),
            final(self)@ == remainder(old(self)@, CAPTURE_CHUNK_SIZE as nat),
    {
        let mut chunks: Vec<Vec<T>> = Vec::new();
        assert(views(chunks@) =~= Seq::<Seq<T>>::empty());
        loop
            invariant
                views(chunks@) + full_chunks(self@, CAPTURE_CHUNK_SIZE as nat) =~= full_chunks(
                    old(self)@,
                    CAPTURE_CHUNK_SIZE as nat,
                ),
                remainder(self@, CAPTURE_CHUNK_SIZE as nat) == remainder(
                    old(self)@,
                    CAPTURE_CHUNK_SIZE as nat,
                ),
            ensures
                views(chunks@) =~= full_chunks(old(self)@, CAPTURE_CHUNK_SIZE as nat),
                self@ == remainder(old(self)@, CAPTURE_CHUNK_SIZE as nat),
            decreases self@.len(),
        {
            let ghost before = chunks@;
            match self.next_chunk() {
                Some(taken) => {
                    chunks.push(taken);
                    assert(views(chunks@) =~= views(before) + seq![taken@]);
                },
                None => {
                    break ;
                },
            }
        }
        chunks
    }

    /// Takes in `samples` and hands out every full chunk that is then
    /// waiting. Over any run of calls the chunks handed out, joined in
    /// order, are the samples taken in, in order, short of what still waits.
    pub fn accumulate(&mut self, samples: &[T]) -> (chunks: Vec<Vec<T>>)
        ensures
            views(chunks@) == full_chunks(old(self)@ + samples@, CAPTURE_CHUNK_SIZE as nat),
            final(self)@ == remainder(old(self)@ + samples@, CAPTURE_CHUNK_SIZE as nat),
    {
        self.extend(samples);
        self.drain_chunks()
    }
}

/// The format in which a device delivers its samples.
#[derive(Debug, Clone, Copy, PartialEq, Eq, Structural)]
pub enum SampleKind {
    /// 32-bit floating point.
    Float32,
    /// Signed 16-bit integers.
    Int16,
    /// Unsigned 16-bit integers.
    Uint16,
    /// Anything else.
    Other,
}

/// Accepts the three formats that capture converts, and refuses the others
/// with a configuration error.
pub fn accept_sample_kind(kind: SampleKind) -> (accepted: Result<SampleKind, AudioCaptureError>)
    ensures
        match accepted {
            Ok(same) => same == kind && kind != SampleKind::Other,
            Err(AudioCaptureError::ConfigError(detail)) => kind == SampleKind::Other && detail@
                == "Unsupported sample format"@,
            Err(_) => false,
        },
{
    match kind {
        SampleKind::Other => Err(
            AudioCaptureError::ConfigError(String::from_str("Unsupported sample format")),
        ),
        _ => Ok(kind),
    }
}

/// What is forwarded of a resampler's answer, which holds one vector for
/// each channel: the first channel's samples, unless there is no channel or
/// the first one is empty.
pub fn first_channel<T>(channels: Vec<Vec<T>>) -> (output: Option<Vec<T>>)
    ensures
        match output {
            Some(samples) => channels@.len() > 0 && samples@ == channels@[0]@ && samples@.len()
                > 0,
            None => channels@.len() == 0 || channels@[0]@.len() == 0,
        },
{
    let mut channels = channels;
    if channels.len() == 0 {
        None
    } else {
        let samples = channels.swap_remove(0);
        if samples.len() == 0 {
            None
        } else {
            Some(samples)
        }
    }
}

/// What is forwarded of a chunk that needs no resampling: the chunk, unless
/// it is empty.
pub fn unless_empty<T>(chunk: Vec<T>) -> (output: Option<Vec<T>>)
    ensures
        match output {
            Some(samples) => samples@ == chunk@ && chunk@.len() > 0,
            None => chunk@.len() == 0,
        },
{
    if chunk.len() == 0 {
        None
    } else {
        Some(chunk)
    }
}

/// Whether `value` is a result of `mix` on a frame that holds `frame`.
pub open spec fn mixed_from<T, F: Fn(&[T]) -> T>(mix: F, frame: Seq<T>, value: T) -> bool {
    exists|samples: &[T]| samples@ == frame && call_ensures(mix, (samples,), value)
}

/// Whether `out` is a downmix of `data`: with more than one channel, one
/// value for each frame of `channels` samples, each a result of `mix` on its
/// frame; with one channel or none, `data` itself.
pub open spec fn is_downmix<T, F: Fn(&[T]) -> T>(
    data: Seq<T>,
    channels: nat,
    mix: F,
    out: Seq<T>,
) -> bool {
    if channels > 1 {
        &&& out.len() == frames(data, channels).len()
        &&& forall|i: int|
            0 <= i < out.len() ==> mixed_from(mix, frames(data, channels)[i], #[trigger] out[i])
    } else {
        out == data
    }
}

/// Mixes interleaved samples down to one channel. With more than one
/// channel the samples are taken frame by frame, `channels` at a time (the
/// last frame may be short), and `mix` turns each frame into one sample.
/// With one channel, or none, the samples are handed back as they are.
pub fn downmix<T: Copy, F: Fn(&[T]) -> T>(data: &[T], channels: usize, mix: F) -> (mono: Vec<T>)
    requires
        forall|frame: &[T]| call_requires(mix, (frame,)),
    ensures
        is_downmix(data@, channels as nat, mix, mono@),
{
    let mut mono: Vec<T> = Vec::new();
    if channels > 1 {
        let mut start: usize = 0;
        assert(data@.skip(0) =~= data@);
        while start < data.len()
            invariant
                channels > 1,
                start <= data@.len(),
                forall|frame: &[T]| call_requires(mix, (frame,)),
                mono@.len() + frames(data@.skip(start as int), channels as nat).len() == frames(
                    data@,
                    channels as nat,
                ).len(),
                forall|i: int|
                    0 <= i < mono@.len() ==> mixed_from(
                        mix,
                        frames(data@, channels as nat)[i],
                        #[trigger] mono@[i],
                    ),
                forall|i: int|
                    0 <= i < frames(data@.skip(start as int), channels as nat).len() ==> frames(
                        data@,
                        channels as nat,
                    )[mono@.len() + i] == #[trigger] frames(
                        data@.skip(start as int),
                        channels as nat,
                    )[i],
            decreases data@.len() - start,
        {
            let end: usize = if data.len() - start <= channels {
                data.len()
            } else {
                start + channels
            };
            let frame = slice_subrange(data, start, end);
            let mixed = mix(frame);
            let ghost earlier = mono@;
            proof {
                let rest = data@.skip(start as int);
                let rest_frames = frames(rest, channels as nat);
                let after = data@.skip(end as int);
                if rest.len() <= channels {
                    assert(frame@ =~= rest);
                    assert(after.len() == 0);
                    assert(rest_frames =~= seq![rest]);
                } else {
                    assert(frame@ =~= rest.take(channels as int));
                    assert(after =~= rest.skip(channels as int));
                    assert(rest_frames =~= seq![rest.take(channels as int)] + frames(
                        after,
                        channels as nat,
                    ));
                }
                assert(frame@ == rest_frames[0]);
                assert(frames(data@, channels as nat)[mono@.len() + 0int] == rest_frames[0]);
                assert(mixed_from(mix, frames(data@, channels as nat)[earlier.len() as int], mixed));
                assert forall|i: int|
                    0 <= i < frames(after, channels as nat).len() implies frames(
                    data@,
                    channels as nat,
                )[earlier.len() + 1 + i] == #[trigger] frames(after, channels as nat)[i] by {
                    assert(rest_frames[i + 1] == frames(after, channels as nat)[i]);
                    assert(frames(data@, channels as nat)[earlier.len() + (i + 1)]
                        == rest_frames[i + 1]);
                }
            }
            mono.push(mixed);
            start = end;
            proof {
                assert forall|i: int| 0 <= i < mono@.len() implies mixed_from(
                    mix,
                    frames(data@, channels as nat)[i],
                    #[trigger] mono@[i],
                ) by {
                    if i < earlier.len() {
                        assert(mono@[i] == earlier[i]);
                    }
                }
            }
        }
        proof {
            assert(data@.skip(start as int).len() == 0);
        }
    } else {
        let mut i: usize = 0;
        while i < data.len()
            invariant
                i <= data@.len(),
                mono@ == data@.subrange(0, i as int),
            decreases data@.len() - i,
        {
            mono.push(data[i]);
            i += 1;
            assert(mono@ =~= data@.subrange(0, i as int));
        }
        assert(data@.subrange(0, i as int) =~= data@);
    }
    mono
}

} // verus!
