//! Bounded first-in first-out buffers that drop their oldest item on
//! overflow: one of samples, one of mel frames of a fixed width.

use crate::sequences::concat;
use crate::sequences::concat_push;
use crate::sequences::concat_uniform_len;
use crate::sequences::keep_last;
use crate::sequences::keep_last_absorbs;
use crate::sequences::keep_last_push;
use crate::sequences::uniform;
use std::collections::VecDeque;
use vstd::prelude::*;

verus! {

/// A bounded buffer of samples. Its view is what it holds, oldest first.
#[derive(Debug)]
pub struct AudioBuffer<T> {
    buffer: VecDeque<T>,
    capacity: usize,
}

impl<T> View for AudioBuffer<T> {
    type V = Seq<T>;

    closed spec fn view(&self) -> Seq<T> {
        self.buffer@
    }
}

impl<T> AudioBuffer<T> {
    #[verifier::type_invariant]
    spec fn within_capacity(self) -> bool {
        self.buffer@.len() <= self.capacity
    }
}

impl<T: Copy> AudioBuffer<T> {
    /// The most samples the buffer holds.
    pub closed spec fn spec_capacity(&self) -> usize {
        self.capacity
    }

    /// The most samples the buffer holds.
    #[verifier::when_used_as_spec(spec_capacity)]
    pub fn capacity(&self) -> (capacity: usize)
        ensures
            capacity == self.capacity(),
    {
        self.capacity
    }

    /// An empty buffer that holds at most `capacity` samples.
    pub fn new(capacity: usize) -> (buffer: Self)
        ensures
            buffer@ == Seq::<T>::empty(),
            buffer.capacity() == capacity,
    {
        AudioBuffer { buffer: VecDeque::with_capacity(capacity), capacity }
    }

    /// Appends `samples` in order, dropping the oldest samples so that no
    /// more than the capacity remain: the buffer then holds the tail of what
    /// it held followed by `samples`.
    pub fn push_samples(&mut self, samples: &[T])
        ensures
            final(self)@ == keep_last(old(self)@ + samples@, old(self).capacity() as nat),
            final(self).capacity() == old(self).capacity(),
            final(self)@.len() <= final(self).capacity(),
    {
        proof {
            use_type_invariant(&*self);
            assert(old(self)@ + samples@.subrange(0, 0) =~= old(self)@);
        }
        let capacity = self.capacity;
        let mut held: VecDeque<T> = VecDeque::new();
        std::mem::swap(&mut held, &mut self.buffer);
        let mut i: usize = 0;
        while i < samples.len()
            invariant
                i <= samples.len(),
                held@ == keep_last(
                    old(self).buffer@ + samples@.subrange(0, i as int),
                    capacity as nat,
                ),
            decreases samples.len() - i,
        {
            let ghost before = old(self).buffer@ + samples@.subrange(0, i as int);
            let sample = samples[i];
            proof {
                keep_last_push(before, sample, capacity as nat);
                assert(old(self).buffer@ + samples@.subrange(0, i + 1) =~= before.push(sample));
            }
            if capacity > 0 {
                if held.len() >= capacity {
                    held.pop_front();
                }
                held.push_back(sample);
            }
            i += 1;
        }
        proof {
            assert(samples@.subrange(0, i as int) =~= samples@);
        }
        self.buffer = held;
    }

    /// The newest `n` samples, oldest first; all of them if there are no
    /// more than `n`.
    pub fn get_last_n(&self, n: usize) -> (samples: Vec<T>)
        ensures
            samples@ == keep_last(self@, n as nat),
    {
        let len = self.buffer.len();
        let start: usize = if n >= len {
            0
        } else {
            len - n
        };
        let mut out: Vec<T> = Vec::new();
        let mut i: usize = start;
        while i < len
            invariant
                start <= i <= len,
                len == self.buffer@.len(),
                out@ == self.buffer@.subrange(start as int, i as int),
            decreases len - i,
        {
            out.push(self.buffer[i]);
            i += 1;
            assert(out@ =~= self.buffer@.subrange(start as int, i as int));
        }
        assert(out@ =~= keep_last(self@, n as nat));
        out
    }

    /// Everything the buffer holds, oldest first.
    pub fn get_all(&self) -> (samples: Vec<T>)
        ensures
            samples@ == self@,
    {
        let len = self.buffer.len();
        let mut out: Vec<T> = Vec::new();
        let mut i: usize = 0;
        while i < len
            invariant
                i <= len,
                len == self.buffer@.len(),
                out@ == self.buffer@.subrange(0, i as int),
            decreases len - i,
        {
            out.push(self.buffer[i]);
            i += 1;
            assert(out@ =~= self.buffer@.subrange(0, i as int));
        }
        assert(out@ =~= self@);
        out
    }

    /// How many samples the buffer holds: never more than its capacity.
    pub fn len(&self) -> (len: usize)
        ensures
            len == self@.len(),
            len <= self.capacity(),
    {
        proof {
            use_type_invariant(self);
        }
        self.buffer.len()
    }

    /// Whether the buffer holds nothing.
    pub fn is_empty(&self) -> (empty: bool)
        ensures
            empty == (self@.len() == 0),
    {
        self.buffer.len() == 0
    }

    /// Whether the buffer holds as many samples as it can.
    pub fn is_full(&self) -> (full: bool)
        ensures
            full == (self@.len() == self.capacity()),
    {
        proof {
            use_type_invariant(self);
        }
        self.buffer.len() >= self.capacity
    }

    /// Drops everything; the capacity stays.
    pub fn clear(&mut self)
        ensures
            final(self)@ == Seq::<T>::empty(),
            final(self).capacity() == old(self).capacity(),
    {
        self.buffer = VecDeque::new();
    }
}

/// A bounded buffer of mel frames, each of the width given at construction.
/// Its view is the frames it holds, oldest first.
#[derive(Debug)]
pub struct MelBuffer<T> {
    frames: VecDeque<Vec<T>>,
    capacity: usize,
    frame_size: usize,
}

impl<T> View for MelBuffer<T> {
    type V = Seq<Seq<T>>;

    closed spec fn view(&self) -> Seq<Seq<T>> {
        Seq::new(self.frames@.len(), |i: int| self.frames@[i]@)
    }
}

impl<T> MelBuffer<T> {
    #[verifier::type_invariant]
    spec fn well_formed(self) -> bool {
        &&& self.frames@.len() <= self.capacity
        &&& forall|i: int|
            0 <= i < self.frames@.len() ==> (#[trigger] self.frames@[i])@.len() == self.frame_size
    }
}

impl<T: Copy> MelBuffer<T> {
    /// The most frames the buffer holds.
    pub closed spec fn spec_capacity(&self) -> usize {
        self.capacity
    }

    /// The width of every frame.
    pub closed spec fn spec_frame_size(&self) -> usize {
        self.frame_size
    }

    /// The most frames the buffer holds.
    #[verifier::when_used_as_spec(spec_capacity)]
    pub fn capacity(&self) -> (capacity: usize)
        ensures
            capacity == self.capacity(),
    {
        self.capacity
    }

    /// The width of every frame.
    #[verifier::when_used_as_spec(spec_frame_size)]
    pub fn frame_size(&self) -> (frame_size: usize)
        ensures
            frame_size == self.frame_size(),
    {
        self.frame_size
    }

    /// An empty buffer for at most `capacity` frames of `frame_size` values.
    pub fn new(capacity: usize, frame_size: usize) -> (buffer: Self)
        ensures
            buffer@ == Seq::<Seq<T>>::empty(),
            buffer.capacity() == capacity,
            buffer.frame_size() == frame_size,
    {
        let buffer = MelBuffer { frames: VecDeque::with_capacity(capacity), capacity, frame_size };
        assert(buffer@ =~= Seq::<Seq<T>>::empty());
        buffer
    }

    /// Appends `frame`, dropping the oldest frame if the buffer was full.
    pub fn push_frame(&mut self, frame: Vec<T>)
        requires
            frame@.len() == old(self).frame_size(),
        ensures
            final(self)@ == keep_last(old(self)@.push(frame@), old(self).capacity() as nat),
            final(self).capacity() == old(self).capacity(),
            final(self).frame_size() == old(self).frame_size(),
            uniform(final(self)@, final(self).frame_size() as nat),
            final(self)@.len() <= final(self).capacity(),
    {
        proof {
            use_type_invariant(&*self);
        }
        proof {
            keep_last_push(old(self)@, frame@, old(self).capacity() as nat);
        }
        let mut held: VecDeque<Vec<T>> = VecDeque::new();
        std::mem::swap(&mut held, &mut self.frames);
        if self.capacity > 0 {
            if held.len() >= self.capacity {
                held.pop_front();
            }
            held.push_back(frame);
        }
        self.frames = held;
        assert(self@ =~= keep_last(old(self)@.push(frame@), old(self).capacity() as nat));
    }

    /// All frames joined oldest first, row by row: the input of the
    /// embedding model.
    pub fn get_flattened(&self) -> (values: Vec<T>)
        ensures
            values@ == concat(self@),
            values@.len() == self@.len() * self.frame_size(),
    {
        proof {
            use_type_invariant(self);
            assert(self@.take(0) =~= Seq::<Seq<T>>::empty());
        }
        let count = self.frames.len();
        let mut out: Vec<T> = Vec::new();
        let mut i: usize = 0;
        while i < count
            invariant
                i <= count,
                count == self.frames@.len(),
                count == self@.len(),
                out@ == concat(self@.take(i as int)),
            decreases count - i,
        {
            let frame = &self.frames[i];
            let width = frame.len();
            let mut j: usize = 0;
            while j < width
                invariant
                    j <= width,
                    i < count,
                    count == self@.len(),
                    width == frame@.len(),
                    frame@ == self@[i as int],
                    out@ == concat(self@.take(i as int)) + frame@.subrange(0, j as int),
                decreases width - j,
            {
                out.push(frame[j]);
                j += 1;
                assert(out@ =~= concat(self@.take(i as int)) + frame@.subrange(0, j as int));
            }
            proof {
                assert(frame@.subrange(0, j as int) =~= frame@);
                concat_push(self@.take(i as int), frame@);
                assert(self@.take(i as int).push(frame@) =~= self@.take(i as int + 1));
            }
            i += 1;
        }
        proof {
            assert(self@.take(i as int) =~= self@);
            assert(uniform(self@, self.frame_size() as nat));
            concat_uniform_len(self@, self.frame_size() as nat);
        }
        out
    }

    /// Whether the window is complete: the buffer holds as many frames as
    /// it can.
    pub fn is_ready(&self) -> (ready: bool)
        ensures
            ready == (self@.len() == self.capacity()),
    {
        proof {
            use_type_invariant(self);
        }
        self.frames.len() >= self.capacity
    }

    /// How many frames the buffer holds: never more than its capacity.
    pub fn len(&self) -> (len: usize)
        ensures
            len == self@.len(),
            len <= self.capacity(),
    {
        proof {
            use_type_invariant(self);
        }
        self.frames.len()
    }

    /// Whether the buffer holds no frame.
    pub fn is_empty(&self) -> (empty: bool)
        ensures
            empty == (self@.len() == 0),
    {
        self.frames.len() == 0
    }

    /// Drops every frame; capacity and width stay.
    pub fn clear(&mut self)
        ensures
            final(self)@ == Seq::<Seq<T>>::empty(),
            final(self).capacity() == old(self).capacity(),
            final(self).frame_size() == old(self).frame_size(),
    {
        self.frames = VecDeque::new();
        assert(self@ =~= Seq::<Seq<T>>::empty());
    }
}

/// What a sample buffer of the given capacity holds after `pushes` were
/// pushed into it, one after the other, starting empty.
pub open spec fn after_pushes<T>(pushes: Seq<Seq<T>>, capacity: nat) -> Seq<T>
    decreases pushes.len(),
{
    if pushes.len() == 0 {
        Seq::empty()
    } else {
        keep_last(after_pushes(pushes.drop_last(), capacity) + pushes.last(), capacity)
    }
}

/// What a mel buffer of the given capacity holds after `frames` were pushed
/// into it, one after the other, starting empty.
pub open spec fn after_frames<T>(frames: Seq<Seq<T>>, capacity: nat) -> Seq<Seq<T>>
    decreases frames.len(),
{
    if frames.len() == 0 {
        Seq::empty()
    } else {
        keep_last(after_frames(frames.drop_last(), capacity).push(frames.last()), capacity)
    }
}

/// After any sequence of pushes a sample buffer holds no more than its
/// capacity, and what it holds is the tail of everything that was pushed,
/// in the order in which it was pushed.
pub proof fn pushes_keep_history_tail<T>(pushes: Seq<Seq<T>>, capacity: nat)
    ensures
        after_pushes(pushes, capacity) =~= keep_last(concat(pushes), capacity),
        after_pushes(pushes, capacity).len() <= capacity,
        after_pushes(pushes, capacity) =~= concat(pushes).subrange(
            concat(pushes).len() - after_pushes(pushes, capacity).len(),
            concat(pushes).len() as int,
        ),
    decreases pushes.len(),
{
    if pushes.len() > 0 {
        pushes_keep_history_tail(pushes.drop_last(), capacity);
        keep_last_absorbs(concat(pushes.drop_last()), pushes.last(), capacity);
    }
}

/// A mel buffer holds the newest frames that were pushed, up to its
/// capacity. Once as many frames as the capacity were pushed, each of the
/// buffer's width, the window is complete and flattens to capacity times
/// width values.
pub proof fn enough_frames_fill_window<T>(frames: Seq<Seq<T>>, capacity: nat, width: nat)
    requires
        uniform(frames, width),
    ensures
        after_frames(frames, capacity) =~= keep_last(frames, capacity),
        uniform(after_frames(frames, capacity), width),
        frames.len() >= capacity ==> after_frames(frames, capacity).len() == capacity,
        frames.len() >= capacity ==> concat(after_frames(frames, capacity)).len() == capacity
            * width,
    decreases frames.len(),
{
    if frames.len() > 0 {
        let earlier = frames.drop_last();
        enough_frames_fill_window(earlier, capacity, width);
        keep_last_absorbs(earlier, seq![frames.last()], capacity);
        assert(earlier + seq![frames.last()] =~= frames);
        assert(after_frames(earlier, capacity).push(frames.last()) =~= keep_last(
            earlier,
            capacity,
        ) + seq![frames.last()]);
    }
    concat_uniform_len(after_frames(frames, capacity), width);
}

} // verus!
