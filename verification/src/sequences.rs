//! Sequence vocabulary shared by the contracts: the tail that a bounded
//! buffer keeps, and chunks joined end to end.

use vstd::prelude::*;

verus! {

/// The last `n` items of `s`, or all of `s` if it has no more than `n`.
pub open spec fn keep_last<T>(s: Seq<T>, n: nat) -> Seq<T> {
    if s.len() <= n {
        s
    } else {
        s.subrange(s.len() - n, s.len() as int)
    }
}

/// The chunks joined end to end, in order.
pub open spec fn concat<T>(chunks: Seq<Seq<T>>) -> Seq<T>
    decreases chunks.len(),
{
    if chunks.len() == 0 {
        Seq::empty()
    } else {
        concat(chunks.drop_last()) + chunks.last()
    }
}

/// The sum of the chunks' lengths.
pub open spec fn total_len<T>(chunks: Seq<Seq<T>>) -> nat
    decreases chunks.len(),
{
    if chunks.len() == 0 {
        0
    } else {
        total_len(chunks.drop_last()) + chunks.last().len()
    }
}

/// Every chunk has `width` items.
pub open spec fn uniform<T>(chunks: Seq<Seq<T>>, width: nat) -> bool {
    forall|i: int| 0 <= i < chunks.len() ==> (#[trigger] chunks[i]).len() == width
}

/// Trimming before appending loses nothing that trimming afterwards keeps.
pub proof fn keep_last_absorbs<T>(a: Seq<T>, b: Seq<T>, n: nat)
    ensures
        keep_last(keep_last(a, n) + b, n) =~= keep_last(a + b, n),
{
}

/// Keeping the last `n` after one more item: the item is appended, and the
/// oldest item leaves if `n` were already kept. With `n` zero nothing is
/// kept.
pub proof fn keep_last_push<T>(s: Seq<T>, item: T, n: nat)
    ensures
        n == 0 ==> keep_last(s.push(item), n) =~= keep_last(s, n),
        n > 0 && keep_last(s, n).len() < n ==> keep_last(s.push(item), n) =~= keep_last(
            s,
            n,
        ).push(item),
        n > 0 && keep_last(s, n).len() >= n ==> keep_last(s.push(item), n) =~= keep_last(
            s,
            n,
        ).subrange(1, n as int).push(item),
{
}

/// Joined chunks are as long as the chunks together.
pub proof fn concat_len<T>(chunks: Seq<Seq<T>>)
    ensures
        concat(chunks).len() == total_len(chunks),
    decreases chunks.len(),
{
    if chunks.len() > 0 {
        concat_len(chunks.drop_last());
    }
}

/// Joining after one more chunk appends that chunk.
pub proof fn concat_push<T>(chunks: Seq<Seq<T>>, chunk: Seq<T>)
    ensures
        concat(chunks.push(chunk)) =~= concat(chunks) + chunk,
{
    assert(chunks.push(chunk).drop_last() =~= chunks);
}

/// Chunks of one width join to a sequence of that width times their number.
pub proof fn concat_uniform_len<T>(chunks: Seq<Seq<T>>, width: nat)
    requires
        uniform(chunks, width),
    ensures
        concat(chunks).len() == chunks.len() * width,
    decreases chunks.len(),
{
    if chunks.len() > 0 {
        concat_uniform_len(chunks.drop_last(), width);
        assert(chunks.len() * width == (chunks.len() - 1) * width + width) by (nonlinear_arith);
    } else {
        assert(0 * width == 0) by (nonlinear_arith);
    }
}

/// The contents of each vector, in order.
pub open spec fn views<T>(chunks: Seq<Vec<T>>) -> Seq<Seq<T>> {
    Seq::new(chunks.len(), |i: int| chunks[i]@)
}

/// The chunks of `size` items that `s` yields when they are taken from its
/// head for as long as `size` items are there.
pub open spec fn full_chunks<T>(s: Seq<T>, size: nat) -> Seq<Seq<T>>
    decreases s.len(),
{
    if size == 0 || s.len() < size {
        Seq::empty()
    } else {
        seq![s.take(size as int)] + full_chunks(s.skip(size as int), size)
    }
}

/// What is left of `s` once its full chunks are taken.
pub open spec fn remainder<T>(s: Seq<T>, size: nat) -> Seq<T>
    decreases s.len(),
{
    if size == 0 || s.len() < size {
        s
    } else {
        remainder(s.skip(size as int), size)
    }
}

/// Joining with a chunk in front puts that chunk first.
pub proof fn concat_prepend<T>(chunk: Seq<T>, chunks: Seq<Seq<T>>)
    ensures
        concat(seq![chunk] + chunks) =~= chunk + concat(chunks),
    decreases chunks.len(),
{
    let all = seq![chunk] + chunks;
    if chunks.len() == 0 {
        assert(all.drop_last() =~= Seq::<Seq<T>>::empty());
        assert(concat(all.drop_last()) =~= Seq::<T>::empty());
    } else {
        concat_prepend(chunk, chunks.drop_last());
        assert(all.drop_last() =~= seq![chunk] + chunks.drop_last());
        assert(all.last() == chunks.last());
    }
}

/// Chunking loses and reorders nothing: the full chunks, joined, followed by
/// the remainder are the sequence itself. Every chunk has `size` items and
/// fewer than `size` are left over.
pub proof fn chunks_rejoin<T>(s: Seq<T>, size: nat)
    requires
        size > 0,
    ensures
        concat(full_chunks(s, size)) + remainder(s, size) =~= s,
        uniform(full_chunks(s, size), size),
        remainder(s, size).len() < size,
        full_chunks(s, size).len() * size + remainder(s, size).len() == s.len(),
    decreases s.len(),
{
    if s.len() >= size {
        let head = s.take(size as int);
        let tail = s.skip(size as int);
        chunks_rejoin(tail, size);
        concat_prepend(head, full_chunks(tail, size));
        assert(head + tail =~= s);
        assert((full_chunks(tail, size).len() + 1) * size == full_chunks(tail, size).len() * size
            + size) by (nonlinear_arith);
    } else {
        assert(0 * size == 0) by (nonlinear_arith);
    }
}

/// A sequence of exactly `size` items is its own single chunk, and nothing
/// is left over.
pub proof fn exact_chunk_is_itself<T>(s: Seq<T>, size: nat)
    requires
        size > 0,
        s.len() == size,
    ensures
        full_chunks(s, size) =~= seq![s],
        remainder(s, size) =~= Seq::<T>::empty(),
{
    assert(s.take(size as int) =~= s);
    assert(s.skip(size as int) =~= Seq::<T>::empty());
    assert(full_chunks(s.skip(size as int), size) =~= Seq::<Seq<T>>::empty());
    assert(remainder(s, size) == remainder(s.skip(size as int), size));
    assert(remainder(s.skip(size as int), size) == s.skip(size as int));
}

/// Chunking does not depend on how the stream arrives: chunking `a`, then
/// what was left of it followed by `b`, gives the chunks and the remainder
/// of chunking `a` followed by `b` at once.
pub proof fn chunks_stream<T>(a: Seq<T>, b: Seq<T>, size: nat)
    requires
        size > 0,
    ensures
        full_chunks(a + b, size) =~= full_chunks(a, size) + full_chunks(
            remainder(a, size) + b,
            size,
        ),
        remainder(a + b, size) =~= remainder(remainder(a, size) + b, size),
    decreases a.len(),
{
    if a.len() >= size {
        let tail = a.skip(size as int);
        chunks_stream(tail, b, size);
        assert((a + b).take(size as int) =~= a.take(size as int));
        assert((a + b).skip(size as int) =~= tail + b);
    }
}

/// The frames of `width` items that `s` is made of, in order. If the length
/// of `s` is no multiple of `width` the last frame is short.
pub open spec fn frames<T>(s: Seq<T>, width: nat) -> Seq<Seq<T>>
    decreases s.len(),
{
    if s.len() == 0 {
        Seq::empty()
    } else if width == 0 || s.len() <= width {
        seq![s]
    } else {
        seq![s.take(width as int)] + frames(s.skip(width as int), width)
    }
}

/// There are as many frames as it takes to hold every item: the length
/// over the width if that divides, and one more if it does not. So two
/// interleaved channels of equal length make half as many frames as there
/// are items.
pub proof fn frames_count<T>(s: Seq<T>, width: nat)
    requires
        width > 0,
    ensures
        frames(s, width).len() * width >= s.len(),
        s.len() > 0 ==> (frames(s, width).len() - 1) * width < s.len(),
        s.len() % width == 0 ==> frames(s, width).len() * width == s.len(),
    decreases s.len(),
{
    let w = width as int;
    let len = s.len() as int;
    if len == 0 {
        assert(0 * w == 0) by (nonlinear_arith);
    } else if len <= w {
        assert(1 * w == w) by (nonlinear_arith);
        assert(0 * w == 0) by (nonlinear_arith);
        if len % w == 0 {
            assert(len == w) by (nonlinear_arith)
                requires
                    0 < len <= w,
                    len % w == 0,
            ;
        }
    } else {
        let tail = s.skip(w);
        frames_count(tail, width);
        let k = frames(tail, width).len() as int;
        let tail_len = tail.len() as int;
        assert((k + 1) * w == k * w + w) by (nonlinear_arith);
        assert((k + 1 - 1) * w == (k - 1) * w + w) by (nonlinear_arith);
        assert(tail_len % w == len % w) by (nonlinear_arith)
            requires
                tail_len == len - w,
                w > 0,
        ;
    }
}

} // verus!
