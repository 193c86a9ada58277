//! The controller behind a natively fed stream: a FIFO byte buffer and a
//! closed flag, serving the pull-based consumer through its traps.

use vstd::prelude::*;
use crate::engine::{EngineStream, EngineView};
use crate::finalizer::{FinalizeTask, StreamFinalizer, TaskQueue};

verus! {

/// Where the bytes of a natively fed stream come from.
pub enum ExternalUnderlyingSource {
    /// Bytes that are already in memory.
    Memory(Vec<u8>),
    /// A blob, with its total size known up front.
    Blob(usize),
    /// A fetch response, pushed in as it arrives.
    FetchResponse,
    /// A fetch request body, pushed in as it arrives.
    FetchRequest,
}

/// The bytes a controller starts with for a given source.
pub open spec fn initial_bytes(source: ExternalUnderlyingSource) -> Seq<u8> {
    match source {
        ExternalUnderlyingSource::Memory(bytes) => bytes@,
        _ => Seq::empty(),
    }
}

/// The concatenation of `chunks`, in order.
pub open spec fn concat_chunks(chunks: Seq<Seq<u8>>) -> Seq<u8>
    decreases chunks.len(),
{
    if chunks.len() == 0 {
        Seq::empty()
    } else {
        concat_chunks(chunks.drop_last()) + chunks.last()
    }
}

/// The sum of `lens`.
pub open spec fn sum_lengths(lens: Seq<nat>) -> nat
    decreases lens.len(),
{
    if lens.len() == 0 {
        0
    } else {
        sum_lengths(lens.drop_last()) + lens.last()
    }
}

/// The total length of `chunks`.
pub open spec fn total_length(chunks: Seq<Seq<u8>>) -> nat {
    concat_chunks(chunks).len()
}

/// The buffering controller of a natively fed stream.
pub struct ExternalUnderlyingSourceController {
    buffer: Vec<u8>,
    closed: bool,
    finalizer: Option<StreamFinalizer>,
}

impl ExternalUnderlyingSourceController {
    /// The bytes waiting to be read, oldest first.
    pub closed spec fn buffered(&self) -> Seq<u8> {
        self.buffer@
    }

    /// Whether the producer has closed the source.
    pub closed spec fn is_closed(&self) -> bool {
        self.closed
    }

    /// The armed finalizer, if any.
    pub closed spec fn finalizer(&self) -> Option<StreamFinalizer> {
        self.finalizer
    }

    /// A controller seeded from `source`: in-memory bytes are buffered at once,
    /// every other source starts empty. It starts open.
    pub fn new(source: ExternalUnderlyingSource) -> (r: ExternalUnderlyingSourceController)
        ensures
            r.buffered() == initial_bytes(source),
            !r.is_closed(),
            r.finalizer() is None,
    {
        let buffer = match source {
            ExternalUnderlyingSource::Blob(size) => Vec::with_capacity(size),
            ExternalUnderlyingSource::Memory(bytes) => bytes,
            ExternalUnderlyingSource::FetchResponse => Vec::new(),
            ExternalUnderlyingSource::FetchRequest => Vec::new(),
        };
        ExternalUnderlyingSourceController { buffer, closed: false, finalizer: None }
    }

    pub fn buffer_len(&self) -> (r: usize)
        ensures
            r == self.buffered().len(),
    {
        self.buffer.len()
    }

    pub fn closed(&self) -> (r: bool)
        ensures
            r == self.is_closed(),
    {
        self.closed
    }

    /// Tells the consumer how many bytes it may request.
    fn signal_available_bytes(&self, stream: &mut EngineStream, available: usize)
        ensures
            final(stream)@ == old(stream)@.signal_if_readable(available),
    {
        stream.update_data_available(available);
    }

    /// Closes the consumer side if it is still readable.
    fn maybe_close_js_stream(&self, stream: &mut EngineStream)
        ensures
            final(stream)@ == old(stream)@.close_if_readable(),
    {
        if stream.is_readable() {
            stream.close();
        }
    }

    /// Marks the source closed and closes the consumer side if it is readable.
    /// Closing an already closed controller changes nothing.
    pub fn close(&mut self, stream: &mut EngineStream)
        ensures
            final(self).is_closed(),
            final(self).buffered() == old(self).buffered(),
            final(self).finalizer() == old(self).finalizer(),
            final(stream)@ == old(stream)@.close_if_readable(),
    {
        self.closed = true;
        self.maybe_close_js_stream(stream);
    }

    /// Appends `chunk` after the bytes already buffered, and tells a readable
    /// consumer the total number of bytes buffered.
    pub fn enqueue_chunk(&mut self, stream: &mut EngineStream, chunk: &[u8])
        requires
            !old(self).is_closed(),
        ensures
            !final(self).is_closed(),
            final(self).buffered() == old(self).buffered() + chunk@,
            final(self).finalizer() == old(self).finalizer(),
            final(stream)@ == old(stream)@.signal_if_readable(
                (old(self).buffered().len() + chunk@.len()) as usize,
            ),
    {
        self.buffer.extend_from_slice(chunk);
        assert(self.buffer@ =~= old(self).buffered() + chunk@);
        let available = self.buffer.len();
        self.signal_available_bytes(stream, available);
    }

    /// The pull steps: a closed source closes a readable consumer; an open
    /// one with bytes buffered signals them all again, whatever size the
    /// consumer desired, so that it never asks for more than is buffered; an
    /// open, empty one waits for the producer.
    pub fn pull(&self, stream: &mut EngineStream, desired_size: usize)
        ensures
            final(stream)@ == if self.is_closed() {
                old(stream)@.close_if_readable()
            } else if self.buffered().len() > 0 {
                old(stream)@.signal_if_readable(self.buffered().len() as usize)
            } else {
                old(stream)@
            },
    {
        if self.closed {
            self.maybe_close_js_stream(stream);
        } else {
            let available = self.buffer.len();
            if available > 0 {
                self.signal_available_bytes(stream, available);
            }
        }
    }

    /// Moves the `length` oldest buffered bytes to the end of `target` and
    /// returns how many were written, which is always `length`.
    pub fn write_into_buffer(&mut self, target: &mut Vec<u8>, length: usize) -> (written: usize)
        requires
            length <= old(self).buffered().len(),
        ensures
            written == length,
            final(target)@ == old(target)@ + old(self).buffered().take(length as int),
            final(self).buffered() == old(self).buffered().skip(length as int),
            final(self).is_closed() == old(self).is_closed(),
            final(self).finalizer() == old(self).finalizer(),
    {
        let rest = self.buffer.split_off(length);
        assert(self.buffer@ =~= old(self).buffered().take(length as int));
        target.append(&mut self.buffer);
        self.buffer = rest;
        assert(self.buffer@ =~= old(self).buffered().skip(length as int));
        length
    }
}

impl ExternalUnderlyingSourceController {
    /// Arms the finalizer, right after the stream using this source was made.
    pub fn set_up_finalize(&mut self, finalizer: StreamFinalizer)
        ensures
            final(self).finalizer() == Some(finalizer),
            final(self).buffered() == old(self).buffered(),
            final(self).is_closed() == old(self).is_closed(),
    {
        self.finalizer = Some(finalizer);
    }

    /// Whether a finalizer is armed.
    pub open spec fn finalize_armed(&self) -> bool {
        self.finalizer() is Some
    }

    pub fn is_finalize_armed(&self) -> (r: bool)
        ensures
            r == self.finalize_armed(),
    {
        self.finalizer.is_some()
    }

    /// Fires the armed finalizer, which queues the teardown on `queue`, and
    /// disarms it. Firing it again is not allowed.
    pub fn finalize(&mut self, queue: &mut TaskQueue)
        requires
            old(self).finalize_armed(),
        ensures
            fired(*old(self), *final(self), old(queue).pending(), final(queue).pending()),
            final(queue).current_generation() == old(queue).current_generation(),
    {
        let f = self.finalizer.take().unwrap();
        f.finalize(queue);
    }
}

/// What firing the finalizer of `before` leaves: `after` holds the same bytes
/// and closed flag with no finalizer armed, and the one teardown task that
/// `before` was armed with was queued behind `queued_before`.
pub open spec fn fired(
    before: ExternalUnderlyingSourceController,
    after: ExternalUnderlyingSourceController,
    queued_before: Seq<FinalizeTask>,
    queued_after: Seq<FinalizeTask>,
) -> bool {
    &&& after.finalizer() is None
    &&& after.buffered() == before.buffered()
    &&& after.is_closed() == before.is_closed()
    &&& queued_after == queued_before.push(
        FinalizeTask {
            stream: before.finalizer()->0.stream,
            canceller: before.finalizer()->0.canceller,
        },
    )
}

/// Finalize-once: once a controller's finalizer was fired, none is armed, so
/// firing it a second time is refused by `finalize`'s precondition; the
/// first firing queued exactly one task.
pub proof fn lemma_finalize_once(
    before: ExternalUnderlyingSourceController,
    after: ExternalUnderlyingSourceController,
    queued_before: Seq<FinalizeTask>,
    queued_after: Seq<FinalizeTask>,
)
    requires
        before.finalize_armed(),
        fired(before, after, queued_before, queued_after),
    ensures
        !after.finalize_armed(),
        queued_after.len() == queued_before.len() + 1,
{
}

/// Close idempotence: closing the consumer side a second time changes
/// nothing, and in particular sends it no second signal.
pub proof fn lemma_close_idempotent(stream: EngineView)
    ensures
        stream.close_if_readable().close_if_readable() == stream.close_if_readable(),
        stream.close_if_readable().close_if_readable().signals
            == stream.close_if_readable().signals,
{
}

/// The controller states `enq[0]`, ..., `enq[n]` of `n` successive
/// `enqueue_chunk` calls with `chunks[0]`, ..., `chunks[n-1]`, as that
/// function's contract relates them.
pub open spec fn enqueue_trace(
    enq: Seq<ExternalUnderlyingSourceController>,
    chunks: Seq<Seq<u8>>,
) -> bool {
    &&& enq.len() == chunks.len() + 1
    &&& forall|i: int|
        0 <= i < chunks.len() ==> #[trigger] enq[i + 1].buffered() == enq[i].buffered()
            + chunks[i]
}

/// The controller states `drn[0]`, ..., `drn[k]` of `k` successive
/// `write_into_buffer` calls with lengths `lens[j]`, where `outs[j]` is what
/// call `j` appended to its target, as that function's contract relates
/// them.
pub open spec fn write_trace(
    drn: Seq<ExternalUnderlyingSourceController>,
    lens: Seq<nat>,
    outs: Seq<Seq<u8>>,
) -> bool {
    &&& drn.len() == lens.len() + 1
    &&& outs.len() == lens.len()
    &&& forall|j: int|
        0 <= j < lens.len() ==> {
            &&& #[trigger] lens[j] <= drn[j].buffered().len()
            &&& outs[j] == drn[j].buffered().take(lens[j] as int)
            &&& drn[j + 1].buffered() == drn[j].buffered().skip(lens[j] as int)
        }
}

proof fn lemma_enqueue_prefix(
    enq: Seq<ExternalUnderlyingSourceController>,
    chunks: Seq<Seq<u8>>,
    k: int,
)
    requires
        enqueue_trace(enq, chunks),
        enq[0].buffered() == Seq::<u8>::empty(),
        0 <= k <= chunks.len(),
    ensures
        enq[k].buffered() == concat_chunks(chunks.take(k)),
    decreases k,
{
    if k == 0 {
        assert(chunks.take(0) =~= Seq::<Seq<u8>>::empty());
    } else {
        lemma_enqueue_prefix(enq, chunks, k - 1);
        assert(chunks.take(k).drop_last() =~= chunks.take(k - 1));
        assert(enq[(k - 1) + 1].buffered() == enq[k - 1].buffered() + chunks[k - 1]);
    }
}

proof fn lemma_write_prefix(
    drn: Seq<ExternalUnderlyingSourceController>,
    lens: Seq<nat>,
    outs: Seq<Seq<u8>>,
    j: int,
)
    requires
        write_trace(drn, lens, outs),
        0 <= j <= lens.len(),
    ensures
        sum_lengths(lens.take(j)) <= drn[0].buffered().len(),
        drn[j].buffered() == drn[0].buffered().skip(sum_lengths(lens.take(j)) as int),
        concat_chunks(outs.take(j)) == drn[0].buffered().take(sum_lengths(lens.take(j)) as int),
    decreases j,
{
    let b = drn[0].buffered();
    if j == 0 {
        assert(lens.take(0) =~= Seq::<nat>::empty());
        assert(outs.take(0) =~= Seq::<Seq<u8>>::empty());
        assert(b.skip(0) =~= b);
        assert(b.take(0) =~= Seq::<u8>::empty());
    } else {
        lemma_write_prefix(drn, lens, outs, j - 1);
        let s = sum_lengths(lens.take(j - 1)) as int;
        let l = lens[j - 1] as int;
        assert(lens.take(j).drop_last() =~= lens.take(j - 1));
        assert(outs.take(j).drop_last() =~= outs.take(j - 1));
        assert(lens[j - 1] <= drn[j - 1].buffered().len());
        assert(drn[(j - 1) + 1].buffered() == drn[j - 1].buffered().skip(l));
        assert(b.skip(s).skip(l) =~= b.skip(s + l));
        assert(b.take(s) + b.skip(s).take(l) =~= b.take(s + l));
    }
}

/// FIFO drain: enqueue `chunks[0]`, ..., `chunks[n-1]` into a controller
/// with an empty buffer, then make `write_into_buffer` calls whose lengths
/// add up to all the bytes enqueued. What the calls write out, one after the
/// other, is the chunks concatenated in order, and nothing is left buffered.
pub proof fn lemma_fifo_drain(
    enq: Seq<ExternalUnderlyingSourceController>,
    chunks: Seq<Seq<u8>>,
    drn: Seq<ExternalUnderlyingSourceController>,
    lens: Seq<nat>,
    outs: Seq<Seq<u8>>,
)
    requires
        enq[0].buffered() == Seq::<u8>::empty(),
        enqueue_trace(enq, chunks),
        drn[0].buffered() == enq.last().buffered(),
        write_trace(drn, lens, outs),
        sum_lengths(lens) == total_length(chunks),
    ensures
        concat_chunks(outs) == concat_chunks(chunks),
        drn.last().buffered() == Seq::<u8>::empty(),
{
    lemma_enqueue_prefix(enq, chunks, chunks.len() as int);
    assert(chunks.take(chunks.len() as int) =~= chunks);
    lemma_write_prefix(drn, lens, outs, lens.len() as int);
    assert(lens.take(lens.len() as int) =~= lens);
    assert(outs.take(lens.len() as int) =~= outs);
    let b = drn[0].buffered();
    assert(b.take(b.len() as int) =~= b);
    assert(b.skip(b.len() as int) =~= Seq::<u8>::empty());
}

} // verus!
