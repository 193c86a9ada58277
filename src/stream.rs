//! The stream handle: the object that native code and script share. It owns
//! the consumer-visible stream and, for natively fed streams, the buffering
//! controller, and it tracks the native reader lock.

use vstd::prelude::*;
use crate::engine::{EngineStream, EngineView, ErrorReason, StreamState};
use crate::finalizer::{StreamFinalizer, TaskQueue};
use crate::source::{
    fired, initial_bytes, ExternalUnderlyingSource, ExternalUnderlyingSourceController,
};

verus! {

/// What one read of a chunk came to.
#[derive(Debug, PartialEq, Eq)]
pub enum ReadResult {
    /// Bytes were read.
    Chunk(Vec<u8>),
    /// The stream is closed and holds nothing more.
    Done,
    /// Nothing is there yet: the read waits for the producer.
    Pending,
    /// The stream is errored.
    Errored(ErrorReason),
}

/// The abstract value of a [`ReadResult`].
pub ghost enum ReadOutcome {
    Chunk(Seq<u8>),
    Done,
    Pending,
    Errored(ErrorReason),
}

impl View for ReadResult {
    type V = ReadOutcome;

    open spec fn view(&self) -> ReadOutcome {
        match self {
            ReadResult::Chunk(bytes) => ReadOutcome::Chunk(bytes@),
            ReadResult::Done => ReadOutcome::Done,
            ReadResult::Pending => ReadOutcome::Pending,
            ReadResult::Errored(reason) => ReadOutcome::Errored(*reason),
        }
    }
}

/// A value handed over by script, which may or may not be a stream.
pub enum EngineValue {
    Stream(EngineStream),
    NotAStream,
}

/// A stream as native code holds it.
pub struct ReadableStream {
    js_stream: EngineStream,
    has_reader: bool,
    external_underlying_source: Option<ExternalUnderlyingSourceController>,
}

/// Reads the buffered bytes of a natively fed stream, or finds that there are
/// none yet, or none any more.
fn read_from_source(
    source: &mut ExternalUnderlyingSourceController,
    stream: &mut EngineStream,
) -> (r: ReadResult)
    ensures
        final(source).is_closed() == old(source).is_closed(),
        final(source).finalizer() == old(source).finalizer(),
        old(source).buffered().len() > 0 ==> {
            &&& r@ == ReadOutcome::Chunk(old(source).buffered())
            &&& final(source).buffered() == Seq::<u8>::empty()
            &&& final(stream)@ == if old(source).is_closed() {
                old(stream)@.close_if_readable()
            } else {
                old(stream)@.signal_if_readable(old(source).buffered().len() as usize)
            }
        },
        old(source).buffered().len() == 0 ==> {
            &&& final(source).buffered() == old(source).buffered()
            &&& final(stream)@ == if old(source).is_closed() {
                old(stream)@.close_if_readable()
            } else {
                old(stream)@
            }
            &&& r@ == if final(stream)@.is_readable() {
                ReadOutcome::Pending
            } else {
                ReadOutcome::Done
            }
        },
{
    let available = source.buffer_len();
    if available > 0 {
        source.pull(stream, available);
        let mut bytes: Vec<u8> = Vec::new();
        source.write_into_buffer(&mut bytes, available);
        assert(bytes@ =~= old(source).buffered());
        assert(source.buffered() =~= Seq::<u8>::empty());
        ReadResult::Chunk(bytes)
    } else {
        source.pull(stream, 0);
        if stream.is_readable() {
            ReadResult::Pending
        } else {
            ReadResult::Done
        }
    }
}

impl ReadableStream {
    /// The consumer-visible stream.
    pub closed spec fn engine(&self) -> EngineView {
        self.js_stream@
    }

    /// Whether native code holds a reader.
    pub closed spec fn has_reader(&self) -> bool {
        self.has_reader
    }

    /// The controller of a natively fed stream; none for one made by script.
    pub closed spec fn source(&self) -> Option<ExternalUnderlyingSourceController> {
        self.external_underlying_source
    }

    /// A native reader always holds the consumer-side lock.
    pub closed spec fn wf(&self) -> bool {
        self.has_reader ==> self.js_stream@.locked
    }

    pub open spec fn is_locked_spec(&self) -> bool {
        self.has_reader() || self.engine().locked
    }

    /// Whether any read was ever made, by native code or by script.
    pub open spec fn is_disturbed_spec(&self) -> bool {
        self.engine().disturbed
    }

    /// Whether any read was ever made.
    pub open spec fn read_initiated(&self) -> bool {
        self.engine().disturbed
    }

    /// What the next read comes to: an errored stream gives its reason; a
    /// controller's buffered bytes come out all at once; with none, the read
    /// is over once the source or the stream is closed, and waits otherwise.
    pub open spec fn read_outcome(&self) -> ReadOutcome {
        match self.engine().state {
            StreamState::Errored(reason) => ReadOutcome::Errored(reason),
            _ => match self.source() {
                None => if self.engine().state == StreamState::Readable {
                    ReadOutcome::Pending
                } else {
                    ReadOutcome::Done
                },
                Some(c) => if c.buffered().len() > 0 {
                    ReadOutcome::Chunk(c.buffered())
                } else if c.is_closed() || self.engine().state != StreamState::Readable {
                    ReadOutcome::Done
                } else {
                    ReadOutcome::Pending
                },
            },
        }
    }

    /// Whether `start_reading` succeeds now.
    pub open spec fn can_start_reading(&self) -> bool {
        !self.is_locked_spec() && !self.is_disturbed_spec()
    }

    /// A natively fed stream over `source`. Its finalizer is armed to queue
    /// the teardown of `slot`, the stream's place in the owning context, on
    /// `queue`, under a canceller made now.
    pub fn new_with_external_underlying_source(
        source: ExternalUnderlyingSource,
        slot: usize,
        queue: &TaskQueue,
    ) -> (r: ReadableStream)
        ensures
            r.wf(),
            !r.has_reader(),
            r.engine().state == StreamState::Readable,
            !r.engine().locked,
            !r.engine().disturbed,
            r.engine().signals == Seq::<crate::engine::StreamSignal>::empty(),
            r.source() is Some,
            r.source()->0.buffered() == initial_bytes(source),
            !r.source()->0.is_closed(),
            r.source()->0.finalizer() == Some(
                StreamFinalizer { stream: slot, canceller: queue.task_canceller_spec() },
            ),
    {
        let mut controller = ExternalUnderlyingSourceController::new(source);
        let canceller = queue.task_canceller();
        controller.set_up_finalize(StreamFinalizer { stream: slot, canceller });
        ReadableStream {
            js_stream: EngineStream::new(),
            has_reader: false,
            external_underlying_source: Some(controller),
        }
    }

    /// The handle of a stream that script made; fails on any other value.
    pub fn from_js(value: EngineValue) -> (r: Result<ReadableStream, ()>)
        ensures
            r is Ok <==> value is Stream,
            r is Ok ==> {
                &&& r->Ok_0.wf()
                &&& !r->Ok_0.has_reader()
                &&& r->Ok_0.source() is None
                &&& r->Ok_0.engine() == value->Stream_0@
            },
    {
        match value {
            EngineValue::Stream(js_stream) => Ok(
                ReadableStream { js_stream, has_reader: false, external_underlying_source: None },
            ),
            EngineValue::NotAStream => Err(()),
        }
    }

    /// The consumer-visible stream.
    pub fn get_js_stream(&self) -> (r: &EngineStream)
        ensures
            r@ == self.engine(),
    {
        &self.js_stream
    }

    /// Bytes buffered by the controller, if there is one.
    pub fn buffered_len(&self) -> (r: Option<usize>)
        ensures
            r == match self.source() {
                Some(c) => Some(c.buffered().len() as usize),
                None => None::<usize>,
            },
    {
        match &self.external_underlying_source {
            Some(c) => Some(c.buffer_len()),
            None => None,
        }
    }

    /// Pushes bytes from the producer into the controller.
    pub fn enqueue_native(&mut self, bytes: &[u8])
        requires
            old(self).wf(),
            old(self).source() is Some,
            !old(self).source()->0.is_closed(),
        ensures
            final(self).wf(),
            final(self).has_reader() == old(self).has_reader(),
            final(self).source() is Some,
            final(self).source()->0.buffered() == old(self).source()->0.buffered() + bytes@,
            !final(self).source()->0.is_closed(),
            final(self).source()->0.finalizer() == old(self).source()->0.finalizer(),
            final(self).engine() == old(self).engine().signal_if_readable(
                (old(self).source()->0.buffered().len() + bytes@.len()) as usize,
            ),
    {
        match &mut self.external_underlying_source {
            Some(c) => c.enqueue_chunk(&mut self.js_stream, bytes),
            None => {},
        }
    }

    /// Errors the consumer side with `reason`, if it is readable.
    pub fn error_native(&mut self, reason: ErrorReason)
        requires
            old(self).wf(),
        ensures
            final(self).wf(),
            final(self).has_reader() == old(self).has_reader(),
            final(self).source() == old(self).source(),
            final(self).engine() == old(self).engine().error_if_readable(reason),
    {
        self.js_stream.error(reason);
    }

    /// Closes the stream through its controller.
    pub fn close_native(&mut self)
        requires
            old(self).wf(),
            old(self).source() is Some,
        ensures
            final(self).wf(),
            final(self).has_reader() == old(self).has_reader(),
            final(self).source() is Some,
            final(self).source()->0.is_closed(),
            final(self).source()->0.buffered() == old(self).source()->0.buffered(),
            final(self).source()->0.finalizer() == old(self).source()->0.finalizer(),
            final(self).engine() == old(self).engine().close_if_readable(),
    {
        match &mut self.external_underlying_source {
            Some(c) => c.close(&mut self.js_stream),
            None => {},
        }
    }

    /// Takes a reader and locks the stream. Refused when the stream is
    /// locked or was ever read.
    pub fn start_reading(&mut self) -> (r: Result<(), ()>)
        requires
            old(self).wf(),
        ensures
            final(self).wf(),
            r is Ok <==> old(self).can_start_reading(),
            final(self).source() == old(self).source(),
            r is Ok ==> final(self).has_reader() && final(self).engine() == (EngineView {
                locked: true,
                ..old(self).engine()
            }),
            r is Err ==> final(self).has_reader() == old(self).has_reader() && final(self).engine()
                == old(self).engine(),
    {
        if self.is_locked() || self.is_disturbed() {
            return Err(());
        }
        self.js_stream.get_reader();
        self.has_reader = true;
        Ok(())
    }

    /// Reads one chunk. An errored stream gives its reason; otherwise all
    /// buffered bytes come out at once; with none buffered, the read pulls
    /// from the controller (a closed one closes the stream) and comes to
    /// `Done` if the stream is no longer readable, else waits.
    pub fn read_a_chunk(&mut self) -> (r: ReadResult)
        requires
            old(self).wf(),
            old(self).has_reader(),
        ensures
            final(self).wf(),
            final(self).has_reader(),
            final(self).read_initiated(),
            r@ == old(self).read_outcome(),
            final(self).engine().locked == old(self).engine().locked,
            final(self).source() is Some <==> old(self).source() is Some,
            match old(self).engine().state {
                StreamState::Errored(reason) => {
                    &&& r@ == ReadOutcome::Errored(reason)
                    &&& final(self).engine() == (EngineView {
                        disturbed: true,
                        ..old(self).engine()
                    })
                    &&& final(self).source() == old(self).source()
                },
                _ => match old(self).source() {
                    None => {
                        &&& final(self).engine() == (EngineView {
                            disturbed: true,
                            ..old(self).engine()
                        })
                        &&& r@ == if old(self).engine().state == StreamState::Readable {
                            ReadOutcome::Pending
                        } else {
                            ReadOutcome::Done
                        }
                    },
                    Some(c) => {
                        let e = EngineView { disturbed: true, ..old(self).engine() };
                        let c2 = final(self).source()->0;
                        &&& c2.is_closed() == c.is_closed()
                        &&& c2.finalizer() == c.finalizer()
                        &&& if c.buffered().len() > 0 {
                            &&& r@ == ReadOutcome::Chunk(c.buffered())
                            &&& c2.buffered() == Seq::<u8>::empty()
                            &&& final(self).engine() == if c.is_closed() {
                                e.close_if_readable()
                            } else {
                                e.signal_if_readable(c.buffered().len() as usize)
                            }
                        } else {
                            &&& c2.buffered() == c.buffered()
                            &&& final(self).engine() == if c.is_closed() {
                                e.close_if_readable()
                            } else {
                                e
                            }
                            &&& r@ == if final(self).engine().is_readable() {
                                ReadOutcome::Pending
                            } else {
                                ReadOutcome::Done
                            }
                        }
                    },
                },
            },
    {
        self.js_stream.mark_disturbed();
        if let StreamState::Errored(reason) = self.js_stream.state() {
            return ReadResult::Errored(reason);
        }
        match &mut self.external_underlying_source {
            Some(c) => read_from_source(c, &mut self.js_stream),
            None => {
                if self.js_stream.is_readable() {
                    ReadResult::Pending
                } else {
                    ReadResult::Done
                }
            },
        }
    }

    /// Releases the native reader. Whether the stream was read stays as it is.
    pub fn stop_reading(&mut self)
        requires
            old(self).wf(),
            old(self).has_reader(),
        ensures
            final(self).wf(),
            !final(self).has_reader(),
            final(self).source() == old(self).source(),
            final(self).engine() == (EngineView { locked: false, ..old(self).engine() }),
    {
        self.has_reader = false;
        self.js_stream.release_lock();
    }

    /// Whether native code holds a reader.
    pub fn has_native_reader(&self) -> (r: bool)
        ensures
            r == self.has_reader(),
    {
        self.has_reader
    }

    /// Locked by a native reader, or by script.
    pub fn is_locked(&self) -> (r: bool)
        ensures
            r == self.is_locked_spec(),
    {
        if self.has_reader {
            return true;
        }
        self.js_stream.is_locked()
    }

    /// Read by anyone, whether or not a reader is held now.
    pub fn is_disturbed(&self) -> (r: bool)
        ensures
            r == self.is_disturbed_spec(),
    {
        self.js_stream.is_disturbed()
    }

    /// Whether the stream has a controller with its finalizer armed.
    pub open spec fn finalize_armed(&self) -> bool {
        self.source() is Some && self.source()->0.finalize_armed()
    }

    pub fn is_finalize_armed(&self) -> (r: bool)
        ensures
            r == self.finalize_armed(),
    {
        match &self.external_underlying_source {
            Some(c) => c.is_finalize_armed(),
            None => false,
        }
    }

    /// The engine's finalize trap: fires the controller's finalizer, which
    /// queues the teardown on `queue`. It fires at most once.
    pub fn request_finalize(&mut self, queue: &mut TaskQueue)
        requires
            old(self).wf(),
            old(self).finalize_armed(),
        ensures
            final(self).wf(),
            final(self).has_reader() == old(self).has_reader(),
            final(self).engine() == old(self).engine(),
            final(self).source() is Some,
            fired(
                old(self).source()->0,
                final(self).source()->0,
                old(queue).pending(),
                final(queue).pending(),
            ),
            final(queue).current_generation() == old(queue).current_generation(),
    {
        match &mut self.external_underlying_source {
            Some(c) => c.finalize(queue),
            None => {},
        }
    }

    /// Teardown on the owning thread, once the queued task runs: the
    /// controller and whatever it still buffers are released.
    pub fn finalize(&mut self)
        requires
            old(self).wf(),
        ensures
            final(self).wf(),
            final(self).has_reader() == old(self).has_reader(),
            final(self).engine() == old(self).engine(),
            final(self).source() is None,
    {
        self.external_underlying_source = None;
    }
}

/// No double lock: a stream that holds a native reader, as `start_reading`
/// leaves it and as it stays until `stop_reading`, refuses `start_reading`.
pub proof fn lemma_no_double_lock(stream: ReadableStream)
    requires
        stream.has_reader(),
    ensures
        !stream.can_start_reading(),
{
}

/// Once a read was made, the stream counts as disturbed for good: releasing
/// the reader, and every other step, keeps the read recorded.
pub proof fn lemma_disturbed_after_read(stream: ReadableStream)
    requires
        stream.read_initiated(),
    ensures
        stream.is_disturbed_spec(),
        !stream.can_start_reading(),
{
}

} // verus!
