//! Consuming a body stream to its end, and transmitting one chunk by chunk.
//!
//! Both drive a [`ReadableStream`] with a native reader; the decisions taken
//! on each read are here, while waiting for the producer is left to the
//! caller.

use vstd::prelude::*;
use crate::engine::ErrorReason;
use crate::stream::{ReadOutcome, ReadResult, ReadableStream};

verus! {

/// What a consumed body is to be turned into.
#[derive(Clone, Copy, Debug, PartialEq, Eq, Structural)]
pub enum BodyType {
    Blob,
    FormData,
    Json,
    Text,
    ArrayBuffer,
}

/// Why consuming a body was refused or failed.
#[derive(Clone, Copy, Debug, PartialEq, Eq, Structural)]
pub enum BodyError {
    /// The body was used already, or its stream is locked or disturbed.
    DisturbedOrLocked,
    /// The stream errored with this reason.
    Stream(ErrorReason),
}

/// Where consuming a body stands after one read.
#[derive(Clone, Copy, Debug, PartialEq, Eq, Structural)]
pub enum ConsumeStep {
    /// A chunk was taken in; read again.
    Continue,
    /// Nothing is there yet; read again once the producer pushed more.
    Wait,
    /// The stream ended: the body is complete.
    Complete,
    /// The stream errored: the body promise is rejected.
    Rejected(ErrorReason),
}

/// The state of consuming one body: what it becomes, its MIME type, and the
/// bytes gathered so far.
pub struct ConsumeBodyPromiseHandler {
    body_type: BodyType,
    mime_type: Vec<u8>,
    bytes: Vec<u8>,
}

/// What a consume step makes of a read outcome.
pub open spec fn consume_step_of(outcome: ReadOutcome) -> ConsumeStep {
    match outcome {
        ReadOutcome::Chunk(_) => ConsumeStep::Continue,
        ReadOutcome::Pending => ConsumeStep::Wait,
        ReadOutcome::Done => ConsumeStep::Complete,
        ReadOutcome::Errored(reason) => ConsumeStep::Rejected(reason),
    }
}

/// Starts consuming the body held by `stream`. Refused when the body was
/// used already, or when the stream is locked or disturbed; otherwise the
/// stream is locked to a native reader and nothing is gathered yet.
pub fn consume_body(
    stream: &mut ReadableStream,
    body_used: bool,
    body_type: BodyType,
    mime_type: Vec<u8>,
) -> (r: Result<ConsumeBodyPromiseHandler, BodyError>)
    requires
        old(stream).wf(),
    ensures
        final(stream).wf(),
        r is Ok <==> !body_used && old(stream).can_start_reading(),
        r is Err ==> {
            &&& r == Err::<ConsumeBodyPromiseHandler, BodyError>(BodyError::DisturbedOrLocked)
            &&& final(stream).engine() == old(stream).engine()
            &&& final(stream).has_reader() == old(stream).has_reader()
            &&& final(stream).source() == old(stream).source()
        },
        r is Ok ==> {
            &&& final(stream).has_reader()
            &&& final(stream).source() == old(stream).source()
            &&& r->Ok_0.gathered() == Seq::<u8>::empty()
            &&& r->Ok_0.body_type_spec() == body_type
            &&& r->Ok_0.mime_type_spec() == mime_type@
        },
{
    if body_used || stream.is_locked() {
        return Err(BodyError::DisturbedOrLocked);
    }
    consume_body_with_promise(stream, body_type, mime_type)
}

/// Locks `stream` to a native reader for consuming its body; refused when the
/// stream is locked or disturbed.
pub fn consume_body_with_promise(
    stream: &mut ReadableStream,
    body_type: BodyType,
    mime_type: Vec<u8>,
) -> (r: Result<ConsumeBodyPromiseHandler, BodyError>)
    requires
        old(stream).wf(),
    ensures
        final(stream).wf(),
        r is Ok <==> old(stream).can_start_reading(),
        r is Err ==> {
            &&& r == Err::<ConsumeBodyPromiseHandler, BodyError>(BodyError::DisturbedOrLocked)
            &&& final(stream).engine() == old(stream).engine()
            &&& final(stream).has_reader() == old(stream).has_reader()
            &&& final(stream).source() == old(stream).source()
        },
        r is Ok ==> {
            &&& final(stream).has_reader()
            &&& final(stream).source() == old(stream).source()
            &&& r->Ok_0.gathered() == Seq::<u8>::empty()
            &&& r->Ok_0.body_type_spec() == body_type
            &&& r->Ok_0.mime_type_spec() == mime_type@
        },
{
    match stream.start_reading() {
        Ok(()) => Ok(ConsumeBodyPromiseHandler { body_type, mime_type, bytes: Vec::new() }),
        Err(()) => Err(BodyError::DisturbedOrLocked),
    }
}

impl ConsumeBodyPromiseHandler {
    /// The bytes gathered so far, in the order they were read.
    pub closed spec fn gathered(&self) -> Seq<u8> {
        self.bytes@
    }

    pub closed spec fn body_type_spec(&self) -> BodyType {
        self.body_type
    }

    pub closed spec fn mime_type_spec(&self) -> Seq<u8> {
        self.mime_type@
    }

    pub fn bytes(&self) -> (r: &Vec<u8>)
        ensures
            r@ == self.gathered(),
    {
        &self.bytes
    }

    pub fn body_type(&self) -> (r: BodyType)
        ensures
            r == self.body_type_spec(),
    {
        self.body_type
    }

    pub fn mime_type(&self) -> (r: &Vec<u8>)
        ensures
            r@ == self.mime_type_spec(),
    {
        &self.mime_type
    }

    /// Takes in what one read came to: a chunk is appended to the bytes
    /// gathered; the other outcomes gather nothing.
    pub fn callback(&mut self, result: ReadResult) -> (r: ConsumeStep)
        ensures
            r == consume_step_of(result@),
            final(self).body_type_spec() == old(self).body_type_spec(),
            final(self).mime_type_spec() == old(self).mime_type_spec(),
            final(self).gathered() == match result@ {
                ReadOutcome::Chunk(bytes) => old(self).gathered() + bytes,
                _ => old(self).gathered(),
            },
    {
        match result {
            ReadResult::Chunk(chunk) => {
                let mut chunk = chunk;
                self.bytes.append(&mut chunk);
                ConsumeStep::Continue
            },
            ReadResult::Pending => ConsumeStep::Wait,
            ReadResult::Done => ConsumeStep::Complete,
            ReadResult::Errored(reason) => ConsumeStep::Rejected(reason),
        }
    }

    /// Reads one chunk from `stream` and takes it in.
    pub fn read_next(&mut self, stream: &mut ReadableStream) -> (r: ConsumeStep)
        requires
            old(stream).wf(),
            old(stream).has_reader(),
        ensures
            final(stream).wf(),
            final(stream).has_reader(),
            final(stream).read_initiated(),
            final(self).body_type_spec() == old(self).body_type_spec(),
            final(self).mime_type_spec() == old(self).mime_type_spec(),
            r == consume_step_of(old(stream).read_outcome()),
            final(self).gathered() == match old(stream).read_outcome() {
                ReadOutcome::Chunk(bytes) => old(self).gathered() + bytes,
                _ => old(self).gathered(),
            },
    {
        let result = stream.read_a_chunk();
        self.callback(result)
    }

    /// The complete body: its type, its MIME type, and all its bytes.
    pub fn into_parts(self) -> (r: (BodyType, Vec<u8>, Vec<u8>))
        ensures
            r.0 == self.body_type_spec(),
            r.1@ == self.mime_type_spec(),
            r.2@ == self.gathered(),
    {
        (self.body_type, self.mime_type, self.bytes)
    }
}

/// What transmitting a body does after one read.
#[derive(Debug, PartialEq, Eq)]
pub enum TransmitAction {
    /// Send these bytes on.
    Send(Vec<u8>),
    /// Nothing is there yet; ask again later.
    Wait,
    /// The body ended; the reader was released.
    Finished,
    /// The stream could not be read or errored; the reader, if any, was
    /// released.
    Failed,
}

/// The abstract value of a [`TransmitAction`].
pub ghost enum TransmitOutcome {
    Send(Seq<u8>),
    Wait,
    Finished,
    Failed,
}

impl View for TransmitAction {
    type V = TransmitOutcome;

    open spec fn view(&self) -> TransmitOutcome {
        match self {
            TransmitAction::Send(bytes) => TransmitOutcome::Send(bytes@),
            TransmitAction::Wait => TransmitOutcome::Wait,
            TransmitAction::Finished => TransmitOutcome::Finished,
            TransmitAction::Failed => TransmitOutcome::Failed,
        }
    }
}

/// What transmitting makes of a read outcome.
pub open spec fn transmit_action_of(outcome: ReadOutcome) -> TransmitOutcome {
    match outcome {
        ReadOutcome::Chunk(bytes) => TransmitOutcome::Send(bytes),
        ReadOutcome::Pending => TransmitOutcome::Wait,
        ReadOutcome::Done => TransmitOutcome::Finished,
        ReadOutcome::Errored(_) => TransmitOutcome::Failed,
    }
}

/// Acts on what one read of a transmitted body came to: bytes are sent on,
/// and the end of the stream or an error releases the reader.
pub fn transmit_body_callback(stream: &mut ReadableStream, result: ReadResult) -> (r:
    TransmitAction)
    requires
        old(stream).wf(),
        old(stream).has_reader(),
    ensures
        final(stream).wf(),
        r@ == transmit_action_of(result@),
        final(stream).source() == old(stream).source(),
        (r is Finished || r is Failed) ==> !final(stream).has_reader() && final(stream).engine()
            == (crate::engine::EngineView { locked: false, ..old(stream).engine() }),
        (r is Send || r is Wait) ==> final(stream).has_reader() && final(stream).engine()
            == old(stream).engine(),
{
    match result {
        ReadResult::Chunk(bytes) => TransmitAction::Send(bytes),
        ReadResult::Pending => TransmitAction::Wait,
        ReadResult::Done => {
            stream.stop_reading();
            TransmitAction::Finished
        },
        ReadResult::Errored(_) => {
            stream.stop_reading();
            TransmitAction::Failed
        },
    }
}

/// Answers a request for the next chunk of a transmitted body: takes a
/// reader if none is held (failing when the stream is locked or disturbed),
/// reads one chunk and acts on it.
pub fn transmit_body_chunk(stream: &mut ReadableStream) -> (r: TransmitAction)
    requires
        old(stream).wf(),
    ensures
        final(stream).wf(),
        !old(stream).has_reader() && !old(stream).can_start_reading() ==> {
            &&& r is Failed
            &&& final(stream).engine() == old(stream).engine()
            &&& final(stream).source() == old(stream).source()
            &&& !final(stream).has_reader()
        },
        old(stream).has_reader() || old(stream).can_start_reading() ==> {
            &&& final(stream).read_initiated()
            &&& r@ == transmit_action_of(old(stream).read_outcome())
            &&& (r is Send || r is Wait) <==> final(stream).has_reader()
        },
{
    if !stream.has_native_reader() {
        if stream.start_reading().is_err() {
            return TransmitAction::Failed;
        }
    }
    let result = stream.read_a_chunk();
    transmit_body_callback(stream, result)
}

} // verus!
