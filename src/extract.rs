//! Extracting a body: turning what a request or response is given as its
//! body into a natively fed stream, with the body's content type and length.
//!
//! Serializing form data or URL search parameters happens before: this
//! module takes their bytes.

use vstd::prelude::*;
use crate::finalizer::{StreamFinalizer, TaskQueue};
use crate::source::ExternalUnderlyingSource;
use crate::stream::ReadableStream;

verus! {

/// Which kind of value a body was extracted from.
#[derive(Clone, Copy, Debug, PartialEq, Eq, Structural)]
pub enum BodySource {
    Null,
    BufferSource,
    FormData,
    Blob,
    USVString,
    URLSearchParams,
}

/// The content type that goes with an extracted body.
#[derive(Debug, PartialEq, Eq)]
pub enum ContentType {
    /// `text/plain;charset=UTF-8`
    TextPlainUtf8,
    /// `application/x-www-form-urlencoded;charset=UTF-8`
    FormUrlEncodedUtf8,
    /// `multipart/form-data;boundary=` followed by the boundary.
    MultipartFormData(Vec<u8>),
    /// The type a blob was made with.
    Given(Vec<u8>),
}

/// The abstract value of a [`ContentType`].
pub ghost enum ContentTypeModel {
    TextPlainUtf8,
    FormUrlEncodedUtf8,
    MultipartFormData(Seq<u8>),
    Given(Seq<u8>),
}

impl View for ContentType {
    type V = ContentTypeModel;

    open spec fn view(&self) -> ContentTypeModel {
        match self {
            ContentType::TextPlainUtf8 => ContentTypeModel::TextPlainUtf8,
            ContentType::FormUrlEncodedUtf8 => ContentTypeModel::FormUrlEncodedUtf8,
            ContentType::MultipartFormData(b) => ContentTypeModel::MultipartFormData(b@),
            ContentType::Given(t) => ContentTypeModel::Given(t@),
        }
    }
}

/// What a body can be given as.
pub enum BodyInit {
    /// A string, as UTF-8.
    String(Vec<u8>),
    /// URL search parameters, serialized as UTF-8.
    URLSearchParams(Vec<u8>),
    /// A blob: its type, which may be empty, and its bytes.
    Blob(Vec<u8>, Vec<u8>),
    /// Form data, encoded as multipart with the given boundary.
    FormData(Vec<u8>, Vec<u8>),
    /// The bytes of an array buffer.
    ArrayBuffer(Vec<u8>),
    /// The bytes an array buffer view covers.
    ArrayBufferView(Vec<u8>),
    /// A stream, taken as it is.
    ReadableStream(ReadableStream),
}

/// The result of extracting a body.
pub struct ExtractedBody {
    pub stream: ReadableStream,
    pub source: BodySource,
    /// The body's length, or 0 when it is a stream of unknown length.
    pub total_bytes: usize,
    pub content_type: Option<ContentType>,
}

/// The bytes of a body that is not a stream.
pub open spec fn body_bytes(init: BodyInit) -> Seq<u8> {
    match init {
        BodyInit::String(b) => b@,
        BodyInit::URLSearchParams(b) => b@,
        BodyInit::Blob(_, b) => b@,
        BodyInit::FormData(_, b) => b@,
        BodyInit::ArrayBuffer(b) => b@,
        BodyInit::ArrayBufferView(b) => b@,
        BodyInit::ReadableStream(_) => Seq::empty(),
    }
}

/// The kind of value a body was extracted from.
pub open spec fn body_source(init: BodyInit) -> BodySource {
    match init {
        BodyInit::String(_) => BodySource::USVString,
        BodyInit::URLSearchParams(_) => BodySource::URLSearchParams,
        BodyInit::Blob(_, _) => BodySource::Blob,
        BodyInit::FormData(_, _) => BodySource::FormData,
        BodyInit::ArrayBuffer(_) => BodySource::BufferSource,
        BodyInit::ArrayBufferView(_) => BodySource::BufferSource,
        BodyInit::ReadableStream(_) => BodySource::Null,
    }
}

/// The content type of a body: none for buffers and streams, and none for a
/// blob made without a type.
pub open spec fn body_content_type(init: BodyInit) -> Option<ContentTypeModel> {
    match init {
        BodyInit::String(_) => Some(ContentTypeModel::TextPlainUtf8),
        BodyInit::URLSearchParams(_) => Some(ContentTypeModel::FormUrlEncodedUtf8),
        BodyInit::Blob(t, _) => if t@.len() == 0 {
            None
        } else {
            Some(ContentTypeModel::Given(t@))
        },
        BodyInit::FormData(boundary, _) => Some(ContentTypeModel::MultipartFormData(boundary@)),
        BodyInit::ArrayBuffer(_) => None,
        BodyInit::ArrayBufferView(_) => None,
        BodyInit::ReadableStream(_) => None,
    }
}

pub open spec fn content_type_view(c: Option<ContentType>) -> Option<ContentTypeModel> {
    match c {
        Some(t) => Some(t@),
        None => None,
    }
}

/// A fresh natively fed stream over `bytes`, armed to be finalized as `slot`
/// on `queue`.
pub open spec fn is_fresh_memory_stream(
    stream: ReadableStream,
    bytes: Seq<u8>,
    slot: usize,
    queue: TaskQueue,
) -> bool {
    &&& stream.wf()
    &&& !stream.is_locked_spec()
    &&& !stream.is_disturbed_spec()
    &&& stream.engine().state == crate::engine::StreamState::Readable
    &&& stream.source() is Some
    &&& stream.source()->0.buffered() == bytes
    &&& !stream.source()->0.is_closed()
    &&& stream.source()->0.finalizer() == Some(
        StreamFinalizer { stream: slot, canceller: queue.task_canceller_spec() },
    )
}

/// A body over bytes held in memory.
fn memory_body(
    bytes: Vec<u8>,
    source: BodySource,
    content_type: Option<ContentType>,
    slot: usize,
    queue: &TaskQueue,
) -> (r: ExtractedBody)
    ensures
        is_fresh_memory_stream(r.stream, bytes@, slot, *queue),
        r.total_bytes == bytes@.len(),
        r.source == source,
        content_type_view(r.content_type) == content_type_view(content_type),
{
    let total_bytes = bytes.len();
    let stream = ReadableStream::new_with_external_underlying_source(
        ExternalUnderlyingSource::Memory(bytes),
        slot,
        queue,
    );
    ExtractedBody { stream, source, total_bytes, content_type }
}

impl BodyInit {
    /// Extracts the body. A stream is taken as it is, with no length or
    /// type. Anything else becomes a fresh natively fed stream over its
    /// bytes, armed to be finalized as `slot` on `queue`, with their number
    /// as the total length.
    pub fn extract(self, slot: usize, queue: &TaskQueue) -> (r: ExtractedBody)
        ensures
            r.source == body_source(self),
            content_type_view(r.content_type) == body_content_type(self),
            match self {
                BodyInit::ReadableStream(s) => r.stream == s && r.total_bytes == 0,
                _ => is_fresh_memory_stream(r.stream, body_bytes(self), slot, *queue)
                    && r.total_bytes == body_bytes(self).len(),
            },
    {
        match self {
            BodyInit::String(bytes) => memory_body(
                bytes,
                BodySource::USVString,
                Some(ContentType::TextPlainUtf8),
                slot,
                queue,
            ),
            BodyInit::URLSearchParams(bytes) => memory_body(
                bytes,
                BodySource::URLSearchParams,
                Some(ContentType::FormUrlEncodedUtf8),
                slot,
                queue,
            ),
            BodyInit::Blob(type_, bytes) => {
                let content_type = if type_.len() == 0 {
                    None
                } else {
                    Some(ContentType::Given(type_))
                };
                memory_body(bytes, BodySource::Blob, content_type, slot, queue)
            },
            BodyInit::FormData(boundary, bytes) => memory_body(
                bytes,
                BodySource::FormData,
                Some(ContentType::MultipartFormData(boundary)),
                slot,
                queue,
            ),
            BodyInit::ArrayBuffer(bytes) => memory_body(
                bytes,
                BodySource::BufferSource,
                None,
                slot,
                queue,
            ),
            BodyInit::ArrayBufferView(bytes) => memory_body(
                bytes,
                BodySource::BufferSource,
                None,
                slot,
                queue,
            ),
            BodyInit::ReadableStream(stream) => ExtractedBody {
                stream,
                source: BodySource::Null,
                total_bytes: 0,
                content_type: None,
            },
        }
    }
}

/// Extracts a body from bytes that a form submission encoded: a natively fed
/// stream over them, with no content type.
pub fn extract_bytes(bytes: Vec<u8>, slot: usize, queue: &TaskQueue) -> (r: ExtractedBody)
    ensures
        is_fresh_memory_stream(r.stream, bytes@, slot, *queue),
        r.total_bytes == bytes@.len(),
        r.source == BodySource::FormData,
        r.content_type is None,
{
    memory_body(bytes, BodySource::FormData, None, slot, queue)
}

} // verus!
