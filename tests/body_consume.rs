use readable_stream::body::{
    consume_body, transmit_body_chunk, BodyError, BodyType, ConsumeStep, TransmitAction,
};
use readable_stream::engine::ErrorReason;
use readable_stream::finalizer::TaskQueue;
use readable_stream::source::ExternalUnderlyingSource;
use readable_stream::stream::ReadableStream;

fn stream_of(bytes: Vec<u8>) -> ReadableStream {
    let queue = TaskQueue::new();
    ReadableStream::new_with_external_underlying_source(ExternalUnderlyingSource::Memory(bytes), 0, &queue)
}

#[test]
fn consume_gathers_every_chunk() {
    let mut s = stream_of(vec![1, 2]);
    let mut h = consume_body(&mut s, false, BodyType::Text, b"text/plain".to_vec()).unwrap();
    assert_eq!(h.read_next(&mut s), ConsumeStep::Continue);
    assert_eq!(h.read_next(&mut s), ConsumeStep::Wait);
    s.enqueue_native(&[3]);
    assert_eq!(h.read_next(&mut s), ConsumeStep::Continue);
    s.close_native();
    assert_eq!(h.read_next(&mut s), ConsumeStep::Complete);
    let (t, mime, body) = h.into_parts();
    assert_eq!(t, BodyType::Text);
    assert_eq!(mime, b"text/plain".to_vec());
    assert_eq!(body, vec![1, 2, 3]);
}

#[test]
fn used_body_is_refused() {
    let mut s = stream_of(vec![1]);
    assert!(matches!(
        consume_body(&mut s, true, BodyType::Json, Vec::new()),
        Err(BodyError::DisturbedOrLocked)
    ));
    assert!(!s.is_locked());
}

#[test]
fn locked_body_is_refused() {
    let mut s = stream_of(vec![1]);
    s.start_reading().unwrap();
    assert!(matches!(
        consume_body(&mut s, false, BodyType::Blob, Vec::new()),
        Err(BodyError::DisturbedOrLocked)
    ));
}

#[test]
fn errored_body_rejects() {
    let mut s = stream_of(vec![]);
    let mut h = consume_body(&mut s, false, BodyType::ArrayBuffer, Vec::new()).unwrap();
    s.error_native(ErrorReason { code: 2 });
    assert_eq!(h.read_next(&mut s), ConsumeStep::Rejected(ErrorReason { code: 2 }));
    assert!(h.bytes().is_empty());
}

#[test]
fn transmit_sends_chunks_then_releases() {
    let mut s = stream_of(vec![4, 5]);
    assert_eq!(transmit_body_chunk(&mut s), TransmitAction::Send(vec![4, 5]));
    assert!(s.is_locked());
    assert_eq!(transmit_body_chunk(&mut s), TransmitAction::Wait);
    s.enqueue_native(&[6]);
    assert_eq!(transmit_body_chunk(&mut s), TransmitAction::Send(vec![6]));
    s.close_native();
    assert_eq!(transmit_body_chunk(&mut s), TransmitAction::Finished);
    assert!(!s.is_locked());
}

#[test]
fn transmit_fails_on_disturbed_stream() {
    let mut s = stream_of(vec![1]);
    s.start_reading().unwrap();
    s.read_a_chunk();
    s.stop_reading();
    assert_eq!(transmit_body_chunk(&mut s), TransmitAction::Failed);
    assert!(!s.is_locked());
}

#[test]
fn transmit_error_releases_reader() {
    let mut s = stream_of(vec![]);
    s.error_native(ErrorReason { code: 1 });
    assert_eq!(transmit_body_chunk(&mut s), TransmitAction::Failed);
    assert!(!s.is_locked());
}
