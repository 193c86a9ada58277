use readable_stream::engine::{EngineStream, ErrorReason, StreamSignal, StreamState};
use readable_stream::finalizer::{TaskOutcome, TaskQueue};
use readable_stream::source::ExternalUnderlyingSource;
use readable_stream::stream::{EngineValue, ReadResult, ReadableStream};

fn fetch_stream(queue: &TaskQueue) -> ReadableStream {
    ReadableStream::new_with_external_underlying_source(ExternalUnderlyingSource::FetchResponse, 0, queue)
}

#[test]
fn second_start_reading_is_refused() {
    let queue = TaskQueue::new();
    let mut s = fetch_stream(&queue);
    assert_eq!(s.start_reading(), Ok(()));
    assert!(s.is_locked());
    assert_eq!(s.start_reading(), Err(()));
}

#[test]
fn disturbed_stays_after_stop_reading() {
    let queue = TaskQueue::new();
    let mut s = fetch_stream(&queue);
    s.start_reading().unwrap();
    assert_eq!(s.read_a_chunk(), ReadResult::Pending);
    s.stop_reading();
    assert!(!s.is_locked());
    assert!(s.is_disturbed());
    assert_eq!(s.start_reading(), Err(()));
}

#[test]
fn lock_without_read_can_be_taken_again() {
    let queue = TaskQueue::new();
    let mut s = fetch_stream(&queue);
    s.start_reading().unwrap();
    assert!(s.is_locked());
    assert!(!s.is_disturbed());
    s.stop_reading();
    assert!(!s.is_disturbed());
    assert_eq!(s.start_reading(), Ok(()));
}

#[test]
fn reads_follow_the_producer() {
    let queue = TaskQueue::new();
    let mut s = ReadableStream::new_with_external_underlying_source(
        ExternalUnderlyingSource::Memory(vec![1, 2, 3]),
        0,
        &queue,
    );
    s.start_reading().unwrap();
    assert_eq!(s.read_a_chunk(), ReadResult::Chunk(vec![1, 2, 3]));
    assert_eq!(s.read_a_chunk(), ReadResult::Pending);
    s.enqueue_native(&[4, 5]);
    s.enqueue_native(&[6]);
    assert_eq!(s.buffered_len(), Some(3));
    assert_eq!(s.read_a_chunk(), ReadResult::Chunk(vec![4, 5, 6]));
    s.close_native();
    assert_eq!(s.read_a_chunk(), ReadResult::Done);
    assert_eq!(s.get_js_stream().state(), StreamState::Closed);
}

#[test]
fn bytes_buffered_before_close_are_still_read() {
    let queue = TaskQueue::new();
    let mut s = fetch_stream(&queue);
    s.enqueue_native(&[9, 8]);
    s.close_native();
    s.start_reading().unwrap();
    assert_eq!(s.read_a_chunk(), ReadResult::Chunk(vec![9, 8]));
    assert_eq!(s.read_a_chunk(), ReadResult::Done);
}

#[test]
fn errored_stream_reads_its_reason() {
    let queue = TaskQueue::new();
    let mut s = fetch_stream(&queue);
    s.start_reading().unwrap();
    s.enqueue_native(&[1]);
    s.error_native(ErrorReason { code: 19 });
    assert_eq!(s.read_a_chunk(), ReadResult::Errored(ErrorReason { code: 19 }));
    assert_eq!(
        s.get_js_stream().signals(),
        &vec![StreamSignal::DataAvailable(1), StreamSignal::Errored(ErrorReason { code: 19 })]
    );
}

#[test]
fn from_js_refuses_other_values() {
    assert!(ReadableStream::from_js(EngineValue::NotAStream).is_err());
}

#[test]
fn script_locked_stream_refuses_native_reader() {
    let mut engine = EngineStream::new();
    engine.get_reader();
    let mut s = ReadableStream::from_js(EngineValue::Stream(engine)).unwrap();
    assert!(s.is_locked());
    assert!(!s.is_disturbed());
    assert_eq!(s.start_reading(), Err(()));
    assert_eq!(s.buffered_len(), None);
}

#[test]
fn script_stream_without_source_reads_pending_then_done() {
    let mut s = ReadableStream::from_js(EngineValue::Stream(EngineStream::new())).unwrap();
    s.start_reading().unwrap();
    assert_eq!(s.read_a_chunk(), ReadResult::Pending);
    assert!(s.get_js_stream().is_disturbed());
}

#[test]
fn finalize_hook_fires_once() {
    let mut queue = TaskQueue::new();
    let mut s = ReadableStream::new_with_external_underlying_source(
        ExternalUnderlyingSource::FetchResponse,
        7,
        &queue,
    );
    assert!(s.is_finalize_armed());
    s.request_finalize(&mut queue);
    assert_eq!(queue.len(), 1);
    assert!(!s.is_finalize_armed());
    assert_eq!(queue.run_next(), TaskOutcome::Run(7));
    assert_eq!(queue.run_next(), TaskOutcome::Empty);
    s.finalize();
    assert_eq!(s.buffered_len(), None);
}

#[test]
fn cancelled_finalize_task_does_not_run() {
    let mut queue = TaskQueue::new();
    let mut s = ReadableStream::new_with_external_underlying_source(
        ExternalUnderlyingSource::FetchResponse,
        3,
        &queue,
    );
    s.request_finalize(&mut queue);
    queue.cancel_pending();
    assert_eq!(queue.run_next(), TaskOutcome::Cancelled);
    assert_eq!(queue.len(), 0);
}

#[test]
fn stream_without_source_has_no_finalizer() {
    let s = ReadableStream::from_js(EngineValue::Stream(EngineStream::new())).unwrap();
    assert!(!s.is_finalize_armed());
}
