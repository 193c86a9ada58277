use readable_stream::engine::{EngineStream, StreamSignal, StreamState};
use readable_stream::source::{ExternalUnderlyingSource, ExternalUnderlyingSourceController};

#[test]
fn memory_source_drains_in_order() {
    let mut c = ExternalUnderlyingSourceController::new(ExternalUnderlyingSource::Memory(vec![1, 2, 3, 4, 5]));
    let mut s = EngineStream::new();
    c.pull(&mut s, 3);
    assert_eq!(s.signals(), &vec![StreamSignal::DataAvailable(5)]);

    let mut first = Vec::new();
    assert_eq!(c.write_into_buffer(&mut first, 3), 3);
    assert_eq!(first, vec![1, 2, 3]);
    assert_eq!(c.buffer_len(), 2);

    let mut second = Vec::new();
    assert_eq!(c.write_into_buffer(&mut second, 2), 2);
    assert_eq!(second, vec![4, 5]);
    assert_eq!(c.buffer_len(), 0);

    // Empty and open: pulling waits and signals nothing.
    c.pull(&mut s, 3);
    assert_eq!(s.signals().len(), 1);
    assert_eq!(s.state(), StreamState::Readable);
}

#[test]
fn enqueue_signals_total_buffered_length() {
    let mut c = ExternalUnderlyingSourceController::new(ExternalUnderlyingSource::FetchResponse);
    let mut s = EngineStream::new();
    c.enqueue_chunk(&mut s, &[10, 11]);
    c.enqueue_chunk(&mut s, &[12]);
    assert_eq!(
        s.signals(),
        &vec![StreamSignal::DataAvailable(2), StreamSignal::DataAvailable(3)]
    );
}

#[test]
fn enqueued_chunks_drain_fifo() {
    let mut c = ExternalUnderlyingSourceController::new(ExternalUnderlyingSource::FetchRequest);
    let mut s = EngineStream::new();
    c.enqueue_chunk(&mut s, &[1, 2, 3]);
    c.enqueue_chunk(&mut s, &[4]);
    c.enqueue_chunk(&mut s, &[5, 6]);
    let mut out = Vec::new();
    c.write_into_buffer(&mut out, 2);
    c.write_into_buffer(&mut out, 3);
    c.write_into_buffer(&mut out, 1);
    assert_eq!(out, vec![1, 2, 3, 4, 5, 6]);
    assert_eq!(c.buffer_len(), 0);
}

#[test]
fn write_appends_after_existing_target_bytes() {
    let mut c = ExternalUnderlyingSourceController::new(ExternalUnderlyingSource::Memory(vec![7, 8]));
    let mut out = vec![9];
    assert_eq!(c.write_into_buffer(&mut out, 1), 1);
    assert_eq!(out, vec![9, 7]);
    assert_eq!(c.buffer_len(), 1);
}

#[test]
fn blob_and_fetch_sources_start_empty() {
    let blob = ExternalUnderlyingSourceController::new(ExternalUnderlyingSource::Blob(64));
    assert_eq!(blob.buffer_len(), 0);
    assert!(!blob.closed());
    let response = ExternalUnderlyingSourceController::new(ExternalUnderlyingSource::FetchResponse);
    assert_eq!(response.buffer_len(), 0);
}

#[test]
fn close_twice_signals_once() {
    let mut c = ExternalUnderlyingSourceController::new(ExternalUnderlyingSource::FetchResponse);
    let mut s = EngineStream::new();
    c.close(&mut s);
    assert!(c.closed());
    assert_eq!(s.state(), StreamState::Closed);
    assert_eq!(s.signals(), &vec![StreamSignal::Closed]);
    c.close(&mut s);
    assert!(c.closed());
    assert_eq!(s.signals(), &vec![StreamSignal::Closed]);
}

#[test]
fn pull_on_closed_source_closes_readable_stream() {
    let mut c = ExternalUnderlyingSourceController::new(ExternalUnderlyingSource::FetchResponse);
    let mut closed_side = EngineStream::new();
    c.close(&mut closed_side);
    // A second consumer side, still readable, is closed by the pull.
    let mut s = EngineStream::new();
    c.pull(&mut s, 1);
    assert_eq!(s.state(), StreamState::Closed);
    assert_eq!(s.signals(), &vec![StreamSignal::Closed]);
}

#[test]
fn pull_with_bytes_signals_buffer_length_not_desired_size() {
    let c = ExternalUnderlyingSourceController::new(ExternalUnderlyingSource::Memory(vec![1, 2]));
    let mut s = EngineStream::new();
    c.pull(&mut s, 100);
    assert_eq!(s.signals(), &vec![StreamSignal::DataAvailable(2)]);
}

#[test]
fn errored_stream_gets_no_signal() {
    let mut c = ExternalUnderlyingSourceController::new(ExternalUnderlyingSource::FetchResponse);
    let mut s = EngineStream::new();
    s.error(readable_stream::engine::ErrorReason { code: 3 });
    c.enqueue_chunk(&mut s, &[1]);
    c.close(&mut s);
    assert_eq!(s.signals().len(), 1);
    assert_eq!(c.buffer_len(), 1);
}
