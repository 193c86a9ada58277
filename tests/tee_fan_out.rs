use readable_stream::engine::{ErrorReason, StreamState};
use readable_stream::tee::{structured_clone, CancelPromise, ChunkValue, TeeReadRequest, DATA_CLONE_ERROR};

fn bytes(b: &[u8]) -> ChunkValue {
    ChunkValue::Bytes(b.to_vec())
}

#[test]
fn both_branches_receive_all_chunks_in_order() {
    let mut tee = TeeReadRequest::new(false);
    for c in [bytes(&[1]), bytes(&[2, 2]), bytes(&[3])] {
        tee.pull_algorithm();
        tee.chunk_steps(c);
    }
    let expected = vec![bytes(&[1]), bytes(&[2, 2]), bytes(&[3])];
    assert_eq!(tee.branch_1().received(), &expected);
    assert_eq!(tee.branch_2().received(), &expected);
    assert_eq!(tee.cancel_promise(), CancelPromise::Pending);
}

#[test]
fn canceling_branch_1_leaves_branch_2_fed() {
    let mut tee = TeeReadRequest::new(false);
    tee.pull_algorithm();
    tee.chunk_steps(bytes(&[1]));
    tee.cancel_branch_1();
    assert_eq!(tee.branch_1().state(), StreamState::Closed);
    tee.pull_algorithm();
    tee.chunk_steps(bytes(&[2]));
    tee.pull_algorithm();
    tee.chunk_steps(bytes(&[3]));
    assert_eq!(tee.branch_1().received(), &vec![bytes(&[1])]);
    assert_eq!(tee.branch_2().received(), &vec![bytes(&[1]), bytes(&[2]), bytes(&[3])]);
    assert_eq!(tee.cancel_promise(), CancelPromise::Pending);
    assert!(!tee.upstream_canceled());
    tee.cancel_branch_2();
    assert!(tee.upstream_canceled());
    assert_eq!(tee.cancel_promise(), CancelPromise::Resolved);
}

#[test]
fn close_after_one_cancel_resolves_promise() {
    let mut tee = TeeReadRequest::new(false);
    tee.cancel_branch_1();
    tee.close_steps();
    assert_eq!(tee.branch_2().state(), StreamState::Closed);
    assert_eq!(tee.cancel_promise(), CancelPromise::Resolved);
    assert!(!tee.upstream_canceled());
}

#[test]
fn pull_during_read_is_coalesced() {
    let mut tee = TeeReadRequest::new(false);
    tee.branch_1_read();
    tee.branch_2_read();
    tee.pull_algorithm();
    assert_eq!(tee.upstream_reads(), 1);
    tee.pull_algorithm();
    tee.pull_algorithm();
    assert_eq!(tee.upstream_reads(), 1);
    assert!(tee.read_again());
    tee.chunk_steps(bytes(&[5]));
    assert_eq!(tee.upstream_reads(), 2);
    assert!(tee.is_reading());
}

#[test]
fn no_further_read_without_demand() {
    let mut tee = TeeReadRequest::new(false);
    tee.pull_algorithm();
    tee.chunk_steps(bytes(&[5]));
    assert_eq!(tee.upstream_reads(), 1);
    assert!(!tee.is_reading());
}

#[test]
fn clone_failure_errors_both_branches() {
    let mut tee = TeeReadRequest::new(true);
    tee.pull_algorithm();
    tee.chunk_steps(ChunkValue::Uncloneable(4));
    let e = ErrorReason { code: DATA_CLONE_ERROR };
    assert_eq!(tee.branch_1().state(), StreamState::Errored(e));
    assert_eq!(tee.branch_2().state(), StreamState::Errored(e));
    assert_eq!(tee.cancel_promise(), CancelPromise::ResolvedWithError(e));
    assert!(tee.upstream_canceled());
    assert!(tee.branch_1().received().is_empty());
    assert!(tee.branch_2().received().is_empty());
}

#[test]
fn clone_for_branch_2_copies_bytes() {
    let mut tee = TeeReadRequest::new(true);
    tee.pull_algorithm();
    tee.chunk_steps(bytes(&[1, 2]));
    assert_eq!(tee.branch_2().received(), &vec![bytes(&[1, 2])]);
    assert_eq!(tee.branch_1().received(), &vec![bytes(&[1, 2])]);
}

#[test]
fn uncloneable_chunk_passes_when_branch_2_canceled() {
    let mut tee = TeeReadRequest::new(true);
    tee.cancel_branch_2();
    tee.pull_algorithm();
    tee.chunk_steps(ChunkValue::Uncloneable(1));
    assert_eq!(tee.branch_1().received(), &vec![ChunkValue::Uncloneable(1)]);
    assert_eq!(tee.branch_1().state(), StreamState::Readable);
}

#[test]
fn structured_clone_results() {
    assert_eq!(structured_clone(&bytes(&[3, 4])), Ok(bytes(&[3, 4])));
    assert_eq!(
        structured_clone(&ChunkValue::Uncloneable(9)),
        Err(ErrorReason { code: DATA_CLONE_ERROR })
    );
}

#[test]
fn chunk_steps_run_from_microtask() {
    let mut tee = TeeReadRequest::new(false);
    tee.pull_algorithm();
    let task = tee.enqueue_chunk_steps(bytes(&[8]));
    assert_eq!(tee.branch_1().received().len(), 0);
    task.microtask_chunk_steps(&mut tee);
    assert_eq!(tee.branch_1().received(), &vec![bytes(&[8])]);
    assert!(!tee.is_reading());
}

#[test]
fn error_steps_end_the_read_only() {
    let mut tee = TeeReadRequest::new(false);
    tee.pull_algorithm();
    tee.error_steps();
    assert!(!tee.is_reading());
    assert_eq!(tee.branch_1().state(), StreamState::Readable);
    assert_eq!(tee.cancel_promise(), CancelPromise::Pending);
}

#[test]
fn both_canceled_then_close_keeps_promise() {
    let mut tee = TeeReadRequest::new(false);
    tee.cancel_branch_1();
    tee.cancel_branch_2();
    assert_eq!(tee.cancel_promise(), CancelPromise::Resolved);
    tee.close_steps();
    assert_eq!(tee.cancel_promise(), CancelPromise::Resolved);
}
