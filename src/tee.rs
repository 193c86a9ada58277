//! Fan-out of one stream into two branches.
//!
//! The tee reads the source stream one chunk at a time and hands each chunk
//! to both branches, optionally a structured clone of it to the second one.
//! At most one upstream read is in flight: a pull that comes while one is
//! sets `read_again`, and the next read is issued once the chunk is handed
//! out. Each branch can be canceled on its own; only when both are is the
//! source canceled.

use vstd::prelude::*;
use crate::engine::{ErrorReason, StreamState};

verus! {

/// The code of the error raised when a value cannot be structurally cloned.
pub const DATA_CLONE_ERROR: u32 = 25;

/// A chunk as it travels through the tee.
#[derive(Debug, PartialEq, Eq)]
pub enum ChunkValue {
    /// A byte chunk.
    Bytes(Vec<u8>),
    /// A script value that structured cloning refuses, named by an id.
    Uncloneable(u32),
}

/// The abstract value of a [`ChunkValue`].
pub ghost enum ChunkModel {
    Bytes(Seq<u8>),
    Uncloneable(u32),
}

impl View for ChunkValue {
    type V = ChunkModel;

    open spec fn view(&self) -> ChunkModel {
        match self {
            ChunkValue::Bytes(b) => ChunkModel::Bytes(b@),
            ChunkValue::Uncloneable(id) => ChunkModel::Uncloneable(*id),
        }
    }
}

pub open spec fn data_clone_error() -> ErrorReason {
    ErrorReason { code: DATA_CLONE_ERROR }
}

/// Structured cloning of a chunk: bytes are copied, anything else fails.
pub open spec fn clone_succeeds(chunk: ChunkModel) -> bool {
    chunk is Bytes
}

/// A copy of `bytes`.
fn copy_bytes(bytes: &Vec<u8>) -> (r: Vec<u8>)
    ensures
        r@ == bytes@,
{
    let mut copy: Vec<u8> = Vec::new();
    let mut i: usize = 0;
    while i < bytes.len()
        invariant
            i <= bytes@.len(),
            copy@ == bytes@.take(i as int),
        decreases bytes@.len() - i,
    {
        copy.push(bytes[i]);
        i = i + 1;
        assert(copy@ =~= bytes@.take(i as int));
    }
    assert(copy@ =~= bytes@);
    copy
}

/// A second handle on the same chunk.
fn share_chunk(chunk: &ChunkValue) -> (r: ChunkValue)
    ensures
        r@ == chunk@,
{
    match chunk {
        ChunkValue::Bytes(bytes) => ChunkValue::Bytes(copy_bytes(bytes)),
        ChunkValue::Uncloneable(id) => ChunkValue::Uncloneable(*id),
    }
}

/// A deep copy of `chunk`, or the clone error.
pub fn structured_clone(chunk: &ChunkValue) -> (r: Result<ChunkValue, ErrorReason>)
    ensures
        clone_succeeds(chunk@) ==> r is Ok && r->Ok_0@ == chunk@,
        !clone_succeeds(chunk@) ==> r == Err::<ChunkValue, ErrorReason>(data_clone_error()),
{
    match chunk {
        ChunkValue::Bytes(bytes) => Ok(ChunkValue::Bytes(copy_bytes(bytes))),
        ChunkValue::Uncloneable(_) => Err(ErrorReason { code: DATA_CLONE_ERROR }),
    }
}

/// The promise that both branches' cancellation returns.
#[derive(Clone, Copy, Debug, PartialEq, Eq, Structural)]
pub enum CancelPromise {
    Pending,
    Resolved,
    /// Resolved with the error that stopped the tee.
    ResolvedWithError(ErrorReason),
}

impl CancelPromise {
    /// A promise settles once; later resolutions are ignored.
    pub open spec fn resolve(self, value: CancelPromise) -> CancelPromise {
        if self == CancelPromise::Pending {
            value
        } else {
            self
        }
    }
}

/// The abstract value of a [`BranchController`].
pub ghost struct BranchView {
    pub state: StreamState,
    /// Every chunk the branch was given, in order.
    pub received: Seq<ChunkModel>,
    /// Reads of the branch's consumer that wait for a chunk.
    pub waiting_reads: nat,
}

impl BranchView {
    /// Whether handing this branch a chunk makes it ask for another: it does
    /// when the chunk fulfils a waiting read.
    pub open spec fn demands(self) -> bool {
        self.state == StreamState::Readable && self.waiting_reads > 0
    }

    pub open spec fn enqueue(self, chunk: ChunkModel) -> BranchView {
        if self.state == StreamState::Readable {
            BranchView {
                received: self.received.push(chunk),
                waiting_reads: if self.waiting_reads > 0 {
                    (self.waiting_reads - 1) as nat
                } else {
                    0
                },
                ..self
            }
        } else {
            self
        }
    }

    pub open spec fn close(self) -> BranchView {
        if self.state == StreamState::Readable {
            BranchView { state: StreamState::Closed, ..self }
        } else {
            self
        }
    }

    pub open spec fn error(self, reason: ErrorReason) -> BranchView {
        if self.state == StreamState::Readable {
            BranchView { state: StreamState::Errored(reason), ..self }
        } else {
            self
        }
    }
}

/// The default controller of one branch.
pub struct BranchController {
    state: StreamState,
    received: Vec<ChunkValue>,
    waiting_reads: u64,
}

impl View for BranchController {
    type V = BranchView;

    closed spec fn view(&self) -> BranchView {
        BranchView {
            state: self.state,
            received: self.received@.map_values(|c: ChunkValue| c@),
            waiting_reads: self.waiting_reads as nat,
        }
    }
}

impl BranchController {
    pub fn new() -> (r: BranchController)
        ensures
            r@ == (BranchView {
                state: StreamState::Readable,
                received: Seq::empty(),
                waiting_reads: 0,
            }),
    {
        let r = BranchController { state: StreamState::Readable, received: Vec::new(), waiting_reads: 0 };
        assert(r@.received =~= Seq::<ChunkModel>::empty());
        r
    }

    pub fn state(&self) -> (r: StreamState)
        ensures
            r == self@.state,
    {
        self.state
    }

    /// The chunks given to this branch, in order.
    pub fn received(&self) -> (r: &Vec<ChunkValue>)
        ensures
            r@.map_values(|c: ChunkValue| c@) == self@.received,
    {
        &self.received
    }

    pub fn waiting_reads(&self) -> (r: u64)
        ensures
            r == self@.waiting_reads,
    {
        self.waiting_reads
    }

    /// The branch's consumer starts one more read.
    pub fn add_waiting_read(&mut self)
        requires
            old(self)@.waiting_reads < u64::MAX,
        ensures
            final(self)@ == (BranchView { waiting_reads: old(self)@.waiting_reads + 1, ..old(self)@ }),
    {
        self.waiting_reads = self.waiting_reads + 1;
    }

    /// Hands `chunk` to a readable branch; returns whether the branch now asks
    /// for another chunk.
    pub fn enqueue(&mut self, chunk: ChunkValue) -> (pull: bool)
        ensures
            pull == old(self)@.demands(),
            final(self)@ == old(self)@.enqueue(chunk@),
    {
        match self.state {
            StreamState::Readable => {},
            _ => return false,
        }
        let ghost before = self.received@;
        self.received.push(chunk);
        assert(self.received@.map_values(|c: ChunkValue| c@) =~= before.map_values(
            |c: ChunkValue| c@,
        ).push(chunk@));
        if self.waiting_reads > 0 {
            self.waiting_reads = self.waiting_reads - 1;
            true
        } else {
            false
        }
    }

    pub fn close(&mut self)
        ensures
            final(self)@ == old(self)@.close(),
    {
        if let StreamState::Readable = self.state {
            self.state = StreamState::Closed;
        }
    }

    pub fn error(&mut self, reason: ErrorReason)
        ensures
            final(self)@ == old(self)@.error(reason),
    {
        if let StreamState::Readable = self.state {
            self.state = StreamState::Errored(reason);
        }
    }
}

/// The abstract value of a [`TeeReadRequest`].
pub ghost struct TeeView {
    /// An upstream read is in flight.
    pub reading: bool,
    /// A pull came while it was.
    pub read_again: bool,
    pub canceled_1: bool,
    pub canceled_2: bool,
    pub clone_for_branch_2: bool,
    pub branch_1: BranchView,
    pub branch_2: BranchView,
    pub cancel_promise: CancelPromise,
    /// Upstream reads issued so far.
    pub upstream_reads: nat,
    /// Whether the source stream was canceled.
    pub upstream_canceled: bool,
}

impl TeeView {
    /// The pull algorithm: a pull while a read is in flight is remembered,
    /// otherwise one upstream read is issued.
    pub open spec fn pull(self) -> TeeView {
        if self.reading {
            TeeView { read_again: true, ..self }
        } else {
            TeeView { reading: true, upstream_reads: self.upstream_reads + 1, ..self }
        }
    }

    /// Hands `chunk` to branch 1; a branch that asks for more pulls.
    pub open spec fn enqueue_1(self, chunk: ChunkModel) -> TeeView {
        let s = TeeView { branch_1: self.branch_1.enqueue(chunk), ..self };
        if self.branch_1.demands() {
            s.pull()
        } else {
            s
        }
    }

    /// Hands `chunk` to branch 2; a branch that asks for more pulls.
    pub open spec fn enqueue_2(self, chunk: ChunkModel) -> TeeView {
        let s = TeeView { branch_2: self.branch_2.enqueue(chunk), ..self };
        if self.branch_2.demands() {
            s.pull()
        } else {
            s
        }
    }

    /// Hands `chunk` to branch 1 unless it is canceled.
    pub open spec fn deliver_1(self, chunk: ChunkModel) -> TeeView {
        if self.canceled_1 {
            self
        } else {
            self.enqueue_1(chunk)
        }
    }

    /// Hands `chunk` to branch 2 unless it is canceled.
    pub open spec fn deliver_2(self, chunk: ChunkModel) -> TeeView {
        if self.canceled_2 {
            self
        } else {
            self.enqueue_2(chunk)
        }
    }

    /// Whether the chunk steps must clone `chunk` for branch 2 and fail to.
    pub open spec fn clone_fails(self, chunk: ChunkModel) -> bool {
        !self.canceled_2 && self.clone_for_branch_2 && !clone_succeeds(chunk)
    }

    /// The chunk steps. A clone that fails errors both branches, cancels the
    /// source and settles the cancel promise with the error. Otherwise branch
    /// 1 gets the chunk, then branch 2 (its clone, equal to it), the read is
    /// over, and a pull that came meanwhile issues the next read.
    pub open spec fn chunk(self, chunk: ChunkModel) -> TeeView {
        let s0 = TeeView { read_again: false, ..self };
        if s0.clone_fails(chunk) {
            TeeView {
                branch_1: s0.branch_1.error(data_clone_error()),
                branch_2: s0.branch_2.error(data_clone_error()),
                upstream_canceled: true,
                cancel_promise: s0.cancel_promise.resolve(
                    CancelPromise::ResolvedWithError(data_clone_error()),
                ),
                ..s0
            }
        } else {
            let s2 = s0.deliver_1(chunk).deliver_2(chunk);
            let s3 = TeeView { reading: false, ..s2 };
            if s3.read_again {
                s3.pull()
            } else {
                s3
            }
        }
    }

    /// The close steps: branches that are not canceled close, and unless
    /// both were canceled the cancel promise resolves.
    pub open spec fn close(self) -> TeeView {
        TeeView {
            reading: false,
            branch_1: if self.canceled_1 {
                self.branch_1
            } else {
                self.branch_1.close()
            },
            branch_2: if self.canceled_2 {
                self.branch_2
            } else {
                self.branch_2.close()
            },
            cancel_promise: if !self.canceled_1 || !self.canceled_2 {
                self.cancel_promise.resolve(CancelPromise::Resolved)
            } else {
                self.cancel_promise
            },
            ..self
        }
    }

    /// The error steps: the read is over, nothing else changes.
    pub open spec fn error(self) -> TeeView {
        TeeView { reading: false, ..self }
    }

    /// Canceling branch 1 closes it and marks it canceled; once both are,
    /// the source is canceled and the cancel promise resolves.
    pub open spec fn cancel_1(self) -> TeeView {
        let s = TeeView { canceled_1: true, branch_1: self.branch_1.close(), ..self };
        if s.canceled_2 {
            TeeView {
                upstream_canceled: true,
                cancel_promise: s.cancel_promise.resolve(CancelPromise::Resolved),
                ..s
            }
        } else {
            s
        }
    }

    pub open spec fn cancel_2(self) -> TeeView {
        let s = TeeView { canceled_2: true, branch_2: self.branch_2.close(), ..self };
        if s.canceled_1 {
            TeeView {
                upstream_canceled: true,
                cancel_promise: s.cancel_promise.resolve(CancelPromise::Resolved),
                ..s
            }
        } else {
            s
        }
    }

    /// The chunk steps for `chunks`, one after the other.
    pub open spec fn chunks(self, chunks: Seq<ChunkModel>) -> TeeView
        decreases chunks.len(),
    {
        if chunks.len() == 0 {
            self
        } else {
            self.chunk(chunks[0]).chunks(chunks.drop_first())
        }
    }
}

/// The tee's read request: its state, and the two branch controllers.
pub struct TeeReadRequest {
    reading: bool,
    read_again: bool,
    canceled_1: bool,
    canceled_2: bool,
    clone_for_branch_2: bool,
    branch_1: BranchController,
    branch_2: BranchController,
    cancel_promise: CancelPromise,
    upstream_reads: u64,
    upstream_canceled: bool,
}

impl View for TeeReadRequest {
    type V = TeeView;

    closed spec fn view(&self) -> TeeView {
        TeeView {
            reading: self.reading,
            read_again: self.read_again,
            canceled_1: self.canceled_1,
            canceled_2: self.canceled_2,
            clone_for_branch_2: self.clone_for_branch_2,
            branch_1: self.branch_1@,
            branch_2: self.branch_2@,
            cancel_promise: self.cancel_promise,
            upstream_reads: self.upstream_reads as nat,
            upstream_canceled: self.upstream_canceled,
        }
    }
}

/// The chunk steps of one read, queued as a microtask.
pub struct TeeReadRequestMicrotask {
    pub chunk: ChunkValue,
}

impl TeeReadRequestMicrotask {
    /// Runs the chunk steps for the queued chunk.
    pub fn microtask_chunk_steps(self, tee: &mut TeeReadRequest)
        requires
            old(tee)@.upstream_reads < u64::MAX - 1,
        ensures
            final(tee)@ == old(tee)@.chunk(self.chunk@),
    {
        tee.chunk_steps(self.chunk);
    }
}

impl TeeReadRequest {
    /// A tee over a stream that no one has read from yet: no read in flight,
    /// nothing canceled, both branches readable and empty.
    pub fn new(clone_for_branch_2: bool) -> (r: TeeReadRequest)
        ensures
            r@ == (TeeView {
                reading: false,
                read_again: false,
                canceled_1: false,
                canceled_2: false,
                clone_for_branch_2,
                branch_1: BranchView {
                    state: StreamState::Readable,
                    received: Seq::empty(),
                    waiting_reads: 0,
                },
                branch_2: BranchView {
                    state: StreamState::Readable,
                    received: Seq::empty(),
                    waiting_reads: 0,
                },
                cancel_promise: CancelPromise::Pending,
                upstream_reads: 0,
                upstream_canceled: false,
            }),
    {
        TeeReadRequest {
            reading: false,
            read_again: false,
            canceled_1: false,
            canceled_2: false,
            clone_for_branch_2,
            branch_1: BranchController::new(),
            branch_2: BranchController::new(),
            cancel_promise: CancelPromise::Pending,
            upstream_reads: 0,
            upstream_canceled: false,
        }
    }

    pub fn branch_1(&self) -> (r: &BranchController)
        ensures
            r@ == self@.branch_1,
    {
        &self.branch_1
    }

    pub fn branch_2(&self) -> (r: &BranchController)
        ensures
            r@ == self@.branch_2,
    {
        &self.branch_2
    }

    pub fn cancel_promise(&self) -> (r: CancelPromise)
        ensures
            r == self@.cancel_promise,
    {
        self.cancel_promise
    }

    pub fn upstream_reads(&self) -> (r: u64)
        ensures
            r == self@.upstream_reads,
    {
        self.upstream_reads
    }

    pub fn is_reading(&self) -> (r: bool)
        ensures
            r == self@.reading,
    {
        self.reading
    }

    pub fn read_again(&self) -> (r: bool)
        ensures
            r == self@.read_again,
    {
        self.read_again
    }

    pub fn upstream_canceled(&self) -> (r: bool)
        ensures
            r == self@.upstream_canceled,
    {
        self.upstream_canceled
    }

    /// The consumer of branch 1 starts a read.
    pub fn branch_1_read(&mut self)
        requires
            old(self)@.branch_1.waiting_reads < u64::MAX,
        ensures
            final(self)@ == (TeeView {
                branch_1: BranchView {
                    waiting_reads: old(self)@.branch_1.waiting_reads + 1,
                    ..old(self)@.branch_1
                },
                ..old(self)@
            }),
    {
        self.branch_1.add_waiting_read();
    }

    /// The consumer of branch 2 starts a read.
    pub fn branch_2_read(&mut self)
        requires
            old(self)@.branch_2.waiting_reads < u64::MAX,
        ensures
            final(self)@ == (TeeView {
                branch_2: BranchView {
                    waiting_reads: old(self)@.branch_2.waiting_reads + 1,
                    ..old(self)@.branch_2
                },
                ..old(self)@
            }),
    {
        self.branch_2.add_waiting_read();
    }

    /// The pull algorithm shared by both branches.
    pub fn pull_algorithm(&mut self)
        requires
            old(self)@.reading || old(self)@.upstream_reads < u64::MAX,
        ensures
            final(self)@ == old(self)@.pull(),
    {
        if self.reading {
            self.read_again = true;
        } else {
            self.reading = true;
            self.upstream_reads = self.upstream_reads + 1;
        }
    }

    pub fn branch_1_default_controller_error(&mut self, error: ErrorReason)
        ensures
            final(self)@ == (TeeView { branch_1: old(self)@.branch_1.error(error), ..old(self)@ }),
    {
        self.branch_1.error(error);
    }

    pub fn branch_2_default_controller_error(&mut self, error: ErrorReason)
        ensures
            final(self)@ == (TeeView { branch_2: old(self)@.branch_2.error(error), ..old(self)@ }),
    {
        self.branch_2.error(error);
    }

    /// Cancels the source stream because of `reason`, and settles the cancel
    /// promise with it.
    pub fn stream_cancel(&mut self, reason: ErrorReason)
        ensures
            final(self)@ == (TeeView {
                upstream_canceled: true,
                cancel_promise: old(self)@.cancel_promise.resolve(
                    CancelPromise::ResolvedWithError(reason),
                ),
                ..old(self)@
            }),
    {
        self.upstream_canceled = true;
        self.resolve_cancel_promise(CancelPromise::ResolvedWithError(reason));
    }

    fn resolve_cancel_promise(&mut self, value: CancelPromise)
        ensures
            final(self)@ == (TeeView {
                cancel_promise: old(self)@.cancel_promise.resolve(value),
                ..old(self)@
            }),
    {
        if let CancelPromise::Pending = self.cancel_promise {
            self.cancel_promise = value;
        }
    }

    /// Hands `chunk` to branch 1, which may ask for the next one.
    pub fn branch_1_default_controller_enqueue(&mut self, chunk: ChunkValue)
        requires
            old(self)@.upstream_reads < u64::MAX || old(self)@.reading,
        ensures
            final(self)@ == old(self)@.enqueue_1(chunk@),
    {
        if self.branch_1.enqueue(chunk) {
            self.pull_algorithm();
        }
    }

    /// Hands `chunk` to branch 2, which may ask for the next one.
    pub fn branch_2_default_controller_enqueue(&mut self, chunk: ChunkValue)
        requires
            old(self)@.upstream_reads < u64::MAX || old(self)@.reading,
        ensures
            final(self)@ == old(self)@.enqueue_2(chunk@),
    {
        if self.branch_2.enqueue(chunk) {
            self.pull_algorithm();
        }
    }

    pub fn branch_1_default_controller_close(&mut self)
        ensures
            final(self)@ == (TeeView { branch_1: old(self)@.branch_1.close(), ..old(self)@ }),
    {
        self.branch_1.close();
    }

    pub fn branch_2_default_controller_close(&mut self)
        ensures
            final(self)@ == (TeeView { branch_2: old(self)@.branch_2.close(), ..old(self)@ }),
    {
        self.branch_2.close();
    }

    /// Queues the chunk steps for `chunk` as a microtask.
    pub fn enqueue_chunk_steps(&self, chunk: ChunkValue) -> (r: TeeReadRequestMicrotask)
        ensures
            r.chunk@ == chunk@,
    {
        TeeReadRequestMicrotask { chunk }
    }

    /// The chunk steps, see [`TeeView::chunk`].
    pub fn chunk_steps(&mut self, chunk: ChunkValue)
        requires
            old(self)@.upstream_reads < u64::MAX - 1,
        ensures
            final(self)@ == old(self)@.chunk(chunk@),
    {
        self.read_again = false;
        let chunk1 = chunk;
        let mut chunk2: Option<ChunkValue> = None;
        if !self.canceled_2 && self.clone_for_branch_2 {
            match structured_clone(&chunk1) {
                Err(error) => {
                    self.branch_1_default_controller_error(error);
                    self.branch_2_default_controller_error(error);
                    self.stream_cancel(error);
                    return;
                },
                Ok(copy) => {
                    chunk2 = Some(copy);
                },
            }
        }
        let ghost c = chunk1@;
        let ghost s0 = self@;
        let chunk2 = match chunk2 {
            Some(copy) => copy,
            None => share_chunk(&chunk1),
        };
        if !self.canceled_1 {
            self.branch_1_default_controller_enqueue(chunk1);
        }
        assert(self@ == s0.deliver_1(c));
        if !self.canceled_2 {
            self.branch_2_default_controller_enqueue(chunk2);
        }
        assert(self@ == s0.deliver_1(c).deliver_2(c));
        assert(self@.upstream_reads <= s0.upstream_reads + 1);
        self.reading = false;
        if self.read_again {
            self.pull_algorithm();
        }
    }

    /// The close steps, see [`TeeView::close`].
    pub fn close_steps(&mut self)
        ensures
            final(self)@ == old(self)@.close(),
    {
        self.reading = false;
        if !self.canceled_1 {
            self.branch_1_default_controller_close();
        }
        if !self.canceled_2 {
            self.branch_2_default_controller_close();
        }
        if !self.canceled_1 || !self.canceled_2 {
            self.resolve_cancel_promise(CancelPromise::Resolved);
        }
    }

    /// The error steps, see [`TeeView::error`].
    pub fn error_steps(&mut self)
        ensures
            final(self)@ == old(self)@.error(),
    {
        self.reading = false;
    }

    /// Cancels branch 1, see [`TeeView::cancel_1`].
    pub fn cancel_branch_1(&mut self)
        ensures
            final(self)@ == old(self)@.cancel_1(),
    {
        self.canceled_1 = true;
        self.branch_1.close();
        if self.canceled_2 {
            self.upstream_canceled = true;
            self.resolve_cancel_promise(CancelPromise::Resolved);
        }
    }

    /// Cancels branch 2, see [`TeeView::cancel_2`].
    pub fn cancel_branch_2(&mut self)
        ensures
            final(self)@ == old(self)@.cancel_2(),
    {
        self.canceled_2 = true;
        self.branch_2.close();
        if self.canceled_1 {
            self.upstream_canceled = true;
            self.resolve_cancel_promise(CancelPromise::Resolved);
        }
    }
}


/// Fan-out: with neither branch canceled and no cloning, both readable
/// branches receive the upstream chunks, all of them, in the same order.
pub proof fn lemma_tee_fan_out(s: TeeView, chunks: Seq<ChunkModel>)
    requires
        !s.canceled_1,
        !s.canceled_2,
        !s.clone_for_branch_2,
        s.branch_1.state == StreamState::Readable,
        s.branch_2.state == StreamState::Readable,
    ensures
        s.chunks(chunks).branch_1.received == s.branch_1.received + chunks,
        s.chunks(chunks).branch_2.received == s.branch_2.received + chunks,
    decreases chunks.len(),
{
    if chunks.len() == 0 {
        assert(s.branch_1.received + chunks =~= s.branch_1.received);
        assert(s.branch_2.received + chunks =~= s.branch_2.received);
    } else {
        let t = s.chunk(chunks[0]);
        lemma_tee_fan_out(t, chunks.drop_first());
        assert(s.branch_1.received.push(chunks[0]) + chunks.drop_first() =~= s.branch_1.received
            + chunks);
        assert(s.branch_2.received.push(chunks[0]) + chunks.drop_first() =~= s.branch_2.received
            + chunks);
    }
}

/// With branch 1 canceled and branch 2 not, branch 2 goes on receiving every
/// chunk in order, branch 1 receives none, and the cancel promise stays as
/// it is.
pub proof fn lemma_tee_after_cancel_1(s: TeeView, chunks: Seq<ChunkModel>)
    requires
        s.canceled_1,
        !s.canceled_2,
        !s.clone_for_branch_2,
        s.branch_2.state == StreamState::Readable,
    ensures
        s.chunks(chunks).branch_2.received == s.branch_2.received + chunks,
        s.chunks(chunks).branch_1.received == s.branch_1.received,
        s.chunks(chunks).cancel_promise == s.cancel_promise,
        s.chunks(chunks).canceled_1,
        !s.chunks(chunks).canceled_2,
        !s.chunks(chunks).upstream_canceled || s.upstream_canceled,
    decreases chunks.len(),
{
    if chunks.len() == 0 {
        assert(s.branch_2.received + chunks =~= s.branch_2.received);
    } else {
        let t = s.chunk(chunks[0]);
        lemma_tee_after_cancel_1(t, chunks.drop_first());
        assert(s.branch_2.received.push(chunks[0]) + chunks.drop_first() =~= s.branch_2.received
            + chunks);
    }
}

/// Independent cancellation: cancel branch 1 after chunk `c1`; branch 2 still
/// receives the later chunks, branch 1 nothing more, and the shared cancel
/// promise stays pending until branch 2 is canceled too or the source
/// closes, either of which resolves it.
pub proof fn lemma_tee_independent_cancel(s: TeeView, c1: ChunkModel, rest: Seq<ChunkModel>)
    requires
        !s.canceled_1,
        !s.canceled_2,
        !s.clone_for_branch_2,
        s.branch_1.state == StreamState::Readable,
        s.branch_2.state == StreamState::Readable,
        s.cancel_promise == CancelPromise::Pending,
    ensures
        ({
            let t = s.chunk(c1).cancel_1().chunks(rest);
            &&& t.branch_1.received == s.branch_1.received.push(c1)
            &&& t.branch_2.received == s.branch_2.received.push(c1) + rest
            &&& t.cancel_promise == CancelPromise::Pending
            &&& t.cancel_2().cancel_promise == CancelPromise::Resolved
            &&& t.close().cancel_promise == CancelPromise::Resolved
        }),
{
    let u = s.chunk(c1);
    assert(u.branch_1.received == s.branch_1.received.push(c1));
    assert(u.branch_2.received == s.branch_2.received.push(c1));
    lemma_tee_after_cancel_1(u.cancel_1(), rest);
}

/// Read-again coalescing: while an upstream read is in flight, pulls issue
/// no read and repeated pulls change nothing more than the first. When the
/// chunk is handed out to a branch that asked for more, exactly one further
/// upstream read is issued, not one per pull, even when both branches ask.
pub proof fn lemma_read_again_coalescing(s: TeeView, chunk: ChunkModel)
    requires
        s.reading,
        !s.clone_fails(chunk),
        (!s.canceled_1 && s.branch_1.demands()) || (!s.canceled_2 && s.branch_2.demands()),
    ensures
        s.pull().upstream_reads == s.upstream_reads,
        s.pull().pull() == s.pull(),
        s.pull().chunk(chunk).upstream_reads == s.upstream_reads + 1,
        s.pull().pull().chunk(chunk).upstream_reads == s.upstream_reads + 1,
        s.pull().chunk(chunk).reading,
{
}

} // verus!
