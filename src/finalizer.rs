//! One-shot finalization of a natively fed stream.
//!
//! Collection of the script-visible stream may be noticed on any thread, but
//! teardown must run on the thread that owns the stream. The finalizer is
//! armed once, and firing it consumes it: it queues a task on the owning
//! context's queue, which runs it there unless the context cancelled its
//! pending tasks first.

use vstd::prelude::*;

verus! {

/// A token that tells whether a queued task is still wanted: it is, as long
/// as the queue has not cancelled its pending tasks since the token was made.
#[derive(Clone, Copy, Debug, PartialEq, Eq, Structural)]
pub struct TaskCanceller {
    pub generation: u64,
}

/// The teardown of one stream, identified by its slot in the owning context.
#[derive(Clone, Copy, Debug, PartialEq, Eq, Structural)]
pub struct FinalizeTask {
    pub stream: usize,
    pub canceller: TaskCanceller,
}

/// What running the next queued task came to.
#[derive(Clone, Copy, Debug, PartialEq, Eq, Structural)]
pub enum TaskOutcome {
    /// Nothing was queued.
    Empty,
    /// The task was cancelled before it ran; it was dropped.
    Cancelled,
    /// The stream in this slot is to be finalized now.
    Run(usize),
}

/// The owning context's task queue, first in, first out.
pub struct TaskQueue {
    tasks: Vec<FinalizeTask>,
    generation: u64,
}

impl TaskQueue {
    pub closed spec fn pending(&self) -> Seq<FinalizeTask> {
        self.tasks@
    }

    pub closed spec fn current_generation(&self) -> u64 {
        self.generation
    }

    /// The token that `task_canceller` gives now.
    pub open spec fn task_canceller_spec(&self) -> TaskCanceller {
        TaskCanceller { generation: self.current_generation() }
    }

    /// Whether `task` would run if it came up now.
    pub open spec fn is_live(&self, task: FinalizeTask) -> bool {
        task.canceller.generation == self.current_generation()
    }

    pub fn new() -> (r: TaskQueue)
        ensures
            r.pending() == Seq::<FinalizeTask>::empty(),
    {
        TaskQueue { tasks: Vec::new(), generation: 0 }
    }

    pub fn len(&self) -> (r: usize)
        ensures
            r == self.pending().len(),
    {
        self.tasks.len()
    }

    /// How many times pending tasks were cancelled.
    pub fn generation(&self) -> (r: u64)
        ensures
            r == self.current_generation(),
    {
        self.generation
    }

    /// A token under which tasks run until the next cancellation.
    pub fn task_canceller(&self) -> (r: TaskCanceller)
        ensures
            r.generation == self.current_generation(),
    {
        TaskCanceller { generation: self.generation }
    }

    /// Cancels every task queued so far: none of them will run.
    pub fn cancel_pending(&mut self)
        requires
            old(self).current_generation() < u64::MAX,
        ensures
            final(self).pending() == old(self).pending(),
            final(self).current_generation() == old(self).current_generation() + 1,
    {
        self.generation = self.generation + 1;
    }

    /// Queues `task` behind those already queued.
    pub fn queue_with_canceller(&mut self, task: FinalizeTask)
        ensures
            final(self).pending() == old(self).pending().push(task),
            final(self).current_generation() == old(self).current_generation(),
    {
        self.tasks.push(task);
    }

    /// Takes the oldest task off the queue; it runs only if it was not
    /// cancelled.
    pub fn run_next(&mut self) -> (r: TaskOutcome)
        ensures
            final(self).current_generation() == old(self).current_generation(),
            old(self).pending().len() == 0 ==> r == TaskOutcome::Empty && final(self).pending()
                == old(self).pending(),
            old(self).pending().len() > 0 ==> {
                &&& final(self).pending() == old(self).pending().drop_first()
                &&& r == if old(self).is_live(old(self).pending()[0]) {
                    TaskOutcome::Run(old(self).pending()[0].stream)
                } else {
                    TaskOutcome::Cancelled
                }
            },
    {
        if self.tasks.len() == 0 {
            return TaskOutcome::Empty;
        }
        let task = self.tasks.remove(0);
        assert(self.tasks@ =~= old(self).pending().drop_first());
        if task.canceller.generation == self.generation {
            TaskOutcome::Run(task.stream)
        } else {
            TaskOutcome::Cancelled
        }
    }
}

/// The teardown of one stream, waiting to be fired.
#[derive(Clone, Copy, Debug, PartialEq, Eq, Structural)]
pub struct StreamFinalizer {
    pub stream: usize,
    pub canceller: TaskCanceller,
}

impl StreamFinalizer {
    /// Queues the teardown on the owning context, under its canceller.
    pub fn finalize(self, queue: &mut TaskQueue)
        ensures
            final(queue).pending() == old(queue).pending().push(
                FinalizeTask { stream: self.stream, canceller: self.canceller },
            ),
            final(queue).current_generation() == old(queue).current_generation(),
    {
        queue.queue_with_canceller(FinalizeTask { stream: self.stream, canceller: self.canceller });
    }
}

} // verus!
