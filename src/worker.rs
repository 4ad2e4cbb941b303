use vstd::prelude::*;
use crate::queue::Dequeued;

verus! {

/// Life of one worker: `Running` while its loop is active, `Draining` once it
/// has seen the queue closed and drained and left its loop, `Terminated` once
/// its thread has been joined.
#[derive(PartialEq, Eq, Structural, Clone, Copy, Debug)]
pub enum WorkerState {
    Running,
    Draining,
    Terminated,
}

/// What a worker does with the outcome of a dequeue.
pub enum WorkerAction<J> {
    /// Run this job to completion, then dequeue again.
    Run(J),
    /// Nothing pending: block until a job arrives or the queue closes.
    Wait,
    /// The queue is closed and drained: leave the loop.
    Exit,
}

/// The action that answers a dequeue outcome.
pub open spec fn action_for<J>(got: Dequeued<J>) -> WorkerAction<J> {
    match got {
        Dequeued::Job(j) => WorkerAction::Run(j),
        Dequeued::Empty => WorkerAction::Wait,
        Dequeued::Closed => WorkerAction::Exit,
    }
}

/// The state of a running worker after it has seen `got`.
pub open spec fn state_after<J>(got: Dequeued<J>) -> WorkerState {
    if got is Closed {
        WorkerState::Draining
    } else {
        WorkerState::Running
    }
}

/// A worker of the pool, known by its ordinal id.
#[derive(Clone, Copy, Debug)]
pub struct Worker {
    pub id: usize,
    pub state: WorkerState,
}

impl Worker {
    /// A worker whose loop has just started.
    pub fn new(id: usize) -> (r: Worker)
        ensures
            r.id == id,
            r.state == WorkerState::Running,
    {
        Worker { id, state: WorkerState::Running }
    }

    /// One turn of the worker loop: a running worker answers what the queue
    /// gave it, and leaves its loop on `Closed`.
    pub fn observe<J>(&mut self, got: Dequeued<J>) -> (r: WorkerAction<J>)
        requires
            old(self).state == WorkerState::Running,
        ensures
            r == action_for(got),
            final(self).id == old(self).id,
            final(self).state == state_after(got),
    {
        match got {
            Dequeued::Job(j) => WorkerAction::Run(j),
            Dequeued::Empty => WorkerAction::Wait,
            Dequeued::Closed => {
                self.state = WorkerState::Draining;
                WorkerAction::Exit
            },
        }
    }

    /// Records that the worker's thread has been joined. Only a worker that
    /// has left its loop can be joined, and only once: the result says
    /// whether this call did it.
    pub fn finish(&mut self) -> (r: bool)
        ensures
            r == (old(self).state == WorkerState::Draining),
            final(self).id == old(self).id,
            final(self).state == (if r { WorkerState::Terminated } else { old(self).state }),
    {
        if self.state == WorkerState::Draining {
            self.state = WorkerState::Terminated;
            true
        } else {
            false
        }
    }
}

} // verus!
