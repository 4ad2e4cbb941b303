use vstd::prelude::*;
use crate::queue::{
    JobQueue, QueueView, Rejected, enqueue_model, close_model, dequeue_model,
    dequeue_result,
};
use crate::worker::{Worker, WorkerState, WorkerAction, action_for, state_after};

verus! {

/// What a pool controller holds, as a mathematical value: its queue and the
/// state of each worker, indexed by worker id.
pub struct PoolView<J> {
    pub queue: QueueView<J>,
    pub states: Seq<WorkerState>,
}

/// The invariant of a pool: it has at least one worker, and a worker has left
/// its loop only once the queue is closed and nothing is pending.
pub open spec fn pool_inv<J>(v: PoolView<J>) -> bool {
    &&& v.states.len() > 0
    &&& forall|i: int|
        0 <= i < v.states.len() && v.states[i] != WorkerState::Running ==> {
            &&& v.queue.closed
            &&& v.queue.pending.len() == 0
        }
}

/// A fresh pool of `size` workers, all running, over an open empty queue.
pub open spec fn init_model<J>(size: nat) -> PoolView<J> {
    PoolView {
        queue: QueueView { pending: Seq::empty(), closed: false },
        states: Seq::new(size, |i: int| WorkerState::Running),
    }
}

/// The pool after a producer submits `job`.
pub open spec fn execute_model<J>(v: PoolView<J>, job: J) -> PoolView<J> {
    PoolView { queue: enqueue_model(v.queue, job), states: v.states }
}

/// The pool once shutdown has begun: the queue is closed.
pub open spec fn shutdown_model<J>(v: PoolView<J>) -> PoolView<J> {
    PoolView { queue: close_model(v.queue), states: v.states }
}

/// What worker `id` is told to do when it asks for work.
pub open spec fn fetch_action<J>(v: PoolView<J>, id: int) -> WorkerAction<J> {
    if v.states[id] == WorkerState::Running {
        action_for(dequeue_result(v.queue))
    } else {
        WorkerAction::Exit
    }
}

/// The pool after worker `id` asks for work: a running worker dequeues.
pub open spec fn fetch_model<J>(v: PoolView<J>, id: int) -> PoolView<J> {
    if v.states[id] == WorkerState::Running {
        PoolView {
            queue: dequeue_model(v.queue),
            states: v.states.update(id, state_after(dequeue_result(v.queue))),
        }
    } else {
        v
    }
}

/// The pool after the thread of worker `id` has been joined.
pub open spec fn join_model<J>(v: PoolView<J>, id: int) -> PoolView<J> {
    if v.states[id] == WorkerState::Draining {
        PoolView { queue: v.queue, states: v.states.update(id, WorkerState::Terminated) }
    } else {
        v
    }
}

/// Whether every worker's thread has been joined.
pub open spec fn all_terminated_model<J>(v: PoolView<J>) -> bool {
    forall|i: int| 0 <= i < v.states.len() ==> v.states[i] == WorkerState::Terminated
}

/// The controller of a fixed-size pool: it owns the job queue and the
/// workers' states, and decides what each worker does next. The threads that
/// run the jobs are driven by a caller that holds it under a lock.
pub struct Dispatcher<J> {
    queue: JobQueue<J>,
    workers: Vec<Worker>,
}

impl<J> View for Dispatcher<J> {
    type V = PoolView<J>;

    closed spec fn view(&self) -> PoolView<J> {
        PoolView { queue: self.queue@, states: self.workers@.map_values(|w: Worker| w.state) }
    }
}

impl<J> Dispatcher<J> {
    /// Well-formedness: each worker sits at the index of its id, and the pool
    /// invariant holds.
    pub closed spec fn wf(&self) -> bool {
        &&& forall|i: int| 0 <= i < self.workers@.len() ==> self.workers@[i].id == i
        &&& pool_inv(self@)
    }

    /// A pool of `size` running workers with ids `0..size`, over an open,
    /// empty queue. A pool without workers is not allowed.
    pub fn new(size: usize) -> (r: Self)
        requires
            size > 0,
        ensures
            r.wf(),
            r@ == init_model::<J>(size as nat),
    {
        let mut workers: Vec<Worker> = Vec::with_capacity(size);
        let mut i: usize = 0;
        while i < size
            invariant
                i <= size,
                workers@.len() == i,
                forall|k: int| 0 <= k < i ==> workers@[k].id == k,
                forall|k: int| 0 <= k < i ==> workers@[k].state == WorkerState::Running,
            decreases size - i,
        {
            workers.push(Worker::new(i));
            i = i + 1;
        }
        let r = Dispatcher { queue: JobQueue::new(), workers };
        assert(r@.states =~= init_model::<J>(size as nat).states);
        r
    }

    /// Number of workers.
    pub fn size(&self) -> (r: usize)
        ensures
            r == self@.states.len(),
    {
        self.workers.len()
    }

    /// State of worker `id`.
    pub fn state(&self, id: usize) -> (r: WorkerState)
        requires
            id < self@.states.len(),
        ensures
            r == self@.states[id as int],
    {
        self.workers[id].state
    }

    /// Number of jobs submitted and not yet handed to a worker.
    pub fn pending(&self) -> (r: usize)
        ensures
            r == self@.queue.pending.len(),
    {
        self.queue.len()
    }

    /// Whether shutdown has begun.
    pub fn is_shut_down(&self) -> (r: bool)
        ensures
            r == self@.queue.closed,
    {
        self.queue.is_closed()
    }

    /// Submits a job. It is queued behind every job submitted before it;
    /// once shutdown has begun it is refused and handed back.
    pub fn execute(&mut self, job: J) -> (r: Result<(), Rejected<J>>)
        requires
            old(self).wf(),
        ensures
            final(self).wf(),
            final(self)@ == execute_model(old(self)@, job),
            r is Ok <==> !old(self)@.queue.closed,
            r matches Err(e) ==> e.job == job,
    {
        self.queue.enqueue(job)
    }

    /// Worker `id` asks for work. A running worker takes the head job, waits
    /// when nothing is pending, and leaves its loop once the queue is closed
    /// and drained; a worker that has left is told to exit again.
    pub fn fetch(&mut self, id: usize) -> (r: WorkerAction<J>)
        requires
            old(self).wf(),
            id < old(self)@.states.len(),
        ensures
            final(self).wf(),
            r == fetch_action(old(self)@, id as int),
            final(self)@ == fetch_model(old(self)@, id as int),
    {
        let mut w = self.workers[id];
        if w.state == WorkerState::Running {
            let got = self.queue.dequeue();
            let r = w.observe(got);
            self.workers.set(id, w);
            assert(self@.states =~= fetch_model(old(self)@, id as int).states);
            r
        } else {
            WorkerAction::Exit
        }
    }

    /// Begins shutdown: the queue is closed, so no job is accepted any more
    /// and every worker exits once the pending jobs are drained. Calling it
    /// again changes nothing.
    pub fn shutdown(&mut self)
        requires
            old(self).wf(),
        ensures
            final(self).wf(),
            final(self)@ == shutdown_model(old(self)@),
    {
        self.queue.close();
    }

    /// Records that the thread of worker `id` has been joined. Only a worker
    /// that has left its loop can be joined, and only once: the result says
    /// whether this call did it.
    pub fn joined(&mut self, id: usize) -> (r: bool)
        requires
            old(self).wf(),
            id < old(self)@.states.len(),
        ensures
            final(self).wf(),
            r == (old(self)@.states[id as int] == WorkerState::Draining),
            final(self)@ == join_model(old(self)@, id as int),
    {
        let mut w = self.workers[id];
        let r = w.finish();
        if r {
            self.workers.set(id, w);
            assert(self@.states =~= join_model(old(self)@, id as int).states);
        }
        r
    }

    /// Whether every worker's thread has been joined.
    pub fn all_terminated(&self) -> (r: bool)
        requires
            self.wf(),
        ensures
            r == all_terminated_model(self@),
    {
        let mut i: usize = 0;
        while i < self.workers.len()
            invariant
                i <= self@.states.len(),
                self@.states.len() == self.workers@.len(),
                forall|k: int| 0 <= k < i ==> self@.states[k] == WorkerState::Terminated,
            decreases self.workers@.len() - i,
        {
            if self.workers[i].state != WorkerState::Terminated {
                assert(self@.states[i as int] == self.workers@[i as int].state);
                return false;
            }
            i = i + 1;
        }
        true
    }
}

} // verus!
