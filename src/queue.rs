use std::collections::VecDeque;
use vstd::prelude::*;

verus! {

/// What a queue holds, as a mathematical value: the pending jobs from head to
/// tail, and whether the submission side has been closed.
pub struct QueueView<J> {
    pub pending: Seq<J>,
    pub closed: bool,
}

/// Outcome of one attempt to take a job from the queue.
pub enum Dequeued<J> {
    /// The job at the head, now owned by the caller.
    Job(J),
    /// Nothing is pending yet, but more jobs may still arrive.
    Empty,
    /// The queue is closed and drained: no job will ever arrive again.
    Closed,
}

/// A submission refused because the queue was already closed; the job is
/// handed back to the producer untouched.
pub struct Rejected<J> {
    pub job: J,
}

/// Unbounded FIFO of jobs with a one-way close.
pub struct JobQueue<J> {
    items: VecDeque<J>,
    closed: bool,
}

/// The queue after submitting `job`: appended at the tail while open,
/// unchanged once closed.
pub open spec fn enqueue_model<J>(v: QueueView<J>, job: J) -> QueueView<J> {
    if v.closed {
        v
    } else {
        QueueView { pending: v.pending.push(job), closed: false }
    }
}

/// The queue after closing it: pending jobs are kept.
pub open spec fn close_model<J>(v: QueueView<J>) -> QueueView<J> {
    QueueView { pending: v.pending, closed: true }
}

/// What a dequeue hands out on the queue `v`.
pub open spec fn dequeue_result<J>(v: QueueView<J>) -> Dequeued<J> {
    if v.pending.len() > 0 {
        Dequeued::Job(v.pending[0])
    } else if v.closed {
        Dequeued::Closed
    } else {
        Dequeued::Empty
    }
}

/// The queue after a dequeue: the head is removed if there is one.
pub open spec fn dequeue_model<J>(v: QueueView<J>) -> QueueView<J> {
    if v.pending.len() > 0 {
        QueueView { pending: v.pending.drop_first(), closed: v.closed }
    } else {
        v
    }
}

impl<J> View for JobQueue<J> {
    type V = QueueView<J>;

    closed spec fn view(&self) -> QueueView<J> {
        QueueView { pending: self.items@, closed: self.closed }
    }
}

impl<J> JobQueue<J> {
    /// An open queue with nothing pending.
    pub fn new() -> (r: Self)
        ensures
            r@.pending == Seq::<J>::empty(),
            !r@.closed,
    {
        JobQueue { items: VecDeque::new(), closed: false }
    }

    /// Number of pending jobs.
    pub fn len(&self) -> (r: usize)
        ensures
            r == self@.pending.len(),
    {
        self.items.len()
    }

    /// Whether the submission side has been closed.
    pub fn is_closed(&self) -> (r: bool)
        ensures
            r == self@.closed,
    {
        self.closed
    }

    /// Appends `job` at the tail; once the queue is closed the job is
    /// refused and handed back.
    pub fn enqueue(&mut self, job: J) -> (r: Result<(), Rejected<J>>)
        ensures
            final(self)@ == enqueue_model(old(self)@, job),
            r is Ok <==> !old(self)@.closed,
            r matches Err(e) ==> e.job == job,
    {
        if self.closed {
            Err(Rejected { job })
        } else {
            self.items.push_back(job);
            Ok(())
        }
    }

    /// Removes and returns the head job; reports `Empty` when nothing is
    /// pending on an open queue and `Closed` once a closed queue is drained.
    pub fn dequeue(&mut self) -> (r: Dequeued<J>)
        ensures
            r == dequeue_result(old(self)@),
            final(self)@ == dequeue_model(old(self)@),
    {
        match self.items.pop_front() {
            Some(job) => {
                proof {
                    assert(self.items@ =~= old(self).items@.drop_first());
                }
                Dequeued::Job(job)
            },
            None => {
                if self.closed {
                    Dequeued::Closed
                } else {
                    Dequeued::Empty
                }
            },
        }
    }

    /// Closes the submission side; pending jobs stay to be drained.
    /// Closing twice is the same as closing once.
    pub fn close(&mut self)
        ensures
            final(self)@ == close_model(old(self)@),
    {
        self.closed = true;
    }
}

} // verus!
