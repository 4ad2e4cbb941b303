use vstd::prelude::*;
use crate::worker::{WorkerState, WorkerAction};
use crate::pool::{
    PoolView, pool_inv, init_model, execute_model, shutdown_model, fetch_action, fetch_model,
    join_model, all_terminated_model,
};

verus! {

/// The pool after producers submit the jobs `js`, one call each, in this order.
/// Calls made concurrently are serialised by the lock, so any interleaving of
/// several producers is such a sequence.
pub open spec fn submit_all<J>(v: PoolView<J>, js: Seq<J>) -> PoolView<J>
    decreases js.len(),
{
    if js.len() == 0 {
        v
    } else {
        submit_all(execute_model(v, js[0]), js.drop_first())
    }
}

/// The pool after the workers named by `sched` ask for work, in this order.
pub open spec fn run_schedule<J>(v: PoolView<J>, sched: Seq<int>) -> PoolView<J>
    decreases sched.len(),
{
    if sched.len() == 0 {
        v
    } else {
        run_schedule(fetch_model(v, sched[0]), sched.drop_first())
    }
}

/// The jobs handed to workers, in order, while the workers named by `sched`
/// ask for work.
pub open spec fn handed_out<J>(v: PoolView<J>, sched: Seq<int>) -> Seq<J>
    decreases sched.len(),
{
    if sched.len() == 0 {
        Seq::empty()
    } else {
        let first = match fetch_action(v, sched[0]) {
            WorkerAction::Run(j) => seq![j],
            _ => Seq::empty(),
        };
        first + handed_out(fetch_model(v, sched[0]), sched.drop_first())
    }
}

/// Teardown of workers `0..k`: each asks for work once more and its thread is
/// then joined.
pub open spec fn teardown_upto<J>(v: PoolView<J>, k: nat) -> PoolView<J>
    decreases k,
{
    if k == 0 {
        v
    } else {
        let u = teardown_upto(v, (k - 1) as nat);
        join_model(fetch_model(u, k - 1), k - 1)
    }
}

/// Whether every id in `sched` names a worker of a pool of `n`.
pub open spec fn valid_schedule(sched: Seq<int>, n: nat) -> bool {
    forall|i: int| 0 <= i < sched.len() ==> 0 <= #[trigger] sched[i] < n
}

/// A worker asking for work keeps the pool invariant and the number of workers.
pub proof fn lemma_fetch_keeps_inv<J>(v: PoolView<J>, id: int)
    requires
        pool_inv(v),
        0 <= id < v.states.len(),
    ensures
        pool_inv(fetch_model(v, id)),
        fetch_model(v, id).states.len() == v.states.len(),
        fetch_model(v, id).queue.closed == v.queue.closed,
{
    let u = fetch_model(v, id);
    assert forall|i: int| 0 <= i < u.states.len() && u.states[i] != WorkerState::Running implies {
        &&& u.queue.closed
        &&& u.queue.pending.len() == 0
    } by {
        if i != id {
            assert(v.states[i] == u.states[i]);
        }
    }
}

/// Submitting jobs to a pool that is not shut down queues each of them exactly
/// once, behind what was pending, in the order of submission.
pub proof fn lemma_submit_appends<J>(v: PoolView<J>, js: Seq<J>)
    requires
        !v.queue.closed,
    ensures
        submit_all(v, js).queue.pending == v.queue.pending + js,
        !submit_all(v, js).queue.closed,
        submit_all(v, js).states == v.states,
    decreases js.len(),
{
    if js.len() > 0 {
        let u = execute_model(v, js[0]);
        lemma_submit_appends(u, js.drop_first());
        assert(v.queue.pending + js =~= u.queue.pending + js.drop_first());
    }
}

/// No job is lost and none is handed out twice: whatever the order in which
/// workers ask for work, the jobs handed out followed by those still pending
/// are exactly the jobs that were pending, in their order.
pub proof fn lemma_no_loss_no_duplicate<J>(v: PoolView<J>, sched: Seq<int>)
    requires
        pool_inv(v),
        valid_schedule(sched, v.states.len()),
    ensures
        handed_out(v, sched) + run_schedule(v, sched).queue.pending == v.queue.pending,
        pool_inv(run_schedule(v, sched)),
        run_schedule(v, sched).states.len() == v.states.len(),
        run_schedule(v, sched).queue.closed == v.queue.closed,
    decreases sched.len(),
{
    if sched.len() > 0 {
        let id = sched[0];
        let u = fetch_model(v, id);
        let rest = sched.drop_first();
        lemma_fetch_keeps_inv(v, id);
        assert forall|i: int| 0 <= i < rest.len() implies 0 <= #[trigger] rest[i] < u.states.len() by {
            assert(rest[i] == sched[i + 1]);
        }
        lemma_no_loss_no_duplicate(u, rest);
        let first = match fetch_action(v, id) {
            WorkerAction::Run(j) => seq![j],
            _ => Seq::<J>::empty(),
        };
        assert(first + u.queue.pending =~= v.queue.pending);
        assert(handed_out(v, sched) == first + handed_out(u, rest));
        assert(first + handed_out(u, rest) + run_schedule(u, rest).queue.pending
            =~= first + (handed_out(u, rest) + run_schedule(u, rest).queue.pending));
    }
}

/// Every job submitted before teardown runs exactly once: once jobs `js` have
/// been submitted to a fresh pool of `n` workers and shutdown has begun, by
/// the time any worker has left its loop the workers have been handed exactly
/// `js`, each once, in the order of submission, whatever the order in which
/// they asked for work. Jobs from several producers count alike, so `p`
/// producers of `k` jobs each give exactly `p * k` runs.
pub proof fn lemma_every_job_runs_once<J>(n: nat, js: Seq<J>, sched: Seq<int>, w: int)
    requires
        n > 0,
        valid_schedule(sched, n),
        0 <= w < n,
        run_schedule(shutdown_model(submit_all(init_model::<J>(n), js)), sched).states[w]
            != WorkerState::Running,
    ensures
        handed_out(shutdown_model(submit_all(init_model::<J>(n), js)), sched) == js,
        handed_out(shutdown_model(submit_all(init_model::<J>(n), js)), sched).len() == js.len(),
{
    let v0 = init_model::<J>(n);
    let v1 = submit_all(v0, js);
    let v2 = shutdown_model(v1);
    lemma_submit_appends(v0, js);
    assert(v0.queue.pending + js =~= js);
    assert(pool_inv(v2));
    lemma_no_loss_no_duplicate(v2, sched);
    let end = run_schedule(v2, sched);
    assert(end.queue.pending.len() == 0);
    assert(handed_out(v2, sched) + end.queue.pending =~= handed_out(v2, sched));
}

/// Jobs are handed out in the order they were submitted: with any order of
/// requests, what workers have received so far is a prefix of the submitted
/// jobs, so a job submitted after another never starts first on a single
/// worker.
pub proof fn lemma_fifo_order<J>(n: nat, js: Seq<J>, sched: Seq<int>)
    requires
        n > 0,
        valid_schedule(sched, n),
    ensures
        handed_out(submit_all(init_model::<J>(n), js), sched).len() <= js.len(),
        handed_out(submit_all(init_model::<J>(n), js), sched)
            == js.take(handed_out(submit_all(init_model::<J>(n), js), sched).len() as int),
{
    let v0 = init_model::<J>(n);
    let v1 = submit_all(v0, js);
    lemma_submit_appends(v0, js);
    assert(v0.queue.pending + js =~= js);
    lemma_no_loss_no_duplicate(v1, sched);
    let h = handed_out(v1, sched);
    assert(h =~= js.take(h.len() as int));
}

/// Teardown of a pool whose queue is closed and drained: each of the first `k`
/// workers is told to exit and is joined, and the queue stays closed and empty.
pub proof fn lemma_teardown_upto<J>(v: PoolView<J>, k: nat)
    requires
        pool_inv(v),
        v.queue.closed,
        v.queue.pending.len() == 0,
        k <= v.states.len(),
    ensures
        teardown_upto(v, k).queue == v.queue,
        teardown_upto(v, k).states.len() == v.states.len(),
        pool_inv(teardown_upto(v, k)),
        forall|i: int| 0 <= i < k ==> teardown_upto(v, k).states[i] == WorkerState::Terminated,
        forall|i: int| k <= i < v.states.len() ==> teardown_upto(v, k).states[i] == v.states[i],
    decreases k,
{
    if k > 0 {
        lemma_teardown_upto(v, (k - 1) as nat);
        let u = teardown_upto(v, (k - 1) as nat);
        let id = k - 1;
        assert(fetch_action(u, id) is Exit);
        lemma_fetch_keeps_inv(u, id);
        let f = fetch_model(u, id);
        assert(f.states[id] != WorkerState::Running);
        assert(f.states[id] == WorkerState::Draining || f.states[id] == WorkerState::Terminated);
        let t = join_model(f, id);
        assert forall|i: int| 0 <= i < t.states.len() && t.states[i] != WorkerState::Running implies {
            &&& t.queue.closed
            &&& t.queue.pending.len() == 0
        } by {}
    }
}

/// After teardown completes no worker is left: on a pool whose queue is
/// closed and drained, letting each worker ask for work once more and joining
/// its thread leaves every worker terminated.
pub proof fn lemma_teardown_terminates_all<J>(v: PoolView<J>)
    requires
        pool_inv(v),
        v.queue.closed,
        v.queue.pending.len() == 0,
    ensures
        all_terminated_model(teardown_upto(v, v.states.len())),
{
    lemma_teardown_upto(v, v.states.len());
}

/// A pool of `n > 0` workers torn down without any job: every worker is told to
/// exit as soon as it asks for work, and teardown joins all `n` of them.
pub proof fn lemma_idle_pool_teardown<J>(n: nat)
    requires
        n > 0,
    ensures
        forall|i: int| 0 <= i < n ==> fetch_action(shutdown_model(init_model::<J>(n)), i) is Exit,
        all_terminated_model(teardown_upto(shutdown_model(init_model::<J>(n)), n)),
{
    let v = shutdown_model(init_model::<J>(n));
    assert(pool_inv(v));
    lemma_teardown_terminates_all(v);
}

} // verus!
