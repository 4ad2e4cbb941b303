use std::cell::{Cell, RefCell};
use std::rc::Rc;
use std::sync::atomic::{AtomicUsize, Ordering};

use worker_pool::pool::Dispatcher;
use worker_pool::worker::{WorkerAction, WorkerState};

type Job = Box<dyn FnOnce()>;

/// Shuts the pool down and drives its workers in turn until each has
/// drained the queue, left its loop and been joined. Returns the number of
/// jobs run.
fn tear_down(d: &mut Dispatcher<Job>) -> usize {
    d.shutdown();
    let mut ran = 0;
    let mut exited = vec![false; d.size()];
    while exited.iter().any(|e| !e) {
        for id in 0..d.size() {
            if exited[id] {
                continue;
            }
            match d.fetch(id) {
                WorkerAction::Run(job) => {
                    job();
                    ran += 1;
                }
                WorkerAction::Wait => panic!("a worker waited on a closed queue"),
                WorkerAction::Exit => {
                    assert!(d.joined(id));
                    exited[id] = true;
                }
            }
        }
    }
    ran
}

fn counting_job(counter: &Rc<Cell<u32>>) -> Job {
    let c = Rc::clone(counter);
    Box::new(move || c.set(c.get() + 1))
}

#[test]
fn new_pool_has_running_workers_and_open_queue() {
    let d: Dispatcher<Job> = Dispatcher::new(3);
    assert_eq!(d.size(), 3);
    assert_eq!(d.pending(), 0);
    assert!(!d.is_shut_down());
    for id in 0..3 {
        assert_eq!(d.state(id), WorkerState::Running);
    }
    assert!(!d.all_terminated());
}

#[test]
fn idle_pool_teardown_terminates_every_worker() {
    for n in 1..=8 {
        let mut d: Dispatcher<Job> = Dispatcher::new(n);
        d.shutdown();
        for id in 0..n {
            assert!(matches!(d.fetch(id), WorkerAction::Exit));
            assert_eq!(d.state(id), WorkerState::Draining);
        }
        for id in 0..n {
            assert!(d.joined(id));
        }
        assert!(d.all_terminated());
    }
}

#[test]
fn every_job_runs_exactly_once_before_teardown_returns() {
    let counter = Rc::new(Cell::new(0));
    let mut d: Dispatcher<Job> = Dispatcher::new(3);
    for _ in 0..25 {
        assert!(d.execute(counting_job(&counter)).is_ok());
    }
    assert_eq!(d.pending(), 25);
    assert_eq!(counter.get(), 0);
    assert_eq!(tear_down(&mut d), 25);
    assert_eq!(counter.get(), 25);
    assert!(d.all_terminated());
}

#[test]
fn concurrent_producers_submit_every_job_once() {
    // Submissions from several producers reach the pool one at a time, in
    // some interleaving; here each producer submits its next job in turn,
    // with an uneven stride so that the interleaving is irregular.
    let producers = 4;
    let per_producer = 50;
    let mut d: Dispatcher<usize> = Dispatcher::new(2);
    let mut next = vec![0usize; producers];
    let mut turn = 0;
    while next.iter().any(|&n| n < per_producer) {
        let p = turn % producers;
        let burst = 1 + (turn * 7) % 3;
        for _ in 0..burst {
            if next[p] < per_producer {
                assert!(d.execute(p * per_producer + next[p]).is_ok());
                next[p] += 1;
            }
        }
        turn += 1;
    }
    let executions = AtomicUsize::new(0);
    let mut seen = vec![0u32; producers * per_producer];
    d.shutdown();
    let mut exited = [false, false];
    while !(exited[0] && exited[1]) {
        for id in 0..2 {
            if exited[id] {
                continue;
            }
            match d.fetch(id) {
                WorkerAction::Run(job) => {
                    seen[job] += 1;
                    executions.fetch_add(1, Ordering::SeqCst);
                }
                WorkerAction::Wait => panic!("a worker waited on a closed queue"),
                WorkerAction::Exit => {
                    assert!(d.joined(id));
                    exited[id] = true;
                }
            }
        }
    }
    assert_eq!(executions.load(Ordering::SeqCst), producers * per_producer);
    assert!(seen.iter().all(|&n| n == 1));
}

#[test]
fn single_worker_runs_jobs_in_submission_order() {
    let log: Rc<RefCell<Vec<&'static str>>> = Rc::new(RefCell::new(Vec::new()));
    let mut d: Dispatcher<Job> = Dispatcher::new(1);
    let a = Rc::clone(&log);
    let b = Rc::clone(&log);
    assert!(d.execute(Box::new(move || {
        a.borrow_mut().push("A start");
        a.borrow_mut().push("A end");
    })).is_ok());
    assert!(d.execute(Box::new(move || b.borrow_mut().push("B start"))).is_ok());
    assert_eq!(tear_down(&mut d), 2);
    assert_eq!(*log.borrow(), vec!["A start", "A end", "B start"]);
}

#[test]
fn worker_waits_on_open_empty_queue() {
    let mut d: Dispatcher<Job> = Dispatcher::new(2);
    assert!(matches!(d.fetch(0), WorkerAction::Wait));
    assert!(matches!(d.fetch(1), WorkerAction::Wait));
    assert_eq!(d.state(0), WorkerState::Running);
    assert!(!d.joined(0));
}

#[test]
fn teardown_leaves_no_worker_to_join() {
    let mut d: Dispatcher<Job> = Dispatcher::new(4);
    tear_down(&mut d);
    assert!(d.all_terminated());
    for id in 0..4 {
        assert_eq!(d.state(id), WorkerState::Terminated);
        assert!(!d.joined(id));
        assert!(matches!(d.fetch(id), WorkerAction::Exit));
    }
}

#[test]
fn four_workers_run_a_hundred_counting_jobs() {
    let counter = Rc::new(Cell::new(0));
    let mut d: Dispatcher<Job> = Dispatcher::new(4);
    for _ in 0..100 {
        assert!(d.execute(counting_job(&counter)).is_ok());
    }
    assert_eq!(tear_down(&mut d), 100);
    assert_eq!(counter.get(), 100);
    assert!(d.all_terminated());
    for id in 0..4 {
        assert_eq!(d.state(id), WorkerState::Terminated);
    }
}

#[test]
fn execute_after_shutdown_is_rejected() {
    let mut d: Dispatcher<u32> = Dispatcher::new(2);
    assert!(d.execute(1).is_ok());
    d.shutdown();
    assert!(d.is_shut_down());
    match d.execute(2) {
        Err(e) => assert_eq!(e.job, 2),
        Ok(()) => panic!("a shut-down pool accepted a job"),
    }
    assert_eq!(d.pending(), 1);
    assert!(matches!(d.fetch(0), WorkerAction::Run(1)));
    assert!(matches!(d.fetch(1), WorkerAction::Exit));
}

#[test]
fn shutdown_twice_changes_nothing_more() {
    let mut d: Dispatcher<u32> = Dispatcher::new(1);
    assert!(d.execute(3).is_ok());
    d.shutdown();
    d.shutdown();
    assert_eq!(d.pending(), 1);
    assert!(matches!(d.fetch(0), WorkerAction::Run(3)));
    assert!(matches!(d.fetch(0), WorkerAction::Exit));
    assert!(d.joined(0));
    assert!(d.all_terminated());
}
