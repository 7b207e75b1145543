use std::cell::{Cell, RefCell};
use std::rc::Rc;

use server::channel::DispatchQueue;
use server::message::Message;
use server::pool::{worker_ids, PoolError, Shutdown, ShutdownStep};
use server::worker::{Worker, WorkerLoop, WorkerState};

type Job = Box<dyn FnOnce()>;

/// Runs a whole pool in one thread: submits `jobs`, runs the shutdown
/// protocol, and lets the workers take messages in turn until all have exited.
/// Returns the final worker loops and the identities joined, in order.
fn run_pool(size: usize, jobs: Vec<Job>) -> (Vec<WorkerLoop>, Vec<usize>) {
    let ids = worker_ids(size).unwrap();
    let mut loops: Vec<WorkerLoop> = ids.iter().map(|&id| WorkerLoop::new(id)).collect();
    let mut workers: Vec<Worker<usize>> = ids.iter().map(|&id| Worker::new(id, id)).collect();
    let mut queue: DispatchQueue<Job> = DispatchQueue::new();
    for job in jobs {
        queue.send(Message::Work(job));
    }
    let mut shutdown = Shutdown::new(size);
    let mut joined = Vec::new();
    loop {
        match shutdown.next_step() {
            ShutdownStep::SendStop => queue.send(Message::Stop),
            ShutdownStep::Join(id) => {
                // Before a join, the worker runs until it has exited.
                while loops[id].is_running() {
                    // Idle workers race for the head of the queue; here the
                    // lowest running identity other than `id` goes first.
                    let taker = (0..size).find(|&k| k != id && loops[k].is_running()).unwrap_or(id);
                    let m = queue.receive().expect("a message waits for every running worker");
                    match loops[taker].handle(m) {
                        Some(job) => job(),
                        None => loops[taker].finish(),
                    }
                }
                let handle = workers[id].take_thread();
                assert_eq!(handle, Some(id));
                joined.push(id);
            }
            ShutdownStep::Done => break,
        }
    }
    (loops, joined)
}

fn counting_jobs(n: usize, counter: &Rc<Cell<u32>>) -> Vec<Job> {
    (0..n)
        .map(|_| {
            let c = Rc::clone(counter);
            Box::new(move || c.set(c.get() + 1)) as Job
        })
        .collect()
}

#[test]
fn zero_size_is_refused() {
    assert_eq!(worker_ids(0), Err(PoolError::ZeroSize));
}

#[test]
fn worker_ids_count_from_zero() {
    assert_eq!(worker_ids(4), Ok(vec![0, 1, 2, 3]));
    assert_eq!(worker_ids(1), Ok(vec![0]));
}

#[test]
fn shutdown_sends_all_stops_then_joins_in_order() {
    let mut s = Shutdown::new(3);
    let mut steps = Vec::new();
    while !s.is_done() {
        steps.push(s.next_step());
    }
    assert_eq!(
        steps,
        vec![
            ShutdownStep::SendStop,
            ShutdownStep::SendStop,
            ShutdownStep::SendStop,
            ShutdownStep::Join(0),
            ShutdownStep::Join(1),
            ShutdownStep::Join(2),
        ]
    );
    assert_eq!(s.next_step(), ShutdownStep::Done);
    assert_eq!(s.next_step(), ShutdownStep::Done);
}

#[test]
fn empty_pool_shuts_down_and_joins_every_worker() {
    for n in 1..6usize {
        let (loops, joined) = run_pool(n, Vec::new());
        assert_eq!(joined, (0..n).collect::<Vec<usize>>());
        assert!(loops.iter().all(|w| w.state == WorkerState::Terminated));
    }
}

#[test]
fn every_job_runs_exactly_once() {
    for (m, n) in [(0usize, 1usize), (1, 1), (7, 3), (20, 2)] {
        let counter = Rc::new(Cell::new(0u32));
        let (_, joined) = run_pool(n, counting_jobs(m, &counter));
        assert_eq!(counter.get() as usize, m);
        assert_eq!(joined.len(), n);
    }
}

#[test]
fn four_workers_ten_jobs() {
    let counter = Rc::new(Cell::new(0u32));
    let (loops, joined) = run_pool(4, counting_jobs(10, &counter));
    assert_eq!(counter.get(), 10);
    assert_eq!(joined, vec![0, 1, 2, 3]);
    assert!(loops.iter().all(|w| w.state == WorkerState::Terminated));
}

#[test]
fn single_worker_runs_jobs_in_submission_order() {
    let out = Rc::new(RefCell::new(String::new()));
    let (a, b) = (Rc::clone(&out), Rc::clone(&out));
    let jobs: Vec<Job> = vec![
        Box::new(move || {
            // A long job: the second one must still wait for it.
            let mut spin: u64 = 0;
            for i in 0..5000u64 {
                spin = spin.wrapping_add(i);
            }
            assert!(spin > 0);
            a.borrow_mut().push('A');
        }),
        Box::new(move || b.borrow_mut().push('B')),
    ];
    let (_, joined) = run_pool(1, jobs);
    assert_eq!(out.borrow().as_str(), "AB");
    assert_eq!(joined, vec![0]);
}

#[test]
fn queue_is_first_in_first_out() {
    let mut q: DispatchQueue<u32> = DispatchQueue::new();
    assert!(q.is_empty());
    assert!(q.receive().is_none());
    q.send(Message::Work(1));
    q.send(Message::Work(2));
    q.send(Message::Stop);
    assert_eq!(q.len(), 3);
    assert!(matches!(q.receive(), Some(Message::Work(1))));
    assert!(matches!(q.receive(), Some(Message::Work(2))));
    let last = q.receive().unwrap();
    assert!(last.is_stop());
    assert!(q.receive().is_none());
    assert!(q.is_empty());
}

#[test]
fn worker_loop_runs_work_and_ends_on_stop() {
    let mut w = WorkerLoop::new(5);
    assert!(w.is_running());
    assert_eq!(w.handle(Message::Work(42u8)), Some(42));
    assert_eq!(w.state, WorkerState::Running);
    assert_eq!(w.handle(Message::<u8>::Stop), None);
    assert_eq!(w.state, WorkerState::Terminating);
    assert!(!w.is_running());
    w.finish();
    assert_eq!(w.state, WorkerState::Terminated);
    assert_eq!(w.id, 5);
}

#[test]
fn joining_twice_takes_the_handle_once() {
    let mut w = Worker::new(3, "handle");
    assert_eq!(w.id(), 3);
    assert!(!w.is_joined());
    assert_eq!(w.take_thread(), Some("handle"));
    assert!(w.is_joined());
    assert_eq!(w.take_thread(), None);
    assert_eq!(w.id(), 3);
}
