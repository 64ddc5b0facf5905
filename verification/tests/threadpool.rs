use netcon::threadpool::{
    Action, Message, Received, ThreadPool, ThreadPoolError, Worker, WorkerState,
};
use std::sync::{Arc, Mutex};

type Job = Box<dyn FnOnce() + Send + 'static>;

/// One turn of worker `id` to the queue, as its thread would take it: a unit of
/// work is run at once. Returns what the worker's thread returns, once it has left
/// its loop.
fn turn(pool: &mut ThreadPool<Job>, id: usize) -> Option<Result<(), ThreadPoolError>> {
    assert_eq!(pool.worker(id).unwrap().state, WorkerState::Running);
    assert!(!pool.worker(id).unwrap().busy);
    match pool.receive(id) {
        Action::Run(job) => {
            assert!(pool.worker(id).unwrap().busy);
            job();
            pool.job_done(id);
            None
        }
        Action::Wait => panic!("worker {} would block", id),
        Action::Exit(result) => Some(result),
    }
}

/// Worker `id` takes turns until it leaves its loop.
fn join(pool: &mut ThreadPool<Job>, id: usize) -> Result<(), ThreadPoolError> {
    loop {
        if let Some(result) = turn(pool, id) {
            return result;
        }
    }
}

/// What dropping a pool of threads does: shutdown is asked for, and each worker in
/// order is waited for.
fn drop_pool(mut pool: ThreadPool<Job>) {
    pool.shutdown();
    for id in 0..pool.size() {
        join(&mut pool, id).unwrap();
    }
    assert!(pool.is_shut_down());
    assert_eq!(pool.pending(), 0);
    pool.disconnect();
}

#[test]
fn basic_thread_pool() {
    let mut threadpool = ThreadPool::<Job>::new(2).unwrap();
    let n_tasks: usize = 100;
    let mut ref_vec = Vec::with_capacity(n_tasks);
    let result_vec = Arc::new(Mutex::new(Vec::with_capacity(n_tasks)));
    for i in 1..n_tasks {
        ref_vec.push(i.pow(2));
        let result_vec = result_vec.clone();
        threadpool
            .execute(Box::new(move || {
                let mut result_vec = result_vec.lock().unwrap();
                result_vec.push(i.pow(2));
            }))
            .unwrap();
    }
    drop_pool(threadpool);

    let mut result_vec = result_vec.lock().unwrap();
    result_vec.sort();
    assert_eq!(ref_vec, *result_vec);
}

#[test]
fn workers_that_take_turns_while_work_comes_in_run_every_job_once() {
    let mut threadpool = ThreadPool::<Job>::new(2).unwrap();
    let n_tasks: usize = 100;
    let mut ref_vec = Vec::with_capacity(n_tasks);
    let result_vec = Arc::new(Mutex::new(Vec::with_capacity(n_tasks)));
    for i in 1..n_tasks {
        ref_vec.push(i.pow(2));
        let result_vec = result_vec.clone();
        threadpool
            .execute(Box::new(move || {
                let mut result_vec = result_vec.lock().unwrap();
                result_vec.push(i.pow(2));
            }))
            .unwrap();
        if i % 3 == 0 {
            assert!(turn(&mut threadpool, 1).is_none());
        }
        if i % 7 == 0 {
            assert!(turn(&mut threadpool, 0).is_none());
            assert!(turn(&mut threadpool, 0).is_none());
        }
    }
    drop_pool(threadpool);

    let mut result_vec = result_vec.lock().unwrap();
    assert_eq!(result_vec.len(), 99);
    result_vec.sort();
    assert_eq!(ref_vec, *result_vec);
}

#[test]
fn nine_jobs_on_four_workers_each_run_once() {
    let mut threadpool = ThreadPool::<Job>::new(4).unwrap();
    let runs = Arc::new(Mutex::new(Vec::new()));
    for id in 1..10_u32 {
        let runs = runs.clone();
        threadpool
            .execute(Box::new(move || {
                println!("Hello from task {}", id);
                runs.lock().unwrap().push(id);
            }))
            .unwrap();
    }
    assert_eq!(threadpool.pending(), 9);
    // the workers take turns in a mixed order
    for id in [3, 0, 2, 2, 1] {
        assert!(turn(&mut threadpool, id).is_none());
    }
    assert_eq!(threadpool.pending(), 4);
    threadpool.shutdown();
    assert_eq!(threadpool.pending(), 8);
    for id in [1, 3, 0, 2] {
        join(&mut threadpool, id).unwrap();
    }
    assert!(threadpool.is_shut_down());
    assert_eq!(threadpool.pending(), 0);
    let mut runs = runs.lock().unwrap();
    assert_eq!(runs.len(), 9);
    runs.sort();
    assert_eq!(*runs, vec![1, 2, 3, 4, 5, 6, 7, 8, 9]);
}

#[test]
fn a_pool_without_jobs_shuts_down_cleanly() {
    let mut threadpool = ThreadPool::<Job>::new(3).unwrap();
    assert_eq!(threadpool.pending(), 0);
    threadpool.shutdown();
    assert_eq!(threadpool.pending(), 3);
    for id in 0..3 {
        assert!(matches!(threadpool.receive(id), Action::Exit(Ok(()))));
        assert_eq!(threadpool.worker(id).unwrap().state, WorkerState::Terminated);
        assert!(!threadpool.worker(id).unwrap().failed);
    }
    assert_eq!(threadpool.pending(), 0);
    assert!(threadpool.is_shut_down());
}

#[test]
fn a_size_below_one_is_rejected() {
    match ThreadPool::<Job>::new(0) {
        Err(ThreadPoolError::SizeTooLow(size)) => assert_eq!(size, 0),
        _ => panic!("a pool of no workers was built"),
    }
}

#[test]
fn a_new_pool_has_size_running_workers() {
    for size in [1_usize, 2, 5, 64] {
        let threadpool = ThreadPool::<Job>::new(size).unwrap();
        assert_eq!(threadpool.size(), size);
        assert_eq!(threadpool.pending(), 0);
        assert!(threadpool.is_accepting());
        assert!(!threadpool.is_shut_down());
        for id in 0..size {
            let worker = threadpool.worker(id).unwrap();
            assert_eq!(worker.id, id);
            assert_eq!(worker.state, WorkerState::Running);
            assert!(!worker.failed);
            assert!(!worker.busy);
        }
        assert_eq!(threadpool.receivers(), size);
        assert!(threadpool.worker(size).is_none());
    }
}

#[test]
fn an_idle_worker_waits_while_the_pool_accepts_work() {
    let mut threadpool = ThreadPool::<Job>::new(1).unwrap();
    assert!(matches!(threadpool.receive(0), Action::Wait));
    assert_eq!(threadpool.worker(0).unwrap().state, WorkerState::Running);
    assert!(matches!(threadpool.receive(0), Action::Wait));
    drop_pool(threadpool);
}

#[test]
fn work_is_taken_in_the_order_of_submission() {
    let mut threadpool = ThreadPool::<u32>::new(3).unwrap();
    for job in [10, 20, 30, 40, 50] {
        threadpool.execute(job).unwrap();
    }
    let mut taken = Vec::new();
    for id in [2, 0, 0, 1, 2] {
        match threadpool.receive(id) {
            Action::Run(job) => taken.push((id, job)),
            _ => panic!("worker {} was given no work", id),
        }
        threadpool.job_done(id);
    }
    assert_eq!(taken, vec![(2, 10), (0, 20), (0, 30), (1, 40), (2, 50)]);
    assert!(matches!(threadpool.receive(1), Action::Wait));
}

#[test]
fn no_worker_is_told_to_stop_while_work_is_left() {
    let mut threadpool = ThreadPool::<u32>::new(2).unwrap();
    threadpool.execute(1).unwrap();
    threadpool.execute(2).unwrap();
    threadpool.shutdown();
    assert!(matches!(threadpool.receive(1), Action::Run(1)));
    threadpool.job_done(1);
    assert!(matches!(threadpool.receive(1), Action::Run(2)));
    threadpool.job_done(1);
    assert!(matches!(threadpool.receive(1), Action::Exit(Ok(()))));
    assert!(!threadpool.is_shut_down());
    assert!(matches!(threadpool.receive(0), Action::Exit(Ok(()))));
    assert!(threadpool.is_shut_down());
    assert_eq!(threadpool.pending(), 0);
}

#[test]
fn shutdown_queues_one_signal_per_worker_and_only_once() {
    let mut threadpool = ThreadPool::<u32>::new(4).unwrap();
    threadpool.execute(7).unwrap();
    threadpool.shutdown();
    assert_eq!(threadpool.pending(), 5);
    assert!(!threadpool.is_accepting());
    threadpool.shutdown();
    assert_eq!(threadpool.pending(), 5);
}

#[test]
fn work_submitted_after_shutdown_is_refused() {
    let mut threadpool = ThreadPool::<u32>::new(2).unwrap();
    threadpool.shutdown();
    match threadpool.execute(1) {
        Err(ThreadPoolError::Sender(description)) => {
            assert_eq!(description, "sending on a closed channel")
        }
        _ => panic!("work was accepted after shutdown"),
    }
    assert_eq!(threadpool.pending(), 2);
}

#[test]
fn work_submitted_after_the_submitting_side_went_is_refused() {
    let mut threadpool = ThreadPool::<u32>::new(2).unwrap();
    threadpool.disconnect();
    let error = threadpool.execute(1).unwrap_err();
    assert_eq!(error.to_string(), "Sender Error: sending on a closed channel");
    assert_eq!(threadpool.pending(), 0);
    threadpool.shutdown();
    assert_eq!(threadpool.pending(), 0);
}

#[test]
fn a_worker_fails_on_an_empty_queue_that_nothing_fills_any_more() {
    let mut threadpool = ThreadPool::<u32>::new(2).unwrap();
    threadpool.execute(5).unwrap();
    threadpool.disconnect();
    assert!(matches!(threadpool.receive(0), Action::Run(5)));
    threadpool.job_done(0);
    match threadpool.receive(0) {
        Action::Exit(Err(ThreadPoolError::Receiver(description))) => {
            assert_eq!(description, "receiving on a closed channel")
        }
        _ => panic!("the worker did not fail"),
    }
    let worker = threadpool.worker(0).unwrap();
    assert_eq!(worker.state, WorkerState::Terminated);
    assert!(worker.failed);
    assert_eq!(threadpool.worker(1).unwrap().state, WorkerState::Running);
    assert!(!threadpool.is_shut_down());
}

#[test]
fn a_worker_makes_one_transition_for_each_thing_it_finds() {
    let mut worker = Worker::new(4);
    assert_eq!(worker.id, 4);
    assert_eq!(worker.state, WorkerState::Running);
    assert!(matches!(worker.handle(Received::Message(Message::NewJob(9_u8))), Action::Run(9)));
    assert_eq!(worker.state, WorkerState::Running);
    assert!(worker.busy);
    worker.job_done();
    assert!(!worker.busy);
    assert!(matches!(worker.handle(Received::<u8>::Nothing), Action::Wait));
    assert_eq!(worker.state, WorkerState::Running);
    assert!(matches!(worker.handle(Received::<u8>::Message(Message::Terminate)), Action::Exit(Ok(()))));
    assert_eq!(worker.state, WorkerState::Terminated);
    assert!(!worker.failed);
    assert_eq!(worker.id, 4);

    let mut worker = Worker::new(0);
    assert!(matches!(
        worker.handle(Received::<u8>::Closed),
        Action::Exit(Err(ThreadPoolError::Receiver(_)))
    ));
    assert_eq!(worker.state, WorkerState::Terminated);
    assert!(worker.failed);
}

#[test]
fn a_worker_that_finds_the_lock_poisoned_leaves_with_that_error() {
    let mut worker = Worker::new(2);
    match worker.handle(Received::<u8>::Poisoned(String::from("poisoned lock"))) {
        Action::Exit(Err(ThreadPoolError::Poison(description))) => {
            assert_eq!(description, "poisoned lock")
        }
        _ => panic!("the worker did not leave with the poisoned lock"),
    }
    assert_eq!(worker.state, WorkerState::Terminated);
    assert!(worker.failed);
    assert_eq!(worker.id, 2);

    let mut threadpool = ThreadPool::<u32>::new(2).unwrap();
    threadpool.execute(5).unwrap();
    match threadpool.poisoned(1, String::from("poisoned lock: another task failed inside")) {
        Action::Exit(Err(error)) => assert_eq!(
            error.to_string(),
            "Poison Error: poisoned lock: another task failed inside"
        ),
        _ => panic!("the worker did not leave with the poisoned lock"),
    }
    // the worker took no message
    assert_eq!(threadpool.pending(), 1);
    assert_eq!(threadpool.worker(1).unwrap().state, WorkerState::Terminated);
    assert!(threadpool.worker(1).unwrap().failed);
    assert_eq!(threadpool.receivers(), 1);
    assert!(threadpool.is_accepting());
}

#[test]
fn work_is_refused_once_the_only_worker_has_left() {
    let mut threadpool = ThreadPool::<Job>::new(1).unwrap();
    threadpool
        .execute(Box::new(|| panic!("this work panics")))
        .unwrap();
    // the worker takes the work; its thread ends through the panic of that work
    assert!(matches!(threadpool.receive(0), Action::Run(_)));
    threadpool.worker_left(0);
    assert_eq!(threadpool.receivers(), 0);
    assert!(!threadpool.is_accepting());
    assert!(threadpool.is_submitting());
    match threadpool.execute(Box::new(|| ())) {
        Err(ThreadPoolError::Sender(description)) => {
            assert_eq!(description, "sending on a closed channel")
        }
        _ => panic!("work was accepted though no worker is left"),
    }
    assert_eq!(threadpool.pending(), 0);
    let worker = threadpool.worker(0).unwrap();
    assert_eq!(worker.state, WorkerState::Terminated);
    assert!(worker.failed);
    assert!(worker.busy);
}

#[test]
fn work_is_accepted_while_one_worker_is_left() {
    let mut threadpool = ThreadPool::<u32>::new(3).unwrap();
    threadpool.worker_left(0);
    threadpool.worker_left(2);
    threadpool.worker_left(2);
    assert_eq!(threadpool.receivers(), 1);
    threadpool.execute(8).unwrap();
    assert!(matches!(threadpool.receive(1), Action::Run(8)));
    threadpool.job_done(1);
    threadpool.worker_left(1);
    assert_eq!(threadpool.receivers(), 0);
    assert!(threadpool.execute(9).is_err());
    assert!(!threadpool.is_shut_down());
}

#[test]
fn a_signal_is_queued_for_every_worker_also_for_those_that_left() {
    let mut threadpool = ThreadPool::<u32>::new(3).unwrap();
    threadpool.worker_left(1);
    threadpool.shutdown();
    assert_eq!(threadpool.pending(), 3);
    assert!(matches!(threadpool.receive(0), Action::Exit(Ok(()))));
    assert!(matches!(threadpool.receive(2), Action::Exit(Ok(()))));
    assert_eq!(threadpool.pending(), 1);
    assert!(!threadpool.is_shut_down());
}

#[test]
fn a_worker_has_work_in_hand_until_it_reports_its_end() {
    let mut threadpool = ThreadPool::<u32>::new(2).unwrap();
    threadpool.execute(1).unwrap();
    threadpool.execute(2).unwrap();
    assert!(matches!(threadpool.receive(0), Action::Run(1)));
    assert!(threadpool.worker(0).unwrap().busy);
    assert!(!threadpool.worker(1).unwrap().busy);
    threadpool.job_done(1);
    assert!(threadpool.worker(0).unwrap().busy);
    threadpool.job_done(0);
    assert!(!threadpool.worker(0).unwrap().busy);
    assert!(matches!(threadpool.receive(0), Action::Run(2)));
}
