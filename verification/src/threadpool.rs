//! The rules of a thread pool: a fixed number of workers that take units of work
//! from one shared queue until each is told to stop.
//!
//! A [`ThreadPool`] holds the queue and the state of every worker, and decides:
//! [`ThreadPool::execute`] queues a unit of work, [`ThreadPool::shutdown`] queues one
//! signal to stop per worker, and [`ThreadPool::receive`] is a worker's turn to the
//! queue, which tells the worker what to do next as an [`Action`]. The pool runs
//! nothing itself. The program around it gives each worker a thread that asks, acts,
//! reports with [`ThreadPool::job_done`] and asks again, and guards the pool with a
//! lock that is held while the pool is asked and never while work runs. It tells the
//! pool with [`ThreadPool::poisoned`] of a worker that found that lock poisoned, and
//! with [`ThreadPool::worker_left`] of a worker whose thread ended in any other way
//! than by the pool's word: a pool in which no worker is left refuses work.
//!
//! [`model`] states what a pool is as a mathematical value, and [`laws`] what follows
//! for every pool: no unit of work is lost, none is taken twice, work is taken in the
//! order of its submission, a worker runs one unit of work at a time, and no worker
//! stops while work is left.

pub mod convert;
pub mod error;
pub mod laws;
pub mod message;
pub mod model;
pub mod pool;
pub mod worker;

pub use self::error::ThreadPoolError;
pub use self::message::Message;
pub use self::pool::ThreadPool;
pub use self::worker::{Action, Received, Worker, WorkerState};
