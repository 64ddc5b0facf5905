//! The pool itself: a fixed set of workers around one queue of messages.
//!
//! The pool decides; it does not run anything. Work is handed in with
//! [`ThreadPool::execute`], and each worker's thread asks with
//! [`ThreadPool::receive`] what to do next, under whatever lock the threads share.
//! What the pool cannot see for itself it is told: that a worker has run its work
//! to the end, that it found the lock poisoned, that its thread has ended.

use std::collections::VecDeque;
use vstd::prelude::*;
use vstd::string::*;
use crate::threadpool::error::{ErrorView, ThreadPoolError};
use crate::threadpool::message::Message;
use crate::threadpool::model::{running, PoolView, Started};
use crate::threadpool::worker::{Action, ActionView, Received, Worker, WorkerState};

verus! {

/// A fixed number of workers that take units of work of type `J` from one queue.
pub struct ThreadPool<J> {
    workers: Vec<Worker>,
    queue: VecDeque<Message<J>>,
    closing: bool,
    connected: bool,
    submitted: Ghost<Seq<J>>,
    started: Ghost<Seq<Started<J>>>,
}

impl<J> View for ThreadPool<J> {
    type V = PoolView<J>;

    closed spec fn view(&self) -> PoolView<J> {
        PoolView {
            workers: self.workers@,
            queue: self.queue@,
            closing: self.closing,
            connected: self.connected,
            submitted: self.submitted@,
            started: self.started@,
        }
    }
}

impl<J> ThreadPool<J> {
    /// A pool is well formed when its value is consistent.
    pub open spec fn wf(&self) -> bool {
        self@.inv()
    }

    /// Builds a pool of `size` running workers with identities `0..size` and an
    /// empty queue. A `size` below one is rejected, and nothing is built.
    pub fn new(size: usize) -> (result: Result<Self, ThreadPoolError>)
        ensures
            size < 1 ==> (result matches Err(error) && error@ == ErrorView::SizeTooLow(size)),
            size >= 1 ==> (result matches Ok(pool) && pool.wf() && pool@ == PoolView::<J>::start(
                size,
            ) && pool@.receivers() == size && pool@.accepting()),
    {
        if size < 1 {
            return Err(ThreadPoolError::SizeTooLow(size));
        }
        let mut workers: Vec<Worker> = Vec::with_capacity(size);
        let mut id: usize = 0;
        while id < size
            invariant
                id <= size,
                workers@.len() == id,
                forall|i: int| 0 <= i < id ==> workers@[i] == Worker::started(i as usize),
            decreases size - id,
        {
            workers.push(Worker::new(id));
            id = id + 1;
        }
        let pool = ThreadPool {
            workers,
            queue: VecDeque::new(),
            closing: false,
            connected: true,
            submitted: Ghost(Seq::empty()),
            started: Ghost(Seq::empty()),
        };
        proof {
            assert(pool@.workers =~= PoolView::<J>::start(size).workers);
            PoolView::<J>::start_inv(size);
        }
        Ok(pool)
    }

    /// Submits `job`: it is queued behind everything submitted before, for whichever
    /// worker takes it. A pool in which no worker is left to receive takes no work,
    /// nor does one that is closing or whose submitting side has gone: it drops `job`
    /// and reports [`ThreadPoolError::Sender`].
    pub fn execute(&mut self, job: J) -> (result: Result<(), ThreadPoolError>)
        requires
            old(self).wf(),
        ensures
            final(self).wf(),
            final(self)@ == old(self)@.execute(job),
            old(self)@.accepting() ==> result is Ok,
            !old(self)@.accepting() ==> (result matches Err(error) && error@ == ErrorView::Sender(
                "sending on a closed channel"@,
            )),
            old(self)@.receivers() == 0 ==> result is Err,
    {
        if self.closing || !self.connected || self.receivers() == 0 {
            return Err(ThreadPoolError::Sender(String::from_str("sending on a closed channel")));
        }
        proof {
            old(self)@.execute_inv(job);
        }
        self.submitted = Ghost(self.submitted@.push(job));
        self.queue.push_back(Message::NewJob(job));
        Ok(())
    }

    /// Begins shutdown: queues exactly one signal to stop per worker, behind all
    /// work that was submitted, and takes no more work from now on. On a pool that
    /// is closing already, or whose submitting side has gone, it does nothing.
    ///
    /// Some worker must be left to receive the signals, unless there is nothing to
    /// do.
    pub fn shutdown(&mut self)
        requires
            old(self).wf(),
            old(self)@.submitting() ==> old(self)@.receivers() > 0,
        ensures
            final(self).wf(),
            final(self)@ == old(self)@.shutdown(),
    {
        if self.closing || !self.connected {
            return ;
        }
        proof {
            old(self)@.shutdown_inv();
        }
        let size = self.workers.len();
        let mut sent: usize = 0;
        while sent < size
            invariant
                sent <= size,
                size == self.workers@.len(),
                self.workers == old(self).workers,
                self.closing == old(self).closing,
                self.connected == old(self).connected,
                self.submitted == old(self).submitted,
                self.started == old(self).started,
                self.queue@ =~= old(self).queue@ + Seq::new(
                    sent as nat,
                    |i: int| Message::<J>::Terminate,
                ),
            decreases size - sent,
        {
            self.queue.push_back(Message::Terminate);
            sent = sent + 1;
        }
        self.closing = true;
    }

    /// Records that the side that submits work has gone: nothing will be queued any
    /// more, and a worker that finds the queue empty fails instead of waiting.
    pub fn disconnect(&mut self)
        requires
            old(self).wf(),
        ensures
            final(self).wf(),
            final(self)@ == old(self)@.disconnect(),
    {
        proof {
            old(self)@.disconnect_inv();
        }
        self.connected = false;
    }

    /// Records that worker `id` has left its loop without having been told to: its
    /// thread ended through a panic of the work it ran. The worker no longer holds
    /// the receiving end of the queue, and what it had in hand stays in its hand. Of
    /// a worker that has terminated already nothing changes.
    pub fn worker_left(&mut self, id: usize)
        requires
            old(self).wf(),
            id < old(self)@.workers.len(),
        ensures
            final(self).wf(),
            final(self)@ == old(self)@.worker_left(id as int),
            final(self)@.receivers() + (if old(self)@.workers[id as int].state is Running {
                1nat
            } else {
                0nat
            }) == old(self)@.receivers(),
    {
        proof {
            old(self)@.worker_left_inv(id as int);
        }
        let worker = self.workers[id];
        match worker.state {
            WorkerState::Running => {
                self.workers.set(
                    id,
                    Worker {
                        id: worker.id,
                        state: WorkerState::Terminated,
                        failed: true,
                        busy: worker.busy,
                    },
                );
            },
            WorkerState::Terminated => {},
        }
    }

    /// Records that worker `id` has run the unit of work that it had in hand to its
    /// end: from now on it may turn to the queue again. Of a worker that is not
    /// running nothing changes.
    pub fn job_done(&mut self, id: usize)
        requires
            old(self).wf(),
            id < old(self)@.workers.len(),
        ensures
            final(self).wf(),
            final(self)@ == old(self)@.job_done(id as int),
            final(self)@.receivers() == old(self)@.receivers(),
    {
        proof {
            old(self)@.job_done_inv(id as int);
            old(self)@.job_done_keeps_receivers(id as int);
        }
        let mut worker = self.workers[id];
        worker.job_done();
        self.workers.set(id, worker);
    }

    /// The turn of idle worker `id` to the queue on which it found the lock
    /// poisoned: the worker takes no message and leaves its loop with
    /// [`ThreadPoolError::Poison`] and the `description` of the failure.
    pub fn poisoned(&mut self, id: usize, description: String) -> (action: Action<J>)
        requires
            old(self).wf(),
            id < old(self)@.workers.len(),
            old(self)@.workers[id as int].idle(),
        ensures
            final(self).wf(),
            final(self)@ == old(self)@.worker_left(id as int),
            final(self)@.receivers() + 1 == old(self)@.receivers(),
            action@ == ActionView::<J>::Exit(Err(ErrorView::Poison(description@))),
            action@ == old(self)@.workers[id as int].step(Received::<J>::Poisoned(description)).1,
    {
        proof {
            old(self)@.worker_left_inv(id as int);
        }
        let mut worker = self.workers[id];
        let action = worker.handle(Received::Poisoned(description));
        self.workers.set(id, worker);
        action
    }

    /// The turn of worker `id` to the queue: takes the oldest message, if there is
    /// one, makes the worker's transition and returns what the worker does next.
    ///
    /// Only a running worker with no work in hand turns to the queue: one that was
    /// given work reports with [`ThreadPool::job_done`] that it ran it to its end
    /// before it turns to the queue again.
    pub fn receive(&mut self, id: usize) -> (action: Action<J>)
        requires
            old(self).wf(),
            id < old(self)@.workers.len(),
            old(self)@.workers[id as int].idle(),
        ensures
            final(self).wf(),
            final(self)@ == old(self)@.receive(id as int),
            action@ == old(self)@.action(id as int),
            final(self)@.receivers() + (if action@ is Exit {
                1nat
            } else {
                0nat
            }) == old(self)@.receivers(),
    {
        proof {
            old(self)@.receive_inv(id as int);
            old(self)@.receive_keeps_or_loses_receivers(id as int);
        }
        let received = match self.queue.pop_front() {
            Some(message) => Received::Message(message),
            None => if self.connected {
                Received::Nothing
            } else {
                Received::Closed
            },
        };
        assert(received == old(self)@.found());
        let mut worker = self.workers[id];
        let action = worker.handle(received);
        self.workers.set(id, worker);
        proof {
            if let ActionView::Run(job) = action@ {
                self.started = Ghost(self.started@.push(Started { worker: id, job }));
            }
            assert(self@.queue =~= old(self)@.receive(id as int).queue);
        }
        action
    }

    /// Whether shutdown is complete: every worker was told to stop and did so.
    pub fn is_shut_down(&self) -> (done: bool)
        ensures
            done == self@.shut_down(),
    {
        let mut at: usize = 0;
        while at < self.workers.len()
            invariant
                at <= self.workers@.len(),
                forall|i: int| 0 <= i < at ==> (#[trigger] self.workers@[i]).returned_ok(),
            decreases self.workers@.len() - at,
        {
            let worker = self.workers[at];
            let stopped = match worker.state {
                WorkerState::Running => false,
                WorkerState::Terminated => !worker.failed,
            };
            if !stopped {
                assert(!self@.workers[at as int].returned_ok());
                return false;
            }
            at = at + 1;
        }
        true
    }

    /// The number of workers.
    pub fn size(&self) -> (size: usize)
        ensures
            size == self@.workers.len(),
    {
        self.workers.len()
    }

    /// The worker with identity `id`, if the pool has one.
    pub fn worker(&self, id: usize) -> (worker: Option<Worker>)
        ensures
            id < self@.workers.len() ==> worker == Some(self@.workers[id as int]),
            id >= self@.workers.len() ==> worker is None,
    {
        if id < self.workers.len() {
            Some(self.workers[id])
        } else {
            None
        }
    }

    /// The number of messages that wait in the queue.
    pub fn pending(&self) -> (pending: usize)
        ensures
            pending == self@.queue.len(),
    {
        self.queue.len()
    }

    /// How many workers hold the receiving end of the queue: how many are running.
    pub fn receivers(&self) -> (receivers: usize)
        ensures
            receivers == self@.receivers(),
    {
        let mut receivers: usize = 0;
        let mut at: usize = 0;
        while at < self.workers.len()
            invariant
                at <= self.workers@.len(),
                receivers == running(self.workers@.take(at as int)),
                receivers <= at,
            decreases self.workers@.len() - at,
        {
            proof {
                assert(self.workers@.take(at + 1).drop_last() =~= self.workers@.take(at as int));
            }
            match self.workers[at].state {
                WorkerState::Running => {
                    receivers = receivers + 1;
                },
                WorkerState::Terminated => {},
            }
            at = at + 1;
        }
        proof {
            assert(self.workers@.take(at as int) =~= self.workers@);
        }
        receivers
    }

    /// Whether the submitting side is there and has not asked for shutdown.
    pub fn is_submitting(&self) -> (submitting: bool)
        ensures
            submitting == self@.submitting(),
    {
        !self.closing && self.connected
    }

    /// Whether the pool takes new work.
    pub fn is_accepting(&self) -> (accepting: bool)
        ensures
            accepting == self@.accepting(),
    {
        !self.closing && self.connected && self.receivers() > 0
    }
}

} // verus!
