//! The pool as a mathematical value: its workers, its queue, and the record of what
//! was submitted and what was taken. Every operation of the pool is a function on
//! this value, and every value that these functions can reach is consistent.

use vstd::prelude::*;
use crate::threadpool::message::Message;
use crate::threadpool::worker::{ActionView, Received, Worker, WorkerState};

verus! {

/// A unit of work that a worker has taken from the queue, with the identity of
/// that worker.
pub struct Started<J> {
    pub worker: usize,
    pub job: J,
}

/// A pool as a mathematical value.
pub struct PoolView<J> {
    /// The workers, each at the index that is its identity.
    pub workers: Seq<Worker>,
    /// The messages that wait to be taken, oldest first.
    pub queue: Seq<Message<J>>,
    /// Whether the signals to stop have been queued.
    pub closing: bool,
    /// Whether the side that submits work is still there.
    pub connected: bool,
    /// Every unit of work that was accepted, in the order of acceptance.
    pub submitted: Seq<J>,
    /// Every unit of work that a worker has taken, in the order of taking.
    pub started: Seq<Started<J>>,
}

/// How many of `workers` are of the kind `which`.
pub open spec fn count(workers: Seq<Worker>, which: spec_fn(Worker) -> bool) -> nat
    decreases workers.len(),
{
    if workers.len() == 0 {
        0
    } else {
        count(workers.drop_last(), which) + if which(workers.last()) {
            1nat
        } else {
            0nat
        }
    }
}

/// How many of `workers` were told to stop and did so.
pub open spec fn finished(workers: Seq<Worker>) -> nat {
    count(workers, |worker: Worker| worker.returned_ok())
}

/// How many of `workers` are running: how many hold the receiving end of the queue.
pub open spec fn running(workers: Seq<Worker>) -> nat {
    count(workers, |worker: Worker| worker.state is Running)
}

/// At most every worker is of a kind.
pub proof fn count_at_most_all(workers: Seq<Worker>, which: spec_fn(Worker) -> bool)
    ensures
        count(workers, which) <= workers.len(),
    decreases workers.len(),
{
    if workers.len() > 0 {
        count_at_most_all(workers.drop_last(), which);
    }
}

/// Where no worker is of a kind the count is zero, and where all are it is the
/// number of workers.
pub proof fn count_of_uniform(workers: Seq<Worker>, which: spec_fn(Worker) -> bool)
    ensures
        (forall|i: int| 0 <= i < workers.len() ==> !which(#[trigger] workers[i])) ==> count(
            workers,
            which,
        ) == 0,
        (forall|i: int| 0 <= i < workers.len() ==> which(#[trigger] workers[i])) ==> count(
            workers,
            which,
        ) == workers.len(),
    decreases workers.len(),
{
    if workers.len() > 0 {
        let rest = workers.drop_last();
        count_of_uniform(rest, which);
        assert(forall|i: int| 0 <= i < rest.len() ==> rest[i] == workers[i]);
    }
}

/// Replacing one worker changes the count by that worker alone.
pub proof fn count_after_update(
    workers: Seq<Worker>,
    which: spec_fn(Worker) -> bool,
    at: int,
    worker: Worker,
)
    requires
        0 <= at < workers.len(),
    ensures
        count(workers.update(at, worker), which) + (if which(workers[at]) {
            1nat
        } else {
            0nat
        }) == count(workers, which) + (if which(worker) {
            1nat
        } else {
            0nat
        }),
    decreases workers.len(),
{
    let updated = workers.update(at, worker);
    if at == workers.len() - 1 {
        assert(updated.drop_last() =~= workers.drop_last());
    } else {
        count_after_update(workers.drop_last(), which, at, worker);
        assert(updated.drop_last() =~= workers.drop_last().update(at, worker));
    }
}

/// While one worker has not finished, fewer than all have.
pub proof fn finished_below_all(workers: Seq<Worker>, at: int)
    requires
        0 <= at < workers.len(),
        !workers[at].returned_ok(),
    ensures
        finished(workers) < workers.len(),
{
    let which = |worker: Worker| worker.returned_ok();
    let done = Worker { state: WorkerState::Terminated, failed: false, ..workers[at] };
    count_after_update(workers, which, at, done);
    count_at_most_all(workers.update(at, done), which);
}

/// While one worker is running, the receiving end of the queue is held.
pub proof fn running_above_none(workers: Seq<Worker>, at: int)
    requires
        0 <= at < workers.len(),
        workers[at].state is Running,
    ensures
        running(workers) > 0,
{
    let which = |worker: Worker| worker.state is Running;
    count_after_update(workers, which, at, workers[at].left());
}

impl<J> PoolView<J> {
    /// The pool of `size` workers as it is when it has just been built.
    pub open spec fn start(size: usize) -> PoolView<J> {
        PoolView {
            workers: Seq::new(size as nat, |i: int| Worker::started(i as usize)),
            queue: Seq::empty(),
            closing: false,
            connected: true,
            submitted: Seq::empty(),
            started: Seq::empty(),
        }
    }

    /// How many workers hold the receiving end of the queue: how many are running.
    pub open spec fn receivers(self) -> nat {
        running(self.workers)
    }

    /// Whether the submitting side is there and has not asked for shutdown.
    pub open spec fn submitting(self) -> bool {
        !self.closing && self.connected
    }

    /// Whether the pool takes new work: the submitting side is there, shutdown was not
    /// asked for, and at least one worker is left to receive.
    pub open spec fn accepting(self) -> bool {
        self.submitting() && self.receivers() > 0
    }

    /// Everything that was ever queued, oldest first: each accepted unit of work,
    /// and behind them, once the pool is closing, one signal to stop per worker.
    pub open spec fn sent(self) -> Seq<Message<J>> {
        self.submitted.map_values(|job: J| Message::NewJob(job)) + (if self.closing {
            Seq::new(self.workers.len(), |i: int| Message::Terminate)
        } else {
            Seq::empty()
        })
    }

    /// How many messages have been taken from the queue.
    pub open spec fn taken(self) -> nat {
        self.started.len() + finished(self.workers)
    }

    /// What holds of every pool, whatever was done with it.
    ///
    /// The queue is what was sent less what was taken, in the same order: no message
    /// is lost, none is taken twice. The units of work were taken in the order of
    /// their submission. A worker has finished only when no work was left.
    pub open spec fn inv(self) -> bool {
        &&& self.workers.len() >= 1
        &&& forall|i: int|
            0 <= i < self.workers.len() ==> (#[trigger] self.workers[i]).id == i
                && self.workers[i].wf()
        &&& self.started.len() <= self.submitted.len()
        &&& forall|k: int|
            0 <= k < self.started.len() ==> (#[trigger] self.started[k]).job == self.submitted[k]
                && self.started[k].worker < self.workers.len()
        &&& self.taken() <= self.sent().len()
        &&& self.queue =~= self.sent().skip(self.taken() as int)
        &&& finished(self.workers) > 0 ==> self.closing && self.started.len()
            == self.submitted.len()
    }

    /// Whether shutdown is complete: every worker was told to stop and did so.
    pub open spec fn shut_down(self) -> bool {
        forall|i: int| 0 <= i < self.workers.len() ==> (#[trigger] self.workers[i]).returned_ok()
    }

    /// The pool after `job` was submitted: an accepting pool queues it, any other
    /// pool is unchanged.
    pub open spec fn execute(self, job: J) -> PoolView<J> {
        if self.accepting() {
            PoolView {
                queue: self.queue.push(Message::NewJob(job)),
                submitted: self.submitted.push(job),
                ..self
            }
        } else {
            self
        }
    }

    /// The pool after shutdown was asked for: an accepting pool queues one signal to
    /// stop per worker and is closing from now on, any other pool is unchanged.
    pub open spec fn shutdown(self) -> PoolView<J> {
        if self.accepting() {
            PoolView {
                queue: self.queue + Seq::new(self.workers.len(), |i: int| Message::Terminate),
                closing: true,
                ..self
            }
        } else {
            self
        }
    }

    /// The pool after the side that submits work has gone.
    pub open spec fn disconnect(self) -> PoolView<J> {
        PoolView { connected: false, ..self }
    }

    /// The pool after worker `id` has left its loop without having been told to:
    /// the worker no longer holds the receiving end, and the queue is as it was. Of
    /// a worker that has terminated already nothing changes.
    pub open spec fn worker_left(self, id: int) -> PoolView<J> {
        if self.workers[id].state is Running {
            PoolView { workers: self.workers.update(id, self.workers[id].left()), ..self }
        } else {
            self
        }
    }

    /// The pool after worker `id` has run the unit of work that it had in hand to its
    /// end.
    pub open spec fn job_done(self, id: int) -> PoolView<J> {
        PoolView { workers: self.workers.update(id, self.workers[id].done()), ..self }
    }

    /// What a worker finds when it turns to the queue and can take the lock.
    pub open spec fn found(self) -> Received<J> {
        if self.queue.len() > 0 {
            Received::Message(self.queue[0])
        } else if self.connected {
            Received::Nothing
        } else {
            Received::Closed
        }
    }

    /// What worker `id` does next when it turns to the queue.
    pub open spec fn action(self, id: int) -> ActionView<J> {
        self.workers[id].step(self.found()).1
    }

    /// The pool after idle worker `id` has turned to the queue: the oldest message, if
    /// there is one, has left the queue, the worker has made its transition, and a
    /// unit of work that it took is on record and in its hand.
    pub open spec fn receive(self, id: int) -> PoolView<J> {
        PoolView {
            workers: self.workers.update(id, self.workers[id].step(self.found()).0),
            queue: if self.queue.len() > 0 {
                self.queue.skip(1)
            } else {
                self.queue
            },
            started: match self.action(id) {
                ActionView::Run(job) => self.started.push(Started { worker: id as usize, job }),
                _ => self.started,
            },
            ..self
        }
    }

    /// A pool that has just been built is consistent, and all its workers hold the
    /// receiving end of the queue.
    pub proof fn start_inv(size: usize)
        requires
            size >= 1,
        ensures
            Self::start(size).inv(),
            Self::start(size).receivers() == size,
            Self::start(size).accepting(),
    {
        let pool = Self::start(size);
        count_of_uniform(pool.workers, |worker: Worker| worker.returned_ok());
        count_of_uniform(pool.workers, |worker: Worker| worker.state is Running);
    }

    /// Submitting work keeps a pool consistent.
    pub proof fn execute_inv(self, job: J)
        requires
            self.inv(),
        ensures
            self.execute(job).inv(),
    {
        let next = self.execute(job);
        if self.accepting() {
            assert(next.sent() =~= self.sent().push(Message::NewJob(job)));
        }
    }

    /// Asking for shutdown keeps a pool consistent.
    pub proof fn shutdown_inv(self)
        requires
            self.inv(),
        ensures
            self.shutdown().inv(),
    {
        let next = self.shutdown();
        if self.accepting() {
            assert(next.sent() =~= self.sent() + Seq::new(
                self.workers.len(),
                |i: int| Message::<J>::Terminate,
            ));
        }
    }

    /// The going of the submitting side keeps a pool consistent.
    pub proof fn disconnect_inv(self)
        requires
            self.inv(),
        ensures
            self.disconnect().inv(),
    {
        assert(self.disconnect().sent() =~= self.sent());
    }

    /// A worker's end of the work it had in hand keeps a pool consistent, and changes
    /// nothing about who holds the receiving end.
    pub proof fn job_done_inv(self, id: int)
        requires
            self.inv(),
            0 <= id < self.workers.len(),
        ensures
            self.job_done(id).inv(),
    {
        let next = self.job_done(id);
        let worker = self.workers[id].done();
        count_after_update(self.workers, |worker: Worker| worker.returned_ok(), id, worker);
        assert(next.sent() =~= self.sent());
    }

    /// The leaving of a worker keeps a pool consistent, and takes one from those
    /// that hold the receiving end if the worker was running.
    pub proof fn worker_left_inv(self, id: int)
        requires
            self.inv(),
            0 <= id < self.workers.len(),
        ensures
            self.worker_left(id).inv(),
            self.workers[id].state is Running ==> self.worker_left(id).receivers() + 1
                == self.receivers(),
    {
        let next = self.worker_left(id);
        if self.workers[id].state is Running {
            let worker = self.workers[id].left();
            count_after_update(self.workers, |worker: Worker| worker.returned_ok(), id, worker);
            count_after_update(self.workers, |worker: Worker| worker.state is Running, id, worker);
            assert(next.sent() =~= self.sent());
        }
    }

    /// An idle worker's turn to the queue keeps a pool consistent.
    pub proof fn receive_inv(self, id: int)
        requires
            self.inv(),
            0 <= id < self.workers.len(),
            self.workers[id].idle(),
        ensures
            self.receive(id).inv(),
    {
        let next = self.receive(id);
        let worker = self.workers[id].step(self.found()).0;
        count_after_update(self.workers, |worker: Worker| worker.returned_ok(), id, worker);
        assert(next.sent() =~= self.sent());
        if self.queue.len() > 0 {
            let at = self.taken() as int;
            assert(self.queue[0] == self.sent()[at]);
            match self.queue[0] {
                Message::NewJob(job) => {
                    assert(at < self.submitted.len());
                },
                Message::Terminate => {
                    assert(at >= self.submitted.len());
                },
            }
        } else {
            if self.connected {
                assert(self.workers.update(id, worker) =~= self.workers);
            }
        }
    }

    /// A worker's end of the work it had in hand changes nothing about who holds the
    /// receiving end.
    pub proof fn job_done_keeps_receivers(self, id: int)
        requires
            0 <= id < self.workers.len(),
        ensures
            self.job_done(id).receivers() == self.receivers(),
    {
        let worker = self.workers[id].done();
        count_after_update(self.workers, |worker: Worker| worker.state is Running, id, worker);
    }

    /// A worker's turn to the queue takes one from those that hold the receiving end
    /// where the worker leaves its loop, and none where it goes on.
    pub proof fn receive_keeps_or_loses_receivers(self, id: int)
        requires
            0 <= id < self.workers.len(),
            self.workers[id].state is Running,
        ensures
            self.receive(id).receivers() <= self.receivers(),
            self.receive(id).receivers() + (if self.action(id) is Exit {
                1nat
            } else {
                0nat
            }) == self.receivers(),
    {
        let worker = self.workers[id].step(self.found()).0;
        count_after_update(self.workers, |worker: Worker| worker.state is Running, id, worker);
    }
}

} // verus!
