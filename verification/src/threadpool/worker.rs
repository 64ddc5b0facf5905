//! A single worker: its identity, its two states, and what it does with each thing
//! it may find when it turns to the queue.

use vstd::prelude::*;
use vstd::string::*;
use crate::threadpool::error::{ErrorView, ThreadPoolError};
use crate::threadpool::message::Message;

verus! {

/// The two states of a worker. There is no way back from `Terminated`.
#[derive(Clone, Copy, Debug, PartialEq, Eq, Structural)]
pub enum WorkerState {
    /// The worker takes messages from the queue.
    Running,
    /// The worker has left its loop for good.
    Terminated,
}

/// What a worker finds when it turns to the queue.
pub enum Received<J> {
    /// The oldest message that was waiting.
    Message(Message<J>),
    /// The queue is empty, and more may still come.
    Nothing,
    /// The queue is empty, and the side that fills it is gone.
    Closed,
    /// The lock around the queue is poisoned: a thread panicked while it held the
    /// lock. The failure of taking the lock is described by this text.
    Poisoned(String),
}

/// What a worker does next.
pub enum Action<J> {
    /// Run this unit of work to its end, report that, and turn to the queue again.
    Run(J),
    /// Block until the queue holds a message, and turn to it again.
    Wait,
    /// Leave the loop; the worker's thread returns this value.
    Exit(Result<(), ThreadPoolError>),
}

/// An [`Action`] with the error, if it holds one, by its view.
pub enum ActionView<J> {
    Run(J),
    Wait,
    Exit(Result<(), ErrorView>),
}

impl<J> View for Action<J> {
    type V = ActionView<J>;

    open spec fn view(&self) -> ActionView<J> {
        match self {
            Action::Run(job) => ActionView::Run(*job),
            Action::Wait => ActionView::Wait,
            Action::Exit(Ok(())) => ActionView::Exit(Ok(())),
            Action::Exit(Err(error)) => ActionView::Exit(Err(error@)),
        }
    }
}

/// A worker of a pool.
#[derive(Clone, Copy, Debug)]
pub struct Worker {
    /// The worker's place in its pool, counted from zero. It never changes.
    pub id: usize,
    /// Whether the worker still takes messages.
    pub state: WorkerState,
    /// Whether the worker left its loop without having been told to.
    pub failed: bool,
    /// Whether the worker has a unit of work in hand: it was given one, and has not
    /// reported that it ran it to its end.
    pub busy: bool,
}

impl Worker {
    /// A worker is well formed if it has failed only once it has terminated, and if,
    /// where it was told to stop and did so, it has no work in hand.
    pub open spec fn wf(self) -> bool {
        &&& self.failed ==> self.state is Terminated
        &&& self.returned_ok() ==> !self.busy
    }

    /// Whether the worker may turn to the queue: it is running and has no work in
    /// hand.
    pub open spec fn idle(self) -> bool {
        self.state is Running && !self.busy
    }

    /// The worker once it has run the unit of work that it had in hand to its end.
    /// Of a worker that is not running nothing changes.
    pub open spec fn done(self) -> Worker {
        if self.state is Running {
            Worker { busy: false, ..self }
        } else {
            self
        }
    }

    /// The worker was told to stop and did so: its thread returns `Ok(())`.
    pub open spec fn returned_ok(self) -> bool {
        self.state is Terminated && !self.failed
    }

    /// The worker with identity `id` as it is when its pool is built.
    pub open spec fn started(id: usize) -> Worker {
        Worker { id, state: WorkerState::Running, failed: false, busy: false }
    }

    /// The worker once it has left its loop without having been told to: through an
    /// error, or through a panic of the work it ran.
    pub open spec fn left(self) -> Worker {
        Worker { state: WorkerState::Terminated, failed: true, ..self }
    }

    /// The transition of a running worker with no work in hand: its next state and
    /// what it does, for each thing it may find at the queue.
    ///
    /// A unit of work is in the worker's hand from now on and is run; the signal to stop ends the
    /// worker with success; an empty queue makes it wait while more may come, and ends
    /// it with [`ThreadPoolError::Receiver`] once nothing can come any more; a
    /// poisoned lock ends it with [`ThreadPoolError::Poison`].
    pub open spec fn step<J>(self, received: Received<J>) -> (Worker, ActionView<J>) {
        match received {
            Received::Message(Message::NewJob(job)) => (
                Worker { busy: true, ..self },
                ActionView::Run(job),
            ),
            Received::Message(Message::Terminate) => (
                Worker { state: WorkerState::Terminated, ..self },
                ActionView::Exit(Ok(())),
            ),
            Received::Nothing => (self, ActionView::Wait),
            Received::Closed => (
                self.left(),
                ActionView::Exit(Err(ErrorView::Receiver("receiving on a closed channel"@))),
            ),
            Received::Poisoned(description) => (
                self.left(),
                ActionView::Exit(Err(ErrorView::Poison(description@))),
            ),
        }
    }

    /// A running worker with identity `id`.
    pub fn new(id: usize) -> (worker: Worker)
        ensures
            worker == Worker::started(id),
    {
        Worker { id, state: WorkerState::Running, failed: false, busy: false }
    }

    /// Takes the worker through one transition: updates its state and returns what it
    /// has to do with `received`.
    pub fn handle<J>(&mut self, received: Received<J>) -> (action: Action<J>)
        requires
            old(self).idle(),
        ensures
            (*final(self), action@) == old(self).step(received),
    {
        match received {
            Received::Message(Message::NewJob(job)) => {
                self.busy = true;
                Action::Run(job)
            },
            Received::Message(Message::Terminate) => {
                self.state = WorkerState::Terminated;
                Action::Exit(Ok(()))
            },
            Received::Nothing => Action::Wait,
            Received::Closed => {
                self.state = WorkerState::Terminated;
                self.failed = true;
                Action::Exit(
                    Err(ThreadPoolError::Receiver(String::from_str("receiving on a closed channel"))),
                )
            },
            Received::Poisoned(description) => {
                self.state = WorkerState::Terminated;
                self.failed = true;
                Action::Exit(Err(ThreadPoolError::Poison(description)))
            },
        }
    }

    /// Records that the worker has run the unit of work that it had in hand to its
    /// end.
    pub fn job_done(&mut self)
        ensures
            *final(self) == old(self).done(),
    {
        match self.state {
            WorkerState::Running => {
                self.busy = false;
            },
            WorkerState::Terminated => {},
        }
    }
}

} // verus!
