//! What follows for every pool from the way it is built and used.

use vstd::prelude::*;
use crate::threadpool::message::Message;
use crate::threadpool::model::{
    count_at_most_all,
    count_of_uniform,
    finished,
    finished_below_all,
    running_above_none,
    PoolView,
};
use crate::threadpool::worker::{ActionView, Worker, WorkerState};

verus! {

/// One thing that can happen to a pool.
pub enum Event<J> {
    /// A unit of work is submitted.
    Execute(J),
    /// Shutdown is asked for.
    Shutdown,
    /// The side that submits work goes.
    Disconnect,
    /// The worker with this identity turns to the queue.
    Receive(usize),
    /// The worker with this identity has run the unit of work that it had in hand to
    /// its end.
    JobDone(usize),
    /// The worker with this identity leaves its loop without having been told to:
    /// it finds the lock around the queue poisoned, or its thread ends through a
    /// panic of the work it runs.
    WorkerLeft(usize),
}

impl<J> PoolView<J> {
    /// The pool after `event`. A turn to the queue counts only for a worker of the
    /// pool that is running and has no work in hand.
    pub open spec fn after(self, event: Event<J>) -> PoolView<J> {
        match event {
            Event::Execute(job) => self.execute(job),
            Event::Shutdown => self.shutdown(),
            Event::Disconnect => self.disconnect(),
            Event::Receive(id) => if id < self.workers.len() && self.workers[id as int].idle() {
                self.receive(id as int)
            } else {
                self
            },
            Event::JobDone(id) => if id < self.workers.len() {
                self.job_done(id as int)
            } else {
                self
            },
            Event::WorkerLeft(id) => if id < self.workers.len() {
                self.worker_left(id as int)
            } else {
                self
            },
        }
    }

    /// The pool after `events`, in their order.
    pub open spec fn after_all(self, events: Seq<Event<J>>) -> PoolView<J>
        decreases events.len(),
    {
        if events.len() == 0 {
            self
        } else {
            self.after_all(events.drop_last()).after(events.last())
        }
    }
}

/// A pool that has just been built has exactly as many workers as were asked for, all
/// of them running, each with its place as its identity; its queue is empty, and it
/// takes work.
pub proof fn a_new_pool_has_all_its_workers_running<J>(size: usize)
    requires
        size >= 1,
    ensures
        PoolView::<J>::start(size).workers.len() == size,
        forall|i: int|
            0 <= i < size ==> (#[trigger] PoolView::<J>::start(size).workers[i]).state is Running
                && PoolView::<J>::start(size).workers[i].id == i,
        PoolView::<J>::start(size).receivers() == size,
        PoolView::<J>::start(size).queue.len() == 0,
        PoolView::<J>::start(size).accepting(),
{
    PoolView::<J>::start_inv(size);
}

/// A pool of at least one worker is consistent after any events in any order:
/// whichever workers turn to the queue, and whenever they do.
pub proof fn consistent_after_any_events<J>(size: usize, events: Seq<Event<J>>)
    requires
        size >= 1,
    ensures
        PoolView::<J>::start(size).after_all(events).inv(),
    decreases events.len(),
{
    let start = PoolView::<J>::start(size);
    if events.len() == 0 {
        PoolView::<J>::start_inv(size);
    } else {
        consistent_after_any_events(size, events.drop_last());
        let before = start.after_all(events.drop_last());
        match events.last() {
            Event::Execute(job) => before.execute_inv(job),
            Event::Shutdown => before.shutdown_inv(),
            Event::Disconnect => before.disconnect_inv(),
            Event::Receive(id) => {
                if id < before.workers.len() && before.workers[id as int].idle() {
                    before.receive_inv(id as int);
                }
            },
            Event::JobDone(id) => {
                if id < before.workers.len() {
                    before.job_done_inv(id as int);
                }
            },
            Event::WorkerLeft(id) => {
                if id < before.workers.len() {
                    before.worker_left_inv(id as int);
                }
            },
        }
    }
}

/// A pool has as many workers as it was built with, whatever happens to it, and each
/// keeps its identity.
pub proof fn size_is_fixed<J>(size: usize, events: Seq<Event<J>>)
    requires
        size >= 1,
    ensures
        PoolView::<J>::start(size).after_all(events).workers.len() == size,
        forall|i: int|
            0 <= i < size ==> (#[trigger] PoolView::<J>::start(size).after_all(
                events,
            ).workers[i]).id == i,
    decreases events.len(),
{
    consistent_after_any_events(size, events);
    if events.len() > 0 {
        size_is_fixed(size, events.drop_last());
    }
}

/// Once every worker has been told to stop and has done so, shutdown was asked for,
/// the queue is empty, and every unit of work that was accepted has been taken
/// exactly once and run to its end: the one accepted in place `k` was the one taken
/// in place `k`, by one worker of the pool, and no worker has work in hand.
pub proof fn every_job_is_taken_once<J>(pool: PoolView<J>)
    requires
        pool.inv(),
        pool.shut_down(),
    ensures
        pool.closing,
        pool.queue.len() == 0,
        pool.started.len() == pool.submitted.len(),
        forall|k: int|
            0 <= k < pool.submitted.len() ==> (#[trigger] pool.started[k]).job
                == pool.submitted[k] && pool.started[k].worker < pool.workers.len(),
        forall|i: int| 0 <= i < pool.workers.len() ==> !(#[trigger] pool.workers[i]).busy,
{
    count_of_uniform(pool.workers, |worker: Worker| worker.returned_ok());
}

/// The same of a pool of `size` workers after any events in any order: if all its
/// workers have been told to stop and have done so, every unit of work that it
/// accepted has been taken exactly once and run to its end, and nothing waits.
pub proof fn every_job_is_taken_once_after_any_events<J>(size: usize, events: Seq<Event<J>>)
    requires
        size >= 1,
        PoolView::<J>::start(size).after_all(events).shut_down(),
    ensures
        ({
            let pool = PoolView::<J>::start(size).after_all(events);
            &&& pool.queue.len() == 0
            &&& pool.started.len() == pool.submitted.len()
            &&& forall|k: int|
                0 <= k < pool.submitted.len() ==> (#[trigger] pool.started[k]).job
                    == pool.submitted[k] && pool.started[k].worker < size
            &&& forall|i: int| 0 <= i < size ==> !(#[trigger] pool.workers[i]).busy
        }),
{
    consistent_after_any_events(size, events);
    size_is_fixed(size, events);
    every_job_is_taken_once(PoolView::<J>::start(size).after_all(events));
}

/// The pool of `size` workers after the first `n` of `events`.
pub open spec fn pool_at<J>(size: usize, events: Seq<Event<J>>, n: int) -> PoolView<J> {
    PoolView::<J>::start(size).after_all(events.take(n))
}

/// Whether event `n` of `events` is a turn of worker `id` to the queue that counts:
/// the worker is running and has no work in hand.
pub open spec fn turns_to_queue<J>(size: usize, events: Seq<Event<J>>, id: usize, n: int) -> bool {
    &&& 0 <= n < events.len()
    &&& events[n] == Event::<J>::Receive(id)
    &&& id < size
    &&& pool_at(size, events, n).workers[id as int].idle()
}

/// Whether event `n` of `events` is a turn to the queue at which worker `id` is given
/// a unit of work.
pub open spec fn is_given_work<J>(size: usize, events: Seq<Event<J>>, id: usize, n: int) -> bool {
    &&& turns_to_queue(size, events, id, n)
    &&& pool_at(size, events, n).action(id as int) is Run
}

/// Each event takes the pool from where the events before it have taken it.
pub proof fn pool_at_next<J>(size: usize, events: Seq<Event<J>>, n: int)
    requires
        0 <= n < events.len(),
    ensures
        pool_at(size, events, n + 1) == pool_at(size, events, n).after(events[n]),
{
    assert(events.take(n + 1).drop_last() =~= events.take(n));
}

/// Work stays in a worker's hand until the worker has run it to its end: between a
/// moment at which a worker has work in hand and a later one at which it has none,
/// the worker has reported the end of that work.
pub proof fn work_stays_in_hand_until_done<J>(
    size: usize,
    events: Seq<Event<J>>,
    id: usize,
    from: int,
    to: int,
) -> (done: int)
    requires
        size >= 1,
        id < size,
        0 <= from <= to <= events.len(),
        pool_at(size, events, from).workers[id as int].busy,
        !pool_at(size, events, to).workers[id as int].busy,
    ensures
        from <= done < to,
        events[done] == Event::<J>::JobDone(id),
    decreases to - from,
{
    let earlier = pool_at(size, events, to - 1);
    pool_at_next(size, events, to - 1);
    size_is_fixed(size, events.take(to - 1));
    if !earlier.workers[id as int].busy {
        work_stays_in_hand_until_done(size, events, id, from, to - 1)
    } else {
        assert(earlier.after(events[to - 1]).workers[id as int] != earlier.workers[id as int]);
        to - 1
    }
}

/// A worker runs one unit of work at a time: between a turn to the queue at which it
/// is given work and its next turn to the queue, it has run that work to its end.
/// So the units of work of one worker are run one after another, never two at once.
pub proof fn a_worker_runs_one_job_at_a_time<J>(
    size: usize,
    events: Seq<Event<J>>,
    id: usize,
    first: int,
    second: int,
) -> (done: int)
    requires
        size >= 1,
        first < second,
        is_given_work(size, events, id, first),
        turns_to_queue(size, events, id, second),
    ensures
        first < done < second,
        events[done] == Event::<J>::JobDone(id),
{
    pool_at_next(size, events, first);
    size_is_fixed(size, events.take(first));
    work_stays_in_hand_until_done(size, events, id, first + 1, second)
}

/// A worker is given at most one unit of work at a turn to the queue, and none
/// while it has one in hand.
pub proof fn work_is_given_to_idle_workers_only<J>(pool: PoolView<J>, event: Event<J>)
    requires
        pool.inv(),
    ensures
        pool.after(event).started.len() <= pool.started.len() + 1,
        pool.after(event).started.len() == pool.started.len() + 1 ==> (event matches Event::Receive(
            id,
        ) && id < pool.workers.len() && pool.workers[id as int].idle() && pool.after(
            event,
        ).workers[id as int].busy && pool.after(event).started.last().worker == id),
{
}

/// The units of work that `events` submit, in their order.
pub open spec fn submissions<J>(events: Seq<Event<J>>) -> Seq<J>
    decreases events.len(),
{
    if events.len() == 0 {
        Seq::empty()
    } else {
        match events.last() {
            Event::Execute(job) => submissions(events.drop_last()).push(job),
            _ => submissions(events.drop_last()),
        }
    }
}

/// A pool that takes no new work never takes any again, and the record of what it
/// accepted stays as it is.
pub proof fn refusal_is_for_good<J>(pool: PoolView<J>, events: Seq<Event<J>>)
    requires
        !pool.accepting(),
    ensures
        !pool.after_all(events).accepting(),
        pool.after_all(events).submitted == pool.submitted,
    decreases events.len(),
{
    if events.len() > 0 {
        refusal_is_for_good(pool, events.drop_last());
        let before = pool.after_all(events.drop_last());
        match events.last() {
            Event::Receive(id) => {
                if id < before.workers.len() && before.workers[id as int].idle() {
                    running_above_none(before.workers, id as int);
                    before.receive_keeps_or_loses_receivers(id as int);
                }
            },
            Event::JobDone(id) => {
                if id < before.workers.len() {
                    before.job_done_keeps_receivers(id as int);
                }
            },
            Event::WorkerLeft(id) => {
                if id < before.workers.len() && before.workers[id as int].state is Running {
                    running_above_none(before.workers, id as int);
                }
            },
            _ => {},
        }
    }
}

/// While a pool takes new work it has accepted every unit of work that was
/// submitted to it, in the order of submission.
pub proof fn an_accepting_pool_has_refused_nothing<J>(size: usize, events: Seq<Event<J>>)
    requires
        PoolView::<J>::start(size).after_all(events).accepting(),
    ensures
        PoolView::<J>::start(size).after_all(events).submitted == submissions(events),
    decreases events.len(),
{
    if events.len() > 0 {
        let before = PoolView::<J>::start(size).after_all(events.drop_last());
        if !before.accepting() {
            refusal_is_for_good(before, seq![events.last()]);
            assert(seq![events.last()].drop_last() =~= Seq::<Event<J>>::empty());
            assert(before.after_all(Seq::<Event<J>>::empty()) == before);
        }
        an_accepting_pool_has_refused_nothing(size, events.drop_last());
    }
}

/// Events that follow one another take a pool where they take it one by one.
pub proof fn events_compose<J>(pool: PoolView<J>, first: Seq<Event<J>>, second: Seq<Event<J>>)
    ensures
        pool.after_all(first + second) == pool.after_all(first).after_all(second),
    decreases second.len(),
{
    if second.len() == 0 {
        assert(first + second =~= first);
    } else {
        events_compose(pool, first, second.drop_last());
        assert((first + second).drop_last() =~= first + second.drop_last());
    }
}

/// Every unit of work that is submitted to a pool before shutdown is asked for is
/// taken exactly once, by one worker of the pool, and run to its end, by the time
/// every worker has been told to stop and has done so: whatever else happened
/// before and after, and in whatever order the workers turned to the queue.
pub proof fn every_submitted_job_is_taken_once<J>(
    size: usize,
    before: Seq<Event<J>>,
    after: Seq<Event<J>>,
)
    requires
        size >= 1,
        PoolView::<J>::start(size).after_all(before).accepting(),
        PoolView::<J>::start(size).after_all(before + seq![Event::Shutdown] + after).shut_down(),
    ensures
        ({
            let pool = PoolView::<J>::start(size).after_all(
                before + seq![Event::Shutdown] + after,
            );
            &&& pool.queue.len() == 0
            &&& pool.started.len() == submissions(before).len()
            &&& forall|k: int|
                0 <= k < pool.started.len() ==> (#[trigger] pool.started[k]).job == submissions(
                    before,
                )[k] && pool.started[k].worker < size
        }),
        forall|i: int|
            0 <= i < size ==> !(#[trigger] PoolView::<J>::start(size).after_all(
                before + seq![Event::Shutdown] + after,
            ).workers[i]).busy,
{
    let start = PoolView::<J>::start(size);
    let open = start.after_all(before);
    let asked = seq![Event::<J>::Shutdown];
    an_accepting_pool_has_refused_nothing(size, before);
    events_compose(start, before, asked);
    assert(asked.drop_last() =~= Seq::<Event<J>>::empty());
    assert(open.after_all(Seq::<Event<J>>::empty()) == open);
    assert(open.after_all(asked) == open.shutdown());
    events_compose(start, before + asked, after);
    refusal_is_for_good(open.shutdown(), after);
    every_job_is_taken_once_after_any_events(size, before + asked + after);
}

/// Work is taken in the order of its submission: the unit of work that a worker is
/// given to run is the oldest that no worker has taken yet.
pub proof fn work_is_taken_in_order<J>(pool: PoolView<J>, id: int, job: J)
    requires
        pool.inv(),
        0 <= id < pool.workers.len(),
        pool.workers[id].idle(),
        pool.action(id) == ActionView::Run(job),
    ensures
        pool.started.len() < pool.submitted.len(),
        job == pool.submitted[pool.started.len() as int],
{
    let at = pool.taken() as int;
    assert(pool.queue[0] == pool.sent()[at]);
    assert(at < pool.submitted.len());
}

/// No worker stops while work is left: when a worker is told to stop, every unit of
/// work that was accepted has been taken, and no more will be accepted.
pub proof fn no_worker_stops_before_the_work_is_taken<J>(pool: PoolView<J>, id: int)
    requires
        pool.inv(),
        0 <= id < pool.workers.len(),
        pool.workers[id].idle(),
        pool.action(id) == ActionView::<J>::Exit(Ok(())),
    ensures
        pool.closing,
        pool.started.len() == pool.submitted.len(),
{
    let at = pool.taken() as int;
    assert(pool.queue[0] == pool.sent()[at]);
    assert(at >= pool.submitted.len());
}

/// No worker is starved: in a closing pool a running worker never finds the queue
/// empty, since its own signal to stop is still to come.
pub proof fn closing_pool_never_starves<J>(pool: PoolView<J>, id: int)
    requires
        pool.inv(),
        pool.closing,
        0 <= id < pool.workers.len(),
        pool.workers[id].state is Running,
    ensures
        pool.queue.len() > 0,
        pool.action(id) is Run || pool.action(id) == ActionView::<J>::Exit(Ok(())),
{
    finished_below_all(pool.workers, id);
}

/// In a closing pool exactly one signal to stop waits for each worker that has not
/// finished, behind all the work that waits.
pub proof fn one_signal_per_worker<J>(pool: PoolView<J>)
    requires
        pool.inv(),
        pool.closing,
    ensures
        pool.queue.len() == (pool.submitted.len() - pool.started.len()) + (pool.workers.len()
            - finished(pool.workers)),
        forall|i: int|
            0 <= i < pool.queue.len() ==> ((#[trigger] pool.queue[i]) is Terminate <==> i
                >= pool.submitted.len() - pool.started.len()),
{
    count_at_most_all(pool.workers, |worker: Worker| worker.returned_ok());
    let at = pool.taken() as int;
    assert forall|i: int| 0 <= i < pool.queue.len() implies ((#[trigger] pool.queue[i])
        is Terminate <==> i >= pool.submitted.len() - pool.started.len()) by {
        assert(pool.queue[i] == pool.sent()[at + i]);
    }
}

/// Work is refused for want of workers exactly when every worker has left its loop:
/// the receiving end of the queue is held by none if and only if no worker is
/// running. A pool in that state refuses what is submitted and changes nothing; a
/// pool whose submitting side is there, in which shutdown was not asked for and one
/// worker is left, accepts it.
pub proof fn work_is_refused_when_no_worker_is_left<J>(pool: PoolView<J>, job: J)
    ensures
        pool.receivers() == 0 <==> (forall|i: int|
            0 <= i < pool.workers.len() ==> !((#[trigger] pool.workers[i]).state is Running)),
        pool.receivers() == 0 ==> pool.execute(job) == pool,
        pool.submitting() && pool.receivers() > 0 ==> pool.execute(job).submitted
            == pool.submitted.push(job),
{
    count_of_uniform(pool.workers, |worker: Worker| worker.state is Running);
    if pool.receivers() == 0 {
        assert forall|i: int| 0 <= i < pool.workers.len() implies !((
        #[trigger] pool.workers[i]).state is Running) by {
            if pool.workers[i].state is Running {
                running_above_none(pool.workers, i);
            }
        }
    }
}

/// Asking for shutdown twice is asking for it once.
pub proof fn shutdown_is_idempotent<J>(pool: PoolView<J>)
    ensures
        pool.shutdown().shutdown() == pool.shutdown(),
{
}

/// After shutdown was asked for, submitted work is refused and changes nothing.
pub proof fn no_work_is_accepted_after_shutdown<J>(pool: PoolView<J>, job: J)
    ensures
        pool.shutdown().execute(job) == pool.shutdown(),
{
}

/// The events of an idle shutdown: shutdown is asked for, and the first `turns`
/// workers turn to the queue, each once.
pub open spec fn idle_shutdown<J>(turns: nat) -> Seq<Event<J>> {
    seq![Event::Shutdown] + Seq::new(turns, |i: int| Event::Receive(i as usize))
}

/// The pool of `size` workers in which shutdown was asked for before any work, and
/// the first `turns` workers have turned to the queue.
pub open spec fn idle_after<J>(size: usize, turns: nat) -> PoolView<J> {
    PoolView {
        workers: Seq::new(
            size as nat,
            |i: int|
                if i < turns {
                    Worker {
                        id: i as usize,
                        state: WorkerState::Terminated,
                        failed: false,
                        busy: false,
                    }
                } else {
                    Worker::started(i as usize)
                },
        ),
        queue: Seq::new((size - turns) as nat, |i: int| Message::Terminate),
        closing: true,
        connected: true,
        submitted: Seq::empty(),
        started: Seq::empty(),
    }
}

/// A pool that is given no work and shut down stops cleanly: each worker's first
/// turn to the queue finds its signal to stop, no worker fails, nothing is run, and
/// nothing is left in the queue.
pub proof fn idle_pool_shuts_down_cleanly<J>(size: usize, turns: nat)
    requires
        size >= 1,
        turns <= size,
    ensures
        PoolView::<J>::start(size).after_all(idle_shutdown(turns)) == idle_after::<J>(size, turns),
        turns == size ==> idle_after::<J>(size, turns).shut_down() && idle_after::<J>(
            size,
            turns,
        ).queue.len() == 0,
    decreases turns,
{
    let start = PoolView::<J>::start(size);
    let events = idle_shutdown::<J>(turns);
    PoolView::<J>::start_inv(size);
    if turns == 0 {
        assert(events.drop_last() =~= Seq::empty());
        assert(start.after_all(events.drop_last()) == start);
        assert(start.shutdown().workers =~= idle_after::<J>(size, 0).workers);
        assert(start.shutdown().queue =~= idle_after::<J>(size, 0).queue);
    } else {
        let earlier = (turns - 1) as nat;
        idle_pool_shuts_down_cleanly::<J>(size, earlier);
        assert(events.drop_last() =~= idle_shutdown::<J>(earlier));
        assert(events.last() == Event::<J>::Receive(earlier as usize));
        let before = idle_after::<J>(size, earlier);
        let next = before.receive(earlier as int);
        assert(next.workers =~= idle_after::<J>(size, turns).workers);
        assert(next.queue =~= idle_after::<J>(size, turns).queue);
    }
}

} // verus!
