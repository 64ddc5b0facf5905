//! What travels through the queue that the workers share.

use vstd::prelude::*;

verus! {

/// One entry of the shared queue: a unit of work, or the signal to stop.
///
/// `J` is the unit of work. The pool never looks inside one: it passes each on to
/// exactly one worker.
pub enum Message<J> {
    /// A unit of work for whichever worker takes it.
    NewJob(J),
    /// Tells the worker that takes it to stop.
    Terminate,
}

} // verus!
