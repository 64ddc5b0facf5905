//! Turning the failures of std's locks and channels into errors of the pool.
//!
//! Each failure becomes the variant that names its origin, described as the
//! failure describes itself.

use vstd::prelude::*;
use crate::threadpool::error::ThreadPoolError;

verus! {

/// `std::sync::PoisonError`, the failure of taking a lock that another thread left
/// poisoned. Nothing is known of what a value of it holds.
#[verifier::external_type_specification]
#[verifier::external_body]
#[verifier::reject_recursive_types(T)]
pub struct ExPoisonError<T>(std::sync::PoisonError<T>);

/// `std::sync::mpsc::SendError`, the failure of sending on a channel whose receiver is
/// gone. Nothing is known of what a value of it holds.
#[verifier::external_type_specification]
#[verifier::external_body]
#[verifier::reject_recursive_types(T)]
pub struct ExSendError<T>(std::sync::mpsc::SendError<T>);

/// `std::sync::mpsc::RecvError`, the failure of receiving on a channel that is empty
/// and whose senders are gone. Nothing is known of what a value of it holds.
#[verifier::external_type_specification]
#[verifier::external_body]
pub struct ExRecvError(std::sync::mpsc::RecvError);

impl<T> vstd::std_specs::convert::FromSpecImpl<std::sync::PoisonError<T>> for ThreadPoolError {
    open spec fn obeys_from_spec() -> bool {
        false
    }

    open spec fn from_spec(error: std::sync::PoisonError<T>) -> ThreadPoolError {
        arbitrary()
    }
}

impl<T> From<std::sync::PoisonError<T>> for ThreadPoolError {
    /// A poisoned lock becomes [`ThreadPoolError::Poison`].
    fn from(error: std::sync::PoisonError<T>) -> (result: Self)
        ensures
            result matches ThreadPoolError::Poison(description)
                && vstd::string::to_string_from_display_ensures(&error, description),
    {
        ThreadPoolError::Poison(error.to_string())
    }
}

impl<T> vstd::std_specs::convert::FromSpecImpl<std::sync::mpsc::SendError<T>> for ThreadPoolError {
    open spec fn obeys_from_spec() -> bool {
        false
    }

    open spec fn from_spec(error: std::sync::mpsc::SendError<T>) -> ThreadPoolError {
        arbitrary()
    }
}

impl<T> From<std::sync::mpsc::SendError<T>> for ThreadPoolError {
    /// A failed send becomes [`ThreadPoolError::Sender`].
    fn from(error: std::sync::mpsc::SendError<T>) -> (result: Self)
        ensures
            result matches ThreadPoolError::Sender(description)
                && vstd::string::to_string_from_display_ensures(&error, description),
    {
        ThreadPoolError::Sender(error.to_string())
    }
}

impl vstd::std_specs::convert::FromSpecImpl<std::sync::mpsc::RecvError> for ThreadPoolError {
    open spec fn obeys_from_spec() -> bool {
        false
    }

    open spec fn from_spec(error: std::sync::mpsc::RecvError) -> ThreadPoolError {
        arbitrary()
    }
}

impl From<std::sync::mpsc::RecvError> for ThreadPoolError {
    /// A failed receive becomes [`ThreadPoolError::Receiver`].
    fn from(error: std::sync::mpsc::RecvError) -> (result: Self)
        ensures
            result matches ThreadPoolError::Receiver(description)
                && vstd::string::to_string_from_display_ensures(&error, description),
    {
        ThreadPoolError::Receiver(error.to_string())
    }
}

} // verus!
