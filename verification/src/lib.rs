//! A collection of tools and helper functions.
//!
//! ## `threadpool`
//!
//! The rules of a thread pool that runs code asynchronously on a fixed number of
//! threads, stated and verified apart from the threads themselves. See
//! [`threadpool`].

pub mod threadpool;
