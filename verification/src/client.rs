//! Validation of a client's configuration.
//!
//! A client owns a fixed-size worker pool and a connection agent; both are
//! outside capabilities, so building them is the caller's business. What the
//! core decides is whether a requested pool size is acceptable: a pool must
//! have at least one worker.

use vstd::prelude::*;
use crate::errors::HttpError;

verus! {

/// Admits a requested worker-pool size. Any non-positive count is rejected
/// with `ConfigError` before any pool is built.
pub fn check_worker_count(num_threads: i32) -> (r: Result<usize, HttpError>)
    ensures
        num_threads > 0 ==> r == Ok::<usize, HttpError>(num_threads as usize),
        num_threads <= 0 ==> r == Err::<usize, HttpError>(HttpError::ConfigError),
{
    if num_threads > 0 {
        Ok(num_threads as usize)
    } else {
        Err(HttpError::ConfigError)
    }
}

} // verus!
