//! A non-blocking HTTP request bridge for callers that cannot suspend.
//!
//! Requests are described by a one-shot builder, executed on a background
//! worker pool, and observed through polling: a single-assignment response
//! cell reports progress, and a body stream drains the response body into a
//! buffer or a file. This crate holds the verified core: the builder's
//! one-shot discipline, the response cell's state machine, the body stream's
//! chunk accounting, and the decoding of collected bytes. The worker pool,
//! the network transport and the file writing live outside it.

pub mod client;
pub mod codec;
pub mod errors;
pub mod request;
pub mod response;
pub mod stream;
pub mod verb;

use vstd::prelude::*;

verus! {

} // verus!
