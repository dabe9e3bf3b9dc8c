//! The error taxonomy shared by the whole crate.

use vstd::prelude::*;

verus! {

/// Every way an operation of this crate can fail.
///
/// Configuration and protocol-misuse errors (`ConfigError`,
/// `UnsupportedVerbError`, `UseAfterSendError`, `NotReadyError`,
/// `AlreadyConsumedError`, `ModeMismatchError`) are returned synchronously at
/// the call site, before any background work is scheduled. `TransportError`
/// is how a failed network call surfaces from a response cell, `DecodeError`
/// how a malformed body surfaces from a decoding operation, and `IoError` how
/// a failed file redirect surfaces.
#[derive(Clone, Copy, Debug, PartialEq, Eq, Structural)]
pub enum HttpError {
    /// The requested worker count is not a positive number.
    ConfigError,
    /// The verb name matches none of the supported HTTP verbs.
    UnsupportedVerbError,
    /// The request builder was already consumed by a send.
    UseAfterSendError,
    /// The background network call failed.
    TransportError,
    /// The collected bytes are not valid for the requested decoding.
    DecodeError,
    /// The response cell has not been written yet.
    NotReadyError,
    /// The response cell was already consumed.
    AlreadyConsumedError,
    /// The operation is not valid for the stream's mode.
    ModeMismatchError,
    /// The file redirect failed.
    IoError,
}

} // verus!
