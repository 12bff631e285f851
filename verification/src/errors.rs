//! Failure taxonomy of the streaming subsystem.

use vstd::prelude::*;

verus! {

/// Everything that can go wrong while driving a stream.
#[derive(Debug, Clone)]
pub enum StreamError {
    /// Transport-level failure to establish or maintain a backend call.
    Connection(String),
    /// Non-success status from the backend: status code and response body.
    HttpStatus(u16, String),
    /// A response body that could not be decoded.
    Parse(String),
    /// The stream was stopped at the caller's request.
    CancellationRequested,
    /// Cancellation registry failure: no active stream, or the lock failed.
    Registry(String),
    /// Read or write failure on the conversation store.
    Store(String),
}

} // verus!
