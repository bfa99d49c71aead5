//! Per-request error kinds of the pod.
//!
//! Startup failures (a module that does not compile or instantiate, an
//! address that cannot be bound) abort the process outside this crate and
//! have no variant here.

use vstd::prelude::*;

verus! {

/// What went wrong while handling one request. Failures of the engine and
/// the sockets (a trap, a dropped connection, a memory fault) are reported
/// by the glue that drives them, not from here.
#[derive(Clone, Copy, Debug, PartialEq, Eq, Structural)]
pub enum PodError {
    /// Malformed `Request` or `Response` bytes.
    Decode,
    /// A URI whose scheme is not recognized.
    InvalidScheme,
    /// A URI whose scheme is reserved but carried by no transport.
    Unimplemented,
}

} // verus!
