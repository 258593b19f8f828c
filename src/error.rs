use vstd::prelude::*;

verus! {

/// Why an operation of the pool failed.
#[derive(Clone, Copy, Debug, PartialEq, Eq, Structural)]
pub enum Error {
    /// A phase deadline elapsed, or no slot was free for a non-blocking request.
    Timeout,
    /// The pool was closed.
    Closed,
    /// An idle session failed validation or reset, or was already closed.
    RecyclingError,
    /// The retry budget ran out while opening a session.
    ConnectError,
    /// The database client reported a failure.
    Protocol,
    /// A query could not be built.
    SqlFormat,
}

} // verus!
