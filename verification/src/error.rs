use vstd::prelude::*;

verus! {

/// The unified failure type of the library: every failure a caller can see is
/// one of these kinds, constructed at the point of first failure and
/// propagated unchanged.
#[derive(Debug, PartialEq, Eq)]
pub enum Error {
    /// A transport connection could not be established or broke mid-flight.
    /// Carries the rendered underlying cause.
    Transport(String),
    /// The database protocol was violated: handshake, query execution, or the
    /// shape of a result. Carries the rendered underlying cause.
    Protocol(String),
    /// The pool stayed exhausted beyond the caller's patience. Carries no
    /// payload.
    Timeout,
    /// The pool has been shut down and refuses new acquisitions.
    Closed,
}

impl Error {
    /// The human-readable message handed across the host boundary: the
    /// carried cause for transport and protocol failures, a fixed text for
    /// the other kinds.
    pub fn message(&self) -> (m: &str)
        ensures
            match self {
                Error::Transport(s) => m@ == s@,
                Error::Protocol(s) => m@ == s@,
                Error::Timeout => m@ == "Timeout"@,
                Error::Closed => m@ == "pool is closed"@,
            },
    {
        match self {
            Error::Transport(s) => s.as_str(),
            Error::Protocol(s) => s.as_str(),
            Error::Timeout => "Timeout",
            Error::Closed => "pool is closed",
        }
    }
}

} // verus!
