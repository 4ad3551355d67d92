//! Errors reported while aggregating cluster state.
use vstd::prelude::*;

verus! {

/// Exhaustive list of possible errors emitted while aggregating cluster state.
#[derive(Debug)]
pub enum ErrorKind {
    /// The lock on the cluster was lost while aggregating it.
    ClusterLockLost(String),
    /// Error emitting the named event.
    EventEmit(&'static str),
    /// The cluster state is not valid.
    InvalidClusterState,
    /// Error persisting the named record.
    StoreWrite(&'static str),
}

/// Error information returned by functions in case of errors.
#[derive(Debug)]
pub struct Error {
    kind: ErrorKind,
}

impl Error {
    /// The kind of this error.
    pub closed spec fn spec_kind(&self) -> ErrorKind {
        self.kind
    }

    /// An error of the given kind.
    pub fn from_kind(kind: ErrorKind) -> (r: Error)
        ensures
            r.spec_kind() == kind,
    {
        Error { kind }
    }

    /// Return more information about this error.
    pub fn kind(&self) -> (r: &ErrorKind)
        ensures
            *r == self.spec_kind(),
    {
        &self.kind
    }
}

/// Short form alias for functions returning `Error`s.
pub type Result<T> = std::result::Result<T, Error>;

} // verus!
