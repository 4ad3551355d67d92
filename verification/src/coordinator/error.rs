//! Errors reported by the coordination services.
use vstd::prelude::*;

use super::node_id::NodeId;
use super::node_id::NodeIdView;

verus! {

/// Exhaustive list of possible errors emitted by the coordination services.
#[derive(Debug, PartialEq, Eq)]
pub enum ErrorKind {
    /// Connection to coordinator failed.
    BackendConnect,
    /// The named operation failed due to a coordinator error.
    Backend(&'static str),
    /// Failed to decode the named payload.
    Decode(&'static str),
    /// Failed to encode the named payload.
    Encode(&'static str),
    /// The election is no longer available.
    ElectionLost(String),
    /// The election was not found.
    ElectionNotFound(String),
    /// The election is already running.
    ElectionRunning(String),
    /// The lock is already held by the given process.
    LockHeld(String, NodeId),
    /// The lock was lost.
    LockLost(String),
    /// The lock was not found.
    LockNotFound(String),
    /// The lock is held by the given process.
    LockNotHeld(String, NodeId),
    /// Unable to spawn a new thread for the named task.
    SpawnThread(&'static str),
}

/// Abstract value of an `ErrorKind`, with texts as character sequences.
pub enum ErrorKindView {
    BackendConnect,
    Backend(Seq<char>),
    Decode(Seq<char>),
    Encode(Seq<char>),
    ElectionLost(Seq<char>),
    ElectionNotFound(Seq<char>),
    ElectionRunning(Seq<char>),
    LockHeld(Seq<char>, NodeIdView),
    LockLost(Seq<char>),
    LockNotFound(Seq<char>),
    LockNotHeld(Seq<char>, NodeIdView),
    SpawnThread(Seq<char>),
}

impl View for ErrorKind {
    type V = ErrorKindView;

    open spec fn view(&self) -> ErrorKindView {
        match self {
            ErrorKind::BackendConnect => ErrorKindView::BackendConnect,
            ErrorKind::Backend(s) => ErrorKindView::Backend(s@),
            ErrorKind::Decode(s) => ErrorKindView::Decode(s@),
            ErrorKind::Encode(s) => ErrorKindView::Encode(s@),
            ErrorKind::ElectionLost(s) => ErrorKindView::ElectionLost(s@),
            ErrorKind::ElectionNotFound(s) => ErrorKindView::ElectionNotFound(s@),
            ErrorKind::ElectionRunning(s) => ErrorKindView::ElectionRunning(s@),
            ErrorKind::LockHeld(s, n) => ErrorKindView::LockHeld(s@, n@),
            ErrorKind::LockLost(s) => ErrorKindView::LockLost(s@),
            ErrorKind::LockNotFound(s) => ErrorKindView::LockNotFound(s@),
            ErrorKind::LockNotHeld(s, n) => ErrorKindView::LockNotHeld(s@, n@),
            ErrorKind::SpawnThread(s) => ErrorKindView::SpawnThread(s@),
        }
    }
}

impl ErrorKind {
    /// A copy of this error kind.
    pub fn duplicate(&self) -> (r: ErrorKind)
        ensures
            r@ == self@,
    {
        match self {
            ErrorKind::BackendConnect => ErrorKind::BackendConnect,
            ErrorKind::Backend(s) => ErrorKind::Backend(s),
            ErrorKind::Decode(s) => ErrorKind::Decode(s),
            ErrorKind::Encode(s) => ErrorKind::Encode(s),
            ErrorKind::ElectionLost(s) => ErrorKind::ElectionLost(s.clone()),
            ErrorKind::ElectionNotFound(s) => ErrorKind::ElectionNotFound(s.clone()),
            ErrorKind::ElectionRunning(s) => ErrorKind::ElectionRunning(s.clone()),
            ErrorKind::LockHeld(s, n) => ErrorKind::LockHeld(s.clone(), n.duplicate()),
            ErrorKind::LockLost(s) => ErrorKind::LockLost(s.clone()),
            ErrorKind::LockNotFound(s) => ErrorKind::LockNotFound(s.clone()),
            ErrorKind::LockNotHeld(s, n) => ErrorKind::LockNotHeld(s.clone(), n.duplicate()),
            ErrorKind::SpawnThread(s) => ErrorKind::SpawnThread(s),
        }
    }
}

/// The message describing an error kind.
pub open spec fn kind_message(kind: ErrorKindView) -> Seq<char> {
    match kind {
        ErrorKindView::BackendConnect => "connection to coordinator failed"@,
        ErrorKindView::Backend(w) => w + " failed due to coordinator error"@,
        ErrorKindView::Decode(w) => "failed to decode "@ + w,
        ErrorKindView::Encode(w) => "failed to encode "@ + w,
        ErrorKindView::ElectionLost(e) => "election '"@ + e + "' is no longer available"@,
        ErrorKindView::ElectionNotFound(e) => "election '"@ + e + "' not found"@,
        ErrorKindView::ElectionRunning(e) => "election '"@ + e + "' already running"@,
        ErrorKindView::LockHeld(l, n) => "lock '"@ + l + "' is already held by process '"@ + n.id + "'"@,
        ErrorKindView::LockLost(l) => "lock '"@ + l + "' was lost"@,
        ErrorKindView::LockNotFound(l) => "lock '"@ + l + "' not found"@,
        ErrorKindView::LockNotHeld(l, n) => "lock '"@ + l + "' is held by process '"@ + n.id + "'"@,
        ErrorKindView::SpawnThread(w) => "unable to spawn new thread for '"@ + w + "'"@,
    }
}

impl ErrorKind {
    /// The message describing this error kind.
    pub fn describe(&self) -> (r: String)
        ensures
            r@ == kind_message(self@),
    {
        match self {
            ErrorKind::BackendConnect => String::from_str("connection to coordinator failed"),
            ErrorKind::Backend(w) => String::from_str(w).concat(" failed due to coordinator error"),
            ErrorKind::Decode(w) => String::from_str("failed to decode ").concat(w),
            ErrorKind::Encode(w) => String::from_str("failed to encode ").concat(w),
            ErrorKind::ElectionLost(e) => String::from_str("election '").concat(e.as_str()).concat(
                "' is no longer available",
            ),
            ErrorKind::ElectionNotFound(e) => String::from_str("election '").concat(e.as_str()).concat("' not found"),
            ErrorKind::ElectionRunning(e) => String::from_str("election '").concat(e.as_str()).concat(
                "' already running",
            ),
            ErrorKind::LockHeld(l, n) => String::from_str("lock '").concat(l.as_str()).concat(
                "' is already held by process '",
            ).concat(n.id.as_str()).concat("'"),
            ErrorKind::LockLost(l) => String::from_str("lock '").concat(l.as_str()).concat("' was lost"),
            ErrorKind::LockNotFound(l) => String::from_str("lock '").concat(l.as_str()).concat("' not found"),
            ErrorKind::LockNotHeld(l, n) => String::from_str("lock '").concat(l.as_str()).concat(
                "' is held by process '",
            ).concat(n.id.as_str()).concat("'"),
            ErrorKind::SpawnThread(w) => String::from_str("unable to spawn new thread for '").concat(w).concat("'"),
        }
    }
}

/// Error information returned by the coordination API in case of errors.
#[derive(Debug)]
pub struct Error {
    kind: ErrorKind,
}

impl Error {
    /// The kind of error this is.
    pub closed spec fn spec_kind(&self) -> ErrorKind {
        self.kind
    }

    /// An error of the given kind.
    pub fn from_kind(kind: ErrorKind) -> (r: Error)
        ensures
            r.spec_kind() == kind,
    {
        Error { kind }
    }

    /// The message describing this error.
    pub fn describe(&self) -> (r: String)
        ensures
            r@ == kind_message(self.spec_kind()@),
    {
        self.kind.describe()
    }

    /// Return more information about this error.
    pub fn kind(&self) -> (r: ErrorKind)
        ensures
            r@ == self.spec_kind()@,
    {
        self.kind.duplicate()
    }
}

/// Short form alias for functions returning `Error`s.
pub type Result<T> = std::result::Result<T, Error>;

} // verus!
