//! Errors reported while discovering clusters.
use vstd::prelude::*;

verus! {

/// Exhaustive list of possible errors emitted while discovering clusters.
#[derive(Debug, PartialEq, Eq)]
pub enum ErrorKind {
    /// Unable to load TLS certificates for an HTTP discovery.
    HttpCertLoad,
    /// Unable to build the HTTP client for a discovery.
    HttpClient,
    /// An HTTP discovery header has an invalid name.
    HttpHeaderName(String),
    /// An HTTP discovery header has an invalid value.
    HttpHeaderValue(String),
    /// The request to an HTTP discovery server failed.
    HttpRequest,
}

/// Error information returned by functions in case of errors.
#[derive(Debug, PartialEq, Eq)]
pub struct Error {
    pub kind: ErrorKind,
}

/// Short form alias for functions returning `Error`s.
pub type Result<T> = std::result::Result<T, Error>;

} // verus!
