//! Configuration for the SQLite background tasks backend.
use vstd::prelude::*;

verus! {

/// SQLite specific configuration for the background tasks interface.
#[derive(Clone, Debug, Eq, PartialEq)]
pub struct Conf {
    /// Path to the SQLite DB file.
    pub path: String,
}

/// The SQLite background tasks backend configuration is not valid.
#[derive(Debug)]
pub struct ConfError;

impl ConfError {
    /// The message describing this error.
    pub fn describe(&self) -> (r: &'static str)
        ensures
            r@ == "the SQLite background tasks backend configuration is not valid"@,
    {
        "the SQLite background tasks backend configuration is not valid"
    }
}

} // verus!
