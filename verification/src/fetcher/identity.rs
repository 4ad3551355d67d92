//! Checks that every node of a cluster reports the same cluster identity.
use vstd::prelude::*;

use super::error::Error;
use super::error::ErrorKind;
use super::error::Result;

verus! {

/// Whether an optional text holds exactly the given characters.
pub open spec fn text_opt_is(t: Option<String>, v: Seq<char>) -> bool {
    match t {
        Some(d) => d@ == v,
        None => false,
    }
}

/// Whether `r` is the error for a node whose display name (`display`) or ID
/// (not `display`) differs from the expected one.
pub open spec fn is_mismatch<T>(
    r: Result<T>,
    display: bool,
    expected: Seq<char>,
    found: Seq<char>,
    node: Seq<char>,
) -> bool {
    match r {
        Ok(_) => false,
        Err(e) => match e.spec_kind() {
            ErrorKind::ClusterDisplayNameDoesNotMatch(c, f, n) => display && c@ == expected && f@
                == found && n@ == node,
            ErrorKind::ClusterIdDoesNotMatch(c, f, n) => !display && c@ == expected && f@ == found
                && n@ == node,
            _ => false,
        },
    }
}

/// Remembers the identity of a cluster and checks nodes against it.
pub struct ClusterIdentityChecker {
    display_name: Option<String>,
    id: String,
}

impl ClusterIdentityChecker {
    /// The expected display name, once known.
    pub closed spec fn spec_display_name(&self) -> Option<String> {
        self.display_name
    }

    /// The expected cluster ID.
    pub closed spec fn spec_id(&self) -> String {
        self.id
    }

    /// A checker for the cluster with the given ID and display name, if known.
    pub fn new(id: String, display_name: Option<String>) -> (r: ClusterIdentityChecker)
        ensures
            r.spec_id() == id,
            r.spec_display_name() == display_name,
    {
        ClusterIdentityChecker { display_name, id }
    }

    /// Check the display name reported by a node, or adopt it if none is known yet.
    pub fn check_or_set_display_name(&mut self, display_name: &str, node_id: &str) -> (r: Result<()>)
        ensures
            final(self).spec_id() == old(self).spec_id(),
            match old(self).spec_display_name() {
                None => r is Ok && text_opt_is(final(self).spec_display_name(), display_name@),
                Some(current) => {
                    &&& final(self).spec_display_name() == Some(current)
                    &&& (current@ == display_name@ ==> r is Ok)
                    &&& (current@ != display_name@ ==> is_mismatch(
                        r,
                        true,
                        current@,
                        display_name@,
                        node_id@,
                    ))
                },
            },
    {
        if self.display_name.is_none() {
            self.display_name = Some(String::from_str(display_name));
            return Ok(());
        }
        let current = match &self.display_name {
            Some(current) => current,
            None => {
                return Ok(());
            },
        };
        let found = String::from_str(display_name);
        if *current == found {
            return Ok(());
        }
        Err(Error::from_kind(ErrorKind::ClusterDisplayNameDoesNotMatch(current.clone(), found, String::from_str(node_id))))
    }

    /// Check the cluster ID reported by a node.
    pub fn check_id(&mut self, id: &str, node_id: &str) -> (r: Result<()>)
        ensures
            *final(self) == *old(self),
            old(self).spec_id()@ == id@ ==> r is Ok,
            old(self).spec_id()@ != id@ ==> is_mismatch(r, false, old(self).spec_id()@, id@, node_id@),
    {
        let found = String::from_str(id);
        if self.id == found {
            return Ok(());
        }
        Err(Error::from_kind(ErrorKind::ClusterIdDoesNotMatch(self.id.clone(), found, String::from_str(node_id))))
    }
}

} // verus!
