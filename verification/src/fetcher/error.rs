//! Errors reported while fetching cluster state.
use vstd::prelude::*;

use crate::text::format_uuid;
use crate::text::uuid_text;

use super::model::ActionId;
use super::model::AgentStatus;

verus! {

/// Exhaustive list of possible errors emitted while fetching cluster state.
#[derive(Debug)]
pub enum ErrorKind {
    /// Error connecting to the agent.
    AgentConnect(String),
    /// Error fetching/sending the named data from/to the agent.
    AgentDown(&'static str, String),
    /// Error handling a rollout boundary.
    AnyWrapped,
    /// Error fetching/sending the named data from/to the agent about its datastore.
    DatastoreDown(&'static str, String),
    /// Expected cluster display name, found display name, node ID.
    ClusterDisplayNameDoesNotMatch(String, String, String),
    /// Expected cluster ID, found cluster ID, node ID.
    ClusterIdDoesNotMatch(String, String, String),
    /// Error updating the cluster view with info from agents.
    ClusterViewUpdate,
    /// Error emitting the named event.
    EventEmit(&'static str),
    /// Namespace, cluster ID and ID of an action whose details are missing.
    ExpectedActionNotFound(String, String, ActionId),
    /// Error fetching the named record from the primary store.
    PrimaryStoreRead(&'static str),
    /// Error persisting the named record to the primary store.
    PrimaryStoreWrite(&'static str),
    /// Error fetching the named record from the view store.
    ViewStoreRead(&'static str),
    /// Error persisting the named record to the view store.
    ViewStoreWrite(&'static str),
}

/// The message describing an error kind.
pub open spec fn kind_message(kind: ErrorKind) -> Seq<char> {
    match kind {
        ErrorKind::AgentConnect(a) => "error connecting to agent "@ + a@,
        ErrorKind::AgentDown(w, a) => "error fetching/sending "@ + w@ + " from/to agent "@ + a@,
        ErrorKind::AnyWrapped => "anywrap error handling rollout boundary"@,
        ErrorKind::DatastoreDown(w, a) => "error fetching/sending "@ + w@ + " from/to agent "@ + a@,
        ErrorKind::ClusterDisplayNameDoesNotMatch(e, f, n) => "expected cluster display name '"@ + e@
            + "' but found '"@ + f@ + "' for node with ID '"@ + n@ + "'"@,
        ErrorKind::ClusterIdDoesNotMatch(e, f, n) => "expected cluster ID '"@ + e@ + "' but found '"@
            + f@ + "' for node with ID '"@ + n@ + "'"@,
        ErrorKind::ClusterViewUpdate => "error updating the cluster view with info from agents"@,
        ErrorKind::EventEmit(c) => "error emitting "@ + c@ + " event"@,
        ErrorKind::ExpectedActionNotFound(ns, c, a) => "could not find details for action "@
            + uuid_text(a) + " in cluster "@ + ns@ + "."@ + c@,
        ErrorKind::PrimaryStoreRead(w) => "error fetching "@ + w@ + " from the primary store"@,
        ErrorKind::PrimaryStoreWrite(w) => "error persisting "@ + w@ + " to the primary store"@,
        ErrorKind::ViewStoreRead(w) => "error fetching "@ + w@ + " from the view store"@,
        ErrorKind::ViewStoreWrite(w) => "error persisting "@ + w@ + " to the view store"@,
    }
}

/// The name of an error kind.
pub open spec fn kind_name_text(kind: ErrorKind) -> Seq<char> {
    match kind {
        ErrorKind::AgentConnect(_) => "AgentConnect"@,
        ErrorKind::AgentDown(_, _) => "AgentDown"@,
        ErrorKind::AnyWrapped => "AnyWrapped"@,
        ErrorKind::ClusterDisplayNameDoesNotMatch(_, _, _) => "ClusterDisplayNameDoesNotMatch"@,
        ErrorKind::ClusterIdDoesNotMatch(_, _, _) => "ClusterIdDoesNotMatch"@,
        ErrorKind::ClusterViewUpdate => "ClusterViewUpdate"@,
        ErrorKind::DatastoreDown(_, _) => "DatastoreDown"@,
        ErrorKind::EventEmit(_) => "EventEmit"@,
        ErrorKind::ExpectedActionNotFound(_, _, _) => "ExpectedActionNotFound"@,
        ErrorKind::PrimaryStoreRead(_) => "PrimaryStoreRead"@,
        ErrorKind::PrimaryStoreWrite(_) => "PrimaryStoreWrite"@,
        ErrorKind::ViewStoreRead(_) => "ViewStoreRead"@,
        ErrorKind::ViewStoreWrite(_) => "ViewStoreWrite"@,
    }
}

impl ErrorKind {
    /// The message describing this error kind.
    pub fn describe(&self) -> (r: String)
        ensures
            r@ == kind_message(*self),
    {
        match self {
            ErrorKind::AgentConnect(a) => String::from_str("error connecting to agent ").concat(a.as_str()),
            ErrorKind::AgentDown(w, a) => String::from_str("error fetching/sending ").concat(w).concat(" from/to agent ").concat(a.as_str()),
            ErrorKind::AnyWrapped => String::from_str("anywrap error handling rollout boundary"),
            ErrorKind::DatastoreDown(w, a) => String::from_str("error fetching/sending ").concat(w).concat(" from/to agent ").concat(a.as_str()),
            ErrorKind::ClusterDisplayNameDoesNotMatch(e, f, n) => String::from_str("expected cluster display name '")
                .concat(e.as_str()).concat("' but found '").concat(f.as_str()).concat("' for node with ID '")
                .concat(n.as_str()).concat("'"),
            ErrorKind::ClusterIdDoesNotMatch(e, f, n) => String::from_str("expected cluster ID '")
                .concat(e.as_str()).concat("' but found '").concat(f.as_str()).concat("' for node with ID '")
                .concat(n.as_str()).concat("'"),
            ErrorKind::ClusterViewUpdate => String::from_str("error updating the cluster view with info from agents"),
            ErrorKind::EventEmit(c) => String::from_str("error emitting ").concat(c).concat(" event"),
            ErrorKind::ExpectedActionNotFound(ns, c, a) => {
                let id = format_uuid(*a);
                String::from_str("could not find details for action ").concat(id.as_str()).concat(" in cluster ")
                    .concat(ns.as_str()).concat(".").concat(c.as_str())
            },
            ErrorKind::PrimaryStoreRead(w) => String::from_str("error fetching ").concat(w).concat(" from the primary store"),
            ErrorKind::PrimaryStoreWrite(w) => String::from_str("error persisting ").concat(w).concat(" to the primary store"),
            ErrorKind::ViewStoreRead(w) => String::from_str("error fetching ").concat(w).concat(" from the view store"),
            ErrorKind::ViewStoreWrite(w) => String::from_str("error persisting ").concat(w).concat(" to the view store"),
        }
    }

    /// The name of this error kind.
    pub fn kind_name(&self) -> (r: Option<&'static str>)
        ensures
            r matches Some(n) && n@ == kind_name_text(*self),
    {
        let name = match self {
            ErrorKind::AgentConnect(_) => "AgentConnect",
            ErrorKind::AgentDown(_, _) => "AgentDown",
            ErrorKind::AnyWrapped => "AnyWrapped",
            ErrorKind::ClusterDisplayNameDoesNotMatch(_, _, _) => "ClusterDisplayNameDoesNotMatch",
            ErrorKind::ClusterIdDoesNotMatch(_, _, _) => "ClusterIdDoesNotMatch",
            ErrorKind::ClusterViewUpdate => "ClusterViewUpdate",
            ErrorKind::DatastoreDown(_, _) => "DatastoreDown",
            ErrorKind::EventEmit(_) => "EventEmit",
            ErrorKind::ExpectedActionNotFound(_, _, _) => "ExpectedActionNotFound",
            ErrorKind::PrimaryStoreRead(_) => "PrimaryStoreRead",
            ErrorKind::PrimaryStoreWrite(_) => "PrimaryStoreWrite",
            ErrorKind::ViewStoreRead(_) => "ViewStoreRead",
            ErrorKind::ViewStoreWrite(_) => "ViewStoreWrite",
        };
        Some(name)
    }
}

/// The agent status an error reports, if the error is about the agent or its datastore.
pub open spec fn spec_agent_status(kind: ErrorKind, status: Option<AgentStatus>) -> bool {
    match kind {
        ErrorKind::AgentConnect(_) | ErrorKind::AgentDown(_, _)
        | ErrorKind::ClusterDisplayNameDoesNotMatch(_, _, _) | ErrorKind::ClusterIdDoesNotMatch(_, _, _) =>
            status matches Some(AgentStatus::AgentDown(m)) && m@ == kind_message(kind),
        ErrorKind::DatastoreDown(_, _) => status matches Some(AgentStatus::NodeDown(m)) && m@ == kind_message(kind),
        _ => status is None,
    }
}

/// Failures of the agent (it can't be reached, fails to answer, or reports
/// another cluster) report the agent as down; only a datastore failure reports
/// the node as down, and every status reported comes with the error's message.
pub proof fn law_agent_failures_report_the_agent_down(kind: ErrorKind, status: Option<AgentStatus>)
    requires
        spec_agent_status(kind, status),
    ensures
        (kind is AgentConnect || kind is AgentDown || kind is ClusterDisplayNameDoesNotMatch || kind is ClusterIdDoesNotMatch)
            ==> (status matches Some(AgentStatus::AgentDown(m)) && m@ == kind_message(kind)),
        (status matches Some(AgentStatus::NodeDown(_))) ==> kind is DatastoreDown,
        (status matches Some(AgentStatus::AgentDown(_))) ==> !(kind is DatastoreDown),
        kind is DatastoreDown ==> (status matches Some(AgentStatus::NodeDown(m)) && m@ == kind_message(kind)),
{
}

/// Error information returned by functions in case of errors.
#[derive(Debug)]
pub struct Error {
    kind: ErrorKind,
}

impl Error {
    /// The kind of this error.
    pub closed spec fn spec_kind(&self) -> ErrorKind {
        self.kind
    }

    /// An error of the given kind.
    pub fn from_kind(kind: ErrorKind) -> (r: Error)
        ensures
            r.spec_kind() == kind,
    {
        Error { kind }
    }

    /// Return more information about this error.
    pub fn kind(&self) -> (r: &ErrorKind)
        ensures
            *r == self.spec_kind(),
    {
        &self.kind
    }

    /// Return the `AgentStatus` based on the reported error.
    ///
    /// The error itself can be used to determine if the issue is with the
    /// agent or with the datastore; `None` is returned if the error is with
    /// Replicante Core itself.
    ///
    ///   * An `AgentConnect` error kind results in an `AgentStatus::AgentDown`.
    ///   * A `DatastoreDown` error kind results in an `AgentStatus::NodeDown`.
    ///   * A `PrimaryStoreRead` error kind results in a `None` as it indicates an error between
    ///     Replicante Core and its store and is unrelated to the agent itself.
    pub fn agent_status(&self) -> (r: Option<AgentStatus>)
        ensures
            spec_agent_status(self.spec_kind(), r),
    {
        match &self.kind {
            ErrorKind::AgentConnect(_) | ErrorKind::AgentDown(_, _)
            | ErrorKind::ClusterDisplayNameDoesNotMatch(_, _, _) | ErrorKind::ClusterIdDoesNotMatch(_, _, _) => {
                Some(AgentStatus::AgentDown(self.kind.describe()))
            },
            ErrorKind::DatastoreDown(_, _) => Some(AgentStatus::NodeDown(self.kind.describe())),
            _ => None,
        }
    }

    /// The name of the kind of this error.
    pub fn name(&self) -> (r: Option<&'static str>)
        ensures
            r matches Some(n) && n@ == kind_name_text(self.spec_kind()),
    {
        self.kind.kind_name()
    }

    /// The message describing this error.
    pub fn describe(&self) -> (r: String)
        ensures
            r@ == kind_message(self.spec_kind()),
    {
        self.kind.describe()
    }
}

/// Short form alias for functions returning `Error`s.
pub type Result<T> = std::result::Result<T, Error>;

/// Errors encountered while computing a scheduling choice.
#[derive(Debug)]
pub enum SchedChoiceError {
    /// An orchestrator action in the cluster is not available in the registry.
    ///
    /// Attached to this error are the missing orchestrator action kind, the
    /// cluster namespace and the cluster id.
    OrchestratorActionNotFound(String, String, String),
}

impl SchedChoiceError {
    /// Return a `SchedChoiceError::OrchestratorActionNotFound` error.
    pub fn orchestrator_action_not_found(kind: &str, namespace: &str, cluster: &str) -> (r: SchedChoiceError)
        ensures
            r matches SchedChoiceError::OrchestratorActionNotFound(k, n, c) && k@ == kind@ && n@
                == namespace@ && c@ == cluster@,
    {
        let kind = String::from_str(kind);
        let namespace = String::from_str(namespace);
        let cluster = String::from_str(cluster);
        SchedChoiceError::OrchestratorActionNotFound(kind, namespace, cluster)
    }

    /// The message describing this error.
    pub fn describe(&self) -> (r: String)
        ensures
            self matches SchedChoiceError::OrchestratorActionNotFound(k, n, c) && r@
                == "unknown orchestrator action "@ + k@ + " in cluster "@ + n@ + "."@ + c@,
    {
        match self {
            SchedChoiceError::OrchestratorActionNotFound(k, n, c) => String::from_str("unknown orchestrator action ")
                .concat(k.as_str()).concat(" in cluster ").concat(n.as_str()).concat(".").concat(c.as_str()),
        }
    }
}

} // verus!
