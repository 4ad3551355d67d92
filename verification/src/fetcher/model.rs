//! The cluster records that the fetcher, the aggregator and the scheduler read:
//! agents, datastore nodes, shards and actions, held as plain values.
use vstd::prelude::*;

verus! {

/// Optional texts are equal when both are missing or both hold equal texts.
pub open spec fn same_text_opt(a: Option<String>, b: Option<String>) -> bool {
    match (a, b) {
        (None, None) => true,
        (Some(x), Some(y)) => x@ == y@,
        _ => false,
    }
}

/// Compare optional texts.
pub fn text_opt_equals(a: &Option<String>, b: &Option<String>) -> (r: bool)
    ensures
        r == same_text_opt(*a, *b),
{
    match (a, b) {
        (None, None) => true,
        (Some(x), Some(y)) => *x == *y,
        _ => false,
    }
}

/// Status of an agent as seen by Replicante Core.
#[derive(Clone, Debug, PartialEq, Eq)]
pub enum AgentStatus {
    /// The agent is down or did not respond, with a description of the problem.
    AgentDown(String),
    /// The agent is up but the datastore node is down, with a description of the problem.
    NodeDown(String),
    /// The agent and its datastore node are up.
    Up,
}

impl AgentStatus {
    /// Whether two statuses are the same, texts compared by value.
    pub open spec fn same(&self, other: &AgentStatus) -> bool {
        match (self, other) {
            (AgentStatus::AgentDown(a), AgentStatus::AgentDown(b)) => a@ == b@,
            (AgentStatus::NodeDown(a), AgentStatus::NodeDown(b)) => a@ == b@,
            (AgentStatus::Up, AgentStatus::Up) => true,
            _ => false,
        }
    }

    /// Compare two statuses.
    pub fn equals(&self, other: &AgentStatus) -> (r: bool)
        ensures
            r == self.same(other),
    {
        match (self, other) {
            (AgentStatus::AgentDown(a), AgentStatus::AgentDown(b)) => *a == *b,
            (AgentStatus::NodeDown(a), AgentStatus::NodeDown(b)) => *a == *b,
            (AgentStatus::Up, AgentStatus::Up) => true,
            _ => false,
        }
    }

    /// Whether the agent is up.
    pub fn is_up(&self) -> (r: bool)
        ensures
            r == (self is Up),
    {
        match self {
            AgentStatus::Up => true,
            _ => false,
        }
    }

    /// Whether the datastore node is down.
    pub fn is_node_down(&self) -> (r: bool)
        ensures
            r == (self is NodeDown),
    {
        match self {
            AgentStatus::NodeDown(_) => true,
            _ => false,
        }
    }
}

/// An agent of a cluster and its status.
#[derive(Clone, Debug, PartialEq, Eq)]
pub struct Agent {
    pub cluster_id: String,
    pub host: String,
    pub status: AgentStatus,
}

impl Agent {
    /// Whether two agents records are the same.
    pub open spec fn same(&self, other: &Agent) -> bool {
        &&& self.cluster_id@ == other.cluster_id@
        &&& self.host@ == other.host@
        &&& self.status.same(&other.status)
    }

    /// Compare two agent records.
    pub fn equals(&self, other: &Agent) -> (r: bool)
        ensures
            r == self.same(other),
    {
        self.cluster_id == other.cluster_id && self.host == other.host && self.status.equals(&other.status)
    }
}

/// Version information reported by an agent.
#[derive(Clone, Debug, PartialEq, Eq)]
pub struct AgentInfo {
    pub cluster_id: String,
    pub host: String,
    pub version_checkout: String,
    pub version_number: String,
    pub version_taint: String,
}

impl AgentInfo {
    /// Whether two agent information records are the same.
    pub open spec fn same(&self, other: &AgentInfo) -> bool {
        &&& self.cluster_id@ == other.cluster_id@
        &&& self.host@ == other.host@
        &&& self.version_checkout@ == other.version_checkout@
        &&& self.version_number@ == other.version_number@
        &&& self.version_taint@ == other.version_taint@
    }

    /// Compare two agent information records.
    pub fn equals(&self, other: &AgentInfo) -> (r: bool)
        ensures
            r == self.same(other),
    {
        self.cluster_id == other.cluster_id && self.host == other.host && self.version_checkout
            == other.version_checkout && self.version_number == other.version_number
            && self.version_taint == other.version_taint
    }
}

/// A datastore node of a cluster, as reported by its agent.
#[derive(Clone, Debug, PartialEq, Eq)]
pub struct Node {
    pub cluster_display_name: Option<String>,
    pub cluster_id: String,
    pub kind: String,
    pub node_id: String,
    pub version: String,
}

impl Node {
    /// Whether two node records are the same.
    pub open spec fn same(&self, other: &Node) -> bool {
        &&& same_text_opt(self.cluster_display_name, other.cluster_display_name)
        &&& self.cluster_id@ == other.cluster_id@
        &&& self.kind@ == other.kind@
        &&& self.node_id@ == other.node_id@
        &&& self.version@ == other.version@
    }

    /// Compare two node records.
    pub fn equals(&self, other: &Node) -> (r: bool)
        ensures
            r == self.same(other),
    {
        text_opt_equals(&self.cluster_display_name, &other.cluster_display_name) && self.cluster_id
            == other.cluster_id && self.kind == other.kind && self.node_id == other.node_id
            && self.version == other.version
    }
}

/// Role of a shard on a node.
#[derive(Clone, Debug, PartialEq, Eq)]
pub enum ShardRole {
    Primary,
    Secondary,
    Recovering,
    Unknown(String),
}

impl ShardRole {
    /// Whether two roles are the same.
    pub open spec fn same(&self, other: &ShardRole) -> bool {
        match (self, other) {
            (ShardRole::Primary, ShardRole::Primary) => true,
            (ShardRole::Secondary, ShardRole::Secondary) => true,
            (ShardRole::Recovering, ShardRole::Recovering) => true,
            (ShardRole::Unknown(a), ShardRole::Unknown(b)) => a@ == b@,
            _ => false,
        }
    }

    /// Compare two roles.
    pub fn equals(&self, other: &ShardRole) -> (r: bool)
        ensures
            r == self.same(other),
    {
        match (self, other) {
            (ShardRole::Primary, ShardRole::Primary) => true,
            (ShardRole::Secondary, ShardRole::Secondary) => true,
            (ShardRole::Recovering, ShardRole::Recovering) => true,
            (ShardRole::Unknown(a), ShardRole::Unknown(b)) => *a == *b,
            _ => false,
        }
    }

    /// Whether the role is primary.
    pub fn is_primary(&self) -> (r: bool)
        ensures
            r == (self is Primary),
    {
        match self {
            ShardRole::Primary => true,
            _ => false,
        }
    }
}

/// Unit of a commit offset.
#[derive(Clone, Debug, PartialEq, Eq)]
pub enum CommitUnit {
    /// Offsets are timestamps, in seconds.
    Seconds,
    /// Offsets in a datastore specific unit.
    Unit(String),
}

impl CommitUnit {
    /// Whether two units are the same.
    pub open spec fn same(&self, other: &CommitUnit) -> bool {
        match (self, other) {
            (CommitUnit::Seconds, CommitUnit::Seconds) => true,
            (CommitUnit::Unit(a), CommitUnit::Unit(b)) => a@ == b@,
            _ => false,
        }
    }

    /// Compare two units.
    pub fn equals(&self, other: &CommitUnit) -> (r: bool)
        ensures
            r == self.same(other),
    {
        match (self, other) {
            (CommitUnit::Seconds, CommitUnit::Seconds) => true,
            (CommitUnit::Unit(a), CommitUnit::Unit(b)) => *a == *b,
            _ => false,
        }
    }

    /// A copy of this unit.
    pub fn duplicate(&self) -> (r: CommitUnit)
        ensures
            r == *self,
    {
        match self {
            CommitUnit::Seconds => CommitUnit::Seconds,
            CommitUnit::Unit(u) => CommitUnit::Unit(u.clone()),
        }
    }
}

/// A commit offset, or a lag expressed as an offset difference.
#[derive(Clone, Debug, PartialEq, Eq)]
pub struct CommitOffset {
    pub unit: CommitUnit,
    pub value: i64,
}

impl CommitOffset {
    /// Whether two offsets are the same.
    pub open spec fn same(&self, other: &CommitOffset) -> bool {
        self.unit.same(&other.unit) && self.value == other.value
    }
}

/// Optional offsets are equal when both are missing or both are the same.
pub open spec fn same_offset_opt(a: Option<CommitOffset>, b: Option<CommitOffset>) -> bool {
    match (a, b) {
        (None, None) => true,
        (Some(x), Some(y)) => x.same(&y),
        _ => false,
    }
}

/// Compare optional offsets.
pub fn offset_opt_equals(a: &Option<CommitOffset>, b: &Option<CommitOffset>) -> (r: bool)
    ensures
        r == same_offset_opt(*a, *b),
{
    match (a, b) {
        (None, None) => true,
        (Some(x), Some(y)) => x.unit.equals(&y.unit) && x.value == y.value,
        _ => false,
    }
}

/// A shard allocated on a node.
#[derive(Clone, Debug, PartialEq, Eq)]
pub struct Shard {
    pub cluster_id: String,
    pub commit_offset: Option<CommitOffset>,
    pub lag: Option<CommitOffset>,
    pub node_id: String,
    pub role: ShardRole,
    pub shard_id: String,
}

impl Shard {
    /// Whether two shard records are the same.
    pub open spec fn same(&self, other: &Shard) -> bool {
        &&& self.cluster_id@ == other.cluster_id@
        &&& same_offset_opt(self.commit_offset, other.commit_offset)
        &&& same_offset_opt(self.lag, other.lag)
        &&& self.node_id@ == other.node_id@
        &&& self.role.same(&other.role)
        &&& self.shard_id@ == other.shard_id@
    }

    /// Compare two shard records.
    pub fn equals(&self, other: &Shard) -> (r: bool)
        ensures
            r == self.same(other),
    {
        self.cluster_id == other.cluster_id && offset_opt_equals(&self.commit_offset, &other.commit_offset)
            && offset_opt_equals(&self.lag, &other.lag) && self.node_id == other.node_id
            && self.role.equals(&other.role) && self.shard_id == other.shard_id
    }
}

/// Identifier of an action: the 128 bits of its UUID.
pub type ActionId = u128;

/// State of an action on a node.
#[derive(PartialEq, Eq, Structural, Clone, Copy, Debug)]
pub enum ActionState {
    Cancelled,
    Done,
    Failed,
    Lost,
    New,
    PendingApprove,
    PendingSchedule,
    Running,
}

/// States of actions that run on a node.
pub open spec fn spec_is_running(s: ActionState) -> bool {
    s is New || s is Running
}

impl ActionState {
    /// Whether the action is running: new actions count as running.
    pub fn is_running(&self) -> (r: bool)
        ensures
            r == spec_is_running(*self),
    {
        match self {
            ActionState::New | ActionState::Running => true,
            _ => false,
        }
    }

    /// Whether the action is waiting to be scheduled.
    pub fn is_pending_schedule(&self) -> (r: bool)
        ensures
            r == (*self is PendingSchedule),
    {
        match self {
            ActionState::PendingSchedule => true,
            _ => false,
        }
    }
}

/// Summary of an unfinished action, as tracked by the cluster view.
#[derive(Clone, Debug, PartialEq, Eq)]
pub struct ActionSyncSummary {
    pub cluster_id: String,
    pub node_id: String,
    pub action_id: ActionId,
    pub state: ActionState,
}

impl ActionSyncSummary {
    /// A copy of this summary.
    pub fn duplicate(&self) -> (r: ActionSyncSummary)
        ensures
            r == *self,
    {
        ActionSyncSummary {
            cluster_id: self.cluster_id.clone(),
            node_id: self.node_id.clone(),
            action_id: self.action_id,
            state: self.state,
        }
    }
}

/// An action on a node, as the primary store records it.
///
/// Timestamps are milliseconds since the epoch; arguments and payloads are JSON text.
#[derive(Clone, Debug, PartialEq, Eq)]
pub struct NodeAction {
    pub action_id: ActionId,
    pub args: String,
    pub cluster_id: String,
    pub created_ts: i64,
    pub finished_ts: Option<i64>,
    pub headers: Vec<(String, String)>,
    pub kind: String,
    pub node_id: String,
    pub requester: String,
    pub schedule_attempt: i32,
    pub scheduled_ts: Option<i64>,
    pub state: ActionState,
    pub state_payload: Option<String>,
}

/// Optional texts hold the same value: both missing, or both present with equal texts.
pub open spec fn equal_texts(a: Option<String>, b: Option<String>) -> bool {
    (a is None <==> b is None) && (a matches Some(x) ==> (b matches Some(y) && x@ == y@))
}

/// Agent statuses are the same exactly when they are of the same kind with
/// the same description.
pub proof fn law_same_status_iff_equal(a: AgentStatus, b: AgentStatus)
    ensures
        a.same(&b) <==> {
            ||| a is Up && b is Up
            ||| a matches AgentStatus::AgentDown(x) && b matches AgentStatus::AgentDown(y) && x@ == y@
            ||| a matches AgentStatus::NodeDown(x) && b matches AgentStatus::NodeDown(y) && x@ == y@
        },
{
}

/// Agent records are the same exactly when they agree on cluster, host and status.
pub proof fn law_same_agents_iff_every_field_equal(a: Agent, b: Agent)
    ensures
        a.same(&b) <==> (a.cluster_id@ == b.cluster_id@ && a.host@ == b.host@ && a.status.same(&b.status)),
{
}

/// Agent information records are the same exactly when every field holds the same text.
pub proof fn law_same_agent_infos_iff_every_field_equal(a: AgentInfo, b: AgentInfo)
    ensures
        a.same(&b) <==> {
            &&& a.cluster_id@ == b.cluster_id@
            &&& a.host@ == b.host@
            &&& a.version_checkout@ == b.version_checkout@
            &&& a.version_number@ == b.version_number@
            &&& a.version_taint@ == b.version_taint@
        },
{
}

/// Node records are the same exactly when every field holds the same value.
pub proof fn law_same_nodes_iff_every_field_equal(a: Node, b: Node)
    ensures
        a.same(&b) <==> {
            &&& equal_texts(a.cluster_display_name, b.cluster_display_name)
            &&& a.cluster_id@ == b.cluster_id@
            &&& a.kind@ == b.kind@
            &&& a.node_id@ == b.node_id@
            &&& a.version@ == b.version@
        },
{
}

/// Shard records are the same exactly when every field holds the same value,
/// offsets and lag compared by unit and value.
pub proof fn law_same_shards_iff_every_field_equal(a: Shard, b: Shard)
    ensures
        a.same(&b) <==> {
            &&& a.cluster_id@ == b.cluster_id@
            &&& a.node_id@ == b.node_id@
            &&& a.shard_id@ == b.shard_id@
            &&& a.role.same(&b.role)
            &&& (a.commit_offset is None <==> b.commit_offset is None)
            &&& (a.commit_offset matches Some(x) ==> (b.commit_offset matches Some(y) && x.unit.same(&y.unit) && x.value == y.value))
            &&& (a.lag is None <==> b.lag is None)
            &&& (a.lag matches Some(x) ==> (b.lag matches Some(y) && x.unit.same(&y.unit) && x.value == y.value))
        },
        a.role.same(&b.role) <==> {
            ||| a.role is Primary && b.role is Primary
            ||| a.role is Secondary && b.role is Secondary
            ||| a.role is Recovering && b.role is Recovering
            ||| a.role matches ShardRole::Unknown(x) && b.role matches ShardRole::Unknown(y) && x@ == y@
        },
{
}

/// Action records are the same only when every field holds the same value:
/// an action whose progress payload, state or any other field moved is a
/// different record.
pub proof fn law_same_actions_agree_on_every_field(a: NodeAction, b: NodeAction)
    requires
        a.same(&b),
    ensures
        a.action_id == b.action_id,
        a.args@ == b.args@,
        a.cluster_id@ == b.cluster_id@,
        a.created_ts == b.created_ts,
        a.finished_ts == b.finished_ts,
        a.headers@.len() == b.headers@.len(),
        forall|i: int| 0 <= i < a.headers@.len() ==> (#[trigger] a.headers@[i]).0@ == b.headers@[i].0@ && a.headers@[i].1@ == b.headers@[i].1@,
        a.kind@ == b.kind@,
        a.node_id@ == b.node_id@,
        a.requester@ == b.requester@,
        a.schedule_attempt == b.schedule_attempt,
        a.scheduled_ts == b.scheduled_ts,
        a.state == b.state,
        equal_texts(a.state_payload, b.state_payload),
{
}

/// Action records that agree on every field are the same.
pub proof fn law_actions_agreeing_on_every_field_are_same(a: NodeAction, b: NodeAction)
    requires
        a.action_id == b.action_id,
        a.args@ == b.args@,
        a.cluster_id@ == b.cluster_id@,
        a.created_ts == b.created_ts,
        a.finished_ts == b.finished_ts,
        a.headers@.len() == b.headers@.len(),
        forall|i: int| 0 <= i < a.headers@.len() ==> (#[trigger] a.headers@[i]).0@ == b.headers@[i].0@ && a.headers@[i].1@ == b.headers@[i].1@,
        a.kind@ == b.kind@,
        a.node_id@ == b.node_id@,
        a.requester@ == b.requester@,
        a.schedule_attempt == b.schedule_attempt,
        a.scheduled_ts == b.scheduled_ts,
        a.state == b.state,
        equal_texts(a.state_payload, b.state_payload),
    ensures
        a.same(&b),
{
}

/// Whether two lists of headers are the same.
pub open spec fn same_headers(a: Seq<(String, String)>, b: Seq<(String, String)>) -> bool {
    a.len() == b.len() && forall|i: int| 0 <= i < a.len() ==> (#[trigger] a[i]).0@ == b[i].0@ && a[i].1@ == b[i].1@
}

/// Compare two lists of headers.
pub fn headers_equal(a: &Vec<(String, String)>, b: &Vec<(String, String)>) -> (r: bool)
    ensures
        r == same_headers(a@, b@),
{
    if a.len() != b.len() {
        return false;
    }
    let mut i: usize = 0;
    while i < a.len()
        invariant
            a@.len() == b@.len(),
            0 <= i <= a@.len(),
            forall|k: int| 0 <= k < i ==> (#[trigger] a@[k]).0@ == b@[k].0@ && a@[k].1@ == b@[k].1@,
        decreases a@.len() - i,
    {
        if a[i].0 != b[i].0 || a[i].1 != b[i].1 {
            return false;
        }
        i = i + 1;
    }
    true
}

impl NodeAction {
    /// Whether two action records are the same.
    pub open spec fn same(&self, other: &NodeAction) -> bool {
        &&& self.action_id == other.action_id
        &&& self.args@ == other.args@
        &&& self.cluster_id@ == other.cluster_id@
        &&& self.created_ts == other.created_ts
        &&& self.finished_ts == other.finished_ts
        &&& same_headers(self.headers@, other.headers@)
        &&& self.kind@ == other.kind@
        &&& self.node_id@ == other.node_id@
        &&& self.requester@ == other.requester@
        &&& self.schedule_attempt == other.schedule_attempt
        &&& self.scheduled_ts == other.scheduled_ts
        &&& self.state == other.state
        &&& same_text_opt(self.state_payload, other.state_payload)
    }

    /// Compare two action records.
    pub fn equals(&self, other: &NodeAction) -> (r: bool)
        ensures
            r == self.same(other),
    {
        self.action_id == other.action_id && self.args == other.args && self.cluster_id
            == other.cluster_id && self.created_ts == other.created_ts && self.finished_ts
            == other.finished_ts && headers_equal(&self.headers, &other.headers) && self.kind
            == other.kind && self.node_id == other.node_id && self.requester == other.requester
            && self.schedule_attempt == other.schedule_attempt && self.scheduled_ts
            == other.scheduled_ts && self.state == other.state && text_opt_equals(
            &self.state_payload,
            &other.state_payload,
        )
    }

    /// The sync summary of this action.
    pub fn summary(&self) -> (r: ActionSyncSummary)
        ensures
            r.cluster_id == self.cluster_id,
            r.node_id == self.node_id,
            r.action_id == self.action_id,
            r.state == self.state,
    {
        ActionSyncSummary {
            cluster_id: self.cluster_id.clone(),
            node_id: self.node_id.clone(),
            action_id: self.action_id,
            state: self.state,
        }
    }

    /// Mark the action as finished in the given state at the given time.
    pub fn finish(&mut self, state: ActionState, now: i64)
        ensures
            *final(self) == (NodeAction { state, finished_ts: Some(now), ..*old(self) }),
    {
        self.state = state;
        self.finished_ts = Some(now);
    }
}

} // verus!
