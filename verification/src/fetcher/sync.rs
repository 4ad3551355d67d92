//! How the records reported by an agent are synced with the records of core:
//! which events to emit and what to persist for agents, agent information,
//! datastore nodes and shards, and the order in which a cluster's agents are
//! visited.
use vstd::prelude::*;

use super::error::Error;
use super::error::Result;
use super::error::spec_agent_status;
use super::identity::ClusterIdentityChecker;
use super::identity::is_mismatch;
use super::identity::text_opt_is;
use super::model::Agent;
use super::model::AgentInfo;
use super::model::AgentStatus;
use super::model::Node;
use super::model::Shard;
use super::model::ShardRole;

verus! {

/// What to do with a record: the events to emit, in order, and whether to
/// persist the record, with the name of the write for its error.
#[derive(Debug)]
pub struct RecordSync<E> {
    pub events: Vec<E>,
    pub persist: Option<&'static str>,
}

/// An event about an agent.
#[derive(Debug)]
pub enum AgentEvent {
    /// A new agent was discovered.
    New(Agent),
    /// The status of an agent changed: before, after.
    Transition(Agent, Agent),
}

/// An event about the information of an agent.
#[derive(Debug)]
pub enum AgentInfoEvent {
    /// Information about a new agent.
    New(AgentInfo),
    /// The information of an agent changed: before, after.
    Changed(AgentInfo, AgentInfo),
}

/// An event about a datastore node.
#[derive(Debug)]
pub enum NodeEvent {
    /// A new node was discovered.
    New(Node),
    /// The node changed: before, after.
    Changed(Node, Node),
}

/// An event about a shard.
#[derive(Debug)]
pub enum ShardEvent {
    /// A new shard allocation was discovered.
    New(Shard),
    /// The allocation changed: before, after.
    AllocationChanged(Shard, Shard),
}

/// Whether the store write is named `name`.
pub open spec fn writes(persist: Option<&'static str>, name: Seq<char>) -> bool {
    match persist {
        Some(w) => w@ == name,
        None => false,
    }
}

/// Whether `e` is the synthetic transition of a newly discovered agent to `agent`.
pub open spec fn is_discovery_transition(e: AgentEvent, agent: Agent) -> bool {
    match e {
        AgentEvent::Transition(before, after) => {
            &&& after == agent
            &&& before.cluster_id == agent.cluster_id
            &&& before.host == agent.host
            &&& match before.status {
                AgentStatus::AgentDown(m) => m@ == newly_discovered(),
                _ => false,
            }
        },
        _ => false,
    }
}

/// The status a newly discovered agent transitions from.
pub open spec fn newly_discovered() -> Seq<char> {
    "Newly discovered agent"@
}

impl Agent {
    /// A copy of this agent record.
    pub fn duplicate(&self) -> (r: Agent)
        ensures
            r == *self,
    {
        let status = match &self.status {
            AgentStatus::AgentDown(m) => AgentStatus::AgentDown(m.clone()),
            AgentStatus::NodeDown(m) => AgentStatus::NodeDown(m.clone()),
            AgentStatus::Up => AgentStatus::Up,
        };
        Agent { cluster_id: self.cluster_id.clone(), host: self.host.clone(), status }
    }
}

/// How syncing an agent works: a new agent is announced along with a synthetic
/// transition from down; a known agent emits a transition when its status
/// changed and is persisted when anything changed.
pub open spec fn spec_agent_sync(agent: Agent, previous: Option<Agent>, r: RecordSync<AgentEvent>) -> bool {
    match previous {
        None => {
            &&& r.events@.len() == 2
            &&& r.events@[0] == AgentEvent::New(agent)
            &&& is_discovery_transition(r.events@[1], agent)
            &&& writes(r.persist, "new agent"@)
        },
        Some(o) => if agent.same(&o) {
            r.events@.len() == 0 && r.persist is None
        } else {
            &&& r.events@ == (if agent.status.same(&o.status) {
                Seq::<AgentEvent>::empty()
            } else {
                seq![AgentEvent::Transition(o, agent)]
            })
            &&& writes(r.persist, "agent update"@)
        },
    }
}

/// Decide how to sync an agent with its previous record, if any.
pub fn agent_sync(agent: Agent, previous: Option<Agent>) -> (r: RecordSync<AgentEvent>)
    ensures
        spec_agent_sync(agent, previous, r),
{
    proof {
        reveal_strlit("new agent");
        reveal_strlit("agent update");
        reveal_strlit("Newly discovered agent");
    }
    match previous {
        None => {
            let before = Agent {
                cluster_id: agent.cluster_id.clone(),
                host: agent.host.clone(),
                status: AgentStatus::AgentDown(String::from_str("Newly discovered agent")),
            };
            let mut events: Vec<AgentEvent> = Vec::new();
            events.push(AgentEvent::New(agent.duplicate()));
            events.push(AgentEvent::Transition(before, agent));
            RecordSync { events, persist: Some("new agent") }
        },
        Some(o) => {
            if agent.equals(&o) {
                return RecordSync { events: Vec::new(), persist: None };
            }
            let mut events: Vec<AgentEvent> = Vec::new();
            if !agent.status.equals(&o.status) {
                events.push(AgentEvent::Transition(o, agent));
            }
            proof {
                assert(events@ =~= (if agent.status.same(&o.status) {
                    Seq::<AgentEvent>::empty()
                } else {
                    seq![AgentEvent::Transition(o, agent)]
                }));
            }
            RecordSync { events, persist: Some("agent update") }
        },
    }
}

/// How syncing agent information works: new information is announced and
/// persisted; changed information is announced only.
pub open spec fn spec_agent_info_sync(info: AgentInfo, previous: Option<AgentInfo>, r: RecordSync<AgentInfoEvent>) -> bool {
    match previous {
        None => r.events@ == seq![AgentInfoEvent::New(info)] && writes(r.persist, "new agent info"@),
        Some(o) => {
            &&& r.persist is None
            &&& r.events@ == (if info.same(&o) {
                Seq::<AgentInfoEvent>::empty()
            } else {
                seq![AgentInfoEvent::Changed(o, info)]
            })
        },
    }
}

/// Decide how to sync the information of an agent with its previous record, if any.
pub fn agent_info_sync(info: AgentInfo, previous: Option<AgentInfo>) -> (r: RecordSync<AgentInfoEvent>)
    ensures
        spec_agent_info_sync(info, previous, r),
{
    proof {
        reveal_strlit("new agent info");
    }
    let mut events: Vec<AgentInfoEvent> = Vec::new();
    match previous {
        None => {
            events.push(AgentInfoEvent::New(info));
            proof {
                assert(events@ =~= seq![AgentInfoEvent::New(info)]);
            }
            RecordSync { events, persist: Some("new agent info") }
        },
        Some(o) => {
            if !info.equals(&o) {
                events.push(AgentInfoEvent::Changed(o, info));
            }
            proof {
                assert(events@ =~= (if info.same(&o) {
                    Seq::<AgentInfoEvent>::empty()
                } else {
                    seq![AgentInfoEvent::Changed(o, info)]
                }));
            }
            RecordSync { events, persist: None }
        },
    }
}

/// How syncing a node works, once its identity was checked: a new node is
/// announced, a changed node emits a change, and the node is always persisted
/// to clear its staleness.
pub open spec fn spec_node_sync(node: Node, previous: Option<Node>, r: RecordSync<NodeEvent>) -> bool {
    match previous {
        None => r.events@ == seq![NodeEvent::New(node)] && writes(r.persist, "new node"@),
        Some(o) => {
            &&& writes(r.persist, "node update"@)
            &&& r.events@ == (if node.same(&o) {
                Seq::<NodeEvent>::empty()
            } else {
                seq![NodeEvent::Changed(o, node)]
            })
        },
    }
}

/// Check the identity a node reports against the cluster, then decide how to
/// sync it with its previous record, if any.
///
/// The cluster ID is checked first, then the display name when the node reports one.
pub fn node_sync(node: Node, previous: Option<Node>, checker: &mut ClusterIdentityChecker) -> (r: Result<RecordSync<NodeEvent>>)
    ensures
        final(checker).spec_id() == old(checker).spec_id(),
        old(checker).spec_id()@ != node.cluster_id@ ==> {
            &&& r is Err
            &&& is_mismatch(
                r,
                false,
                old(checker).spec_id()@,
                node.cluster_id@,
                node.node_id@,
            )
            &&& final(checker).spec_display_name() == old(checker).spec_display_name()
        },
        old(checker).spec_id()@ == node.cluster_id@ ==> match node.cluster_display_name {
            None => {
                &&& final(checker).spec_display_name() == old(checker).spec_display_name()
                &&& r matches Ok(plan) && spec_node_sync(node, previous, plan)
            },
            Some(name) => match old(checker).spec_display_name() {
                None => {
                    &&& text_opt_is(final(checker).spec_display_name(), name@)
                    &&& r matches Ok(plan) && spec_node_sync(node, previous, plan)
                },
                Some(current) => {
                    &&& final(checker).spec_display_name() == Some(current)
                    &&& current@ == name@ ==> (r matches Ok(plan) && spec_node_sync(node, previous, plan))
                    &&& current@ != name@ ==> is_mismatch(
                        r,
                        true,
                        current@,
                        name@,
                        node.node_id@,
                    )
                },
            },
        },
{
    match checker.check_id(node.cluster_id.as_str(), node.node_id.as_str()) {
        Ok(()) => {},
        Err(e) => {
            return Err(e);
        },
    }
    match &node.cluster_display_name {
        Some(name) => {
            match checker.check_or_set_display_name(name.as_str(), node.node_id.as_str()) {
                Ok(()) => {},
                Err(e) => {
                    return Err(e);
                },
            }
        },
        None => {},
    }
    proof {
        reveal_strlit("new node");
        reveal_strlit("node update");
    }
    let mut events: Vec<NodeEvent> = Vec::new();
    match previous {
        None => {
            events.push(NodeEvent::New(node));
            proof {
                assert(events@ =~= seq![NodeEvent::New(node)]);
            }
            Ok(RecordSync { events, persist: Some("new node") })
        },
        Some(o) => {
            if !node.equals(&o) {
                events.push(NodeEvent::Changed(o, node));
            }
            proof {
                assert(events@ =~= (if node.same(&o) {
                    Seq::<NodeEvent>::empty()
                } else {
                    seq![NodeEvent::Changed(o, node)]
                }));
            }
            Ok(RecordSync { events, persist: Some("node update") })
        },
    }
}

/// Whether a shard changed in anything but its commit offset and lag.
pub open spec fn spec_shard_changed(shard: Shard, previous: Shard) -> bool {
    !shard.same(&previous) && (shard.cluster_id@ != previous.cluster_id@ || shard.node_id@ != previous.node_id@
        || !shard.role.same(&previous.role) || shard.shard_id@ != previous.shard_id@)
}

/// Checks if a shard has changed since the last fetch.
///
/// Because shard data includes commit offsets and lag, "expected" changes to
/// them are ignored.
pub fn shard_changed(shard: &Shard, previous: &Shard) -> (r: bool)
    ensures
        r == spec_shard_changed(*shard, *previous),
{
    if shard.equals(previous) {
        return false;
    }
    shard.cluster_id != previous.cluster_id || shard.node_id != previous.node_id || !shard.role.equals(&previous.role)
        || shard.shard_id != previous.shard_id
}

/// How syncing a shard works: a new allocation is announced, a changed one
/// emits a change, and the shard is always persisted for the latest offsets.
pub open spec fn spec_shard_sync(shard: Shard, previous: Option<Shard>, r: RecordSync<ShardEvent>) -> bool {
    match previous {
        None => r.events@ == seq![ShardEvent::New(shard)] && writes(r.persist, "new shard"@),
        Some(o) => {
            &&& writes(r.persist, "shard update"@)
            &&& r.events@ == (if spec_shard_changed(shard, o) {
                seq![ShardEvent::AllocationChanged(o, shard)]
            } else {
                Seq::<ShardEvent>::empty()
            })
        },
    }
}

/// Decide how to sync a shard with its previous record, if any.
pub fn shard_sync(shard: Shard, previous: Option<Shard>) -> (r: RecordSync<ShardEvent>)
    ensures
        spec_shard_sync(shard, previous, r),
{
    proof {
        reveal_strlit("new shard");
        reveal_strlit("shard update");
    }
    let mut events: Vec<ShardEvent> = Vec::new();
    match previous {
        None => {
            events.push(ShardEvent::New(shard));
            proof {
                assert(events@ =~= seq![ShardEvent::New(shard)]);
            }
            RecordSync { events, persist: Some("new shard") }
        },
        Some(o) => {
            if shard_changed(&shard, &o) {
                events.push(ShardEvent::AllocationChanged(o, shard));
            }
            proof {
                assert(events@ =~= (if spec_shard_changed(shard, o) {
                    seq![ShardEvent::AllocationChanged(o, shard)]
                } else {
                    Seq::<ShardEvent>::empty()
                }));
            }
            RecordSync { events, persist: Some("shard update") }
        },
    }
}

/// Syncing a record against itself is quiet: an agent, agent information,
/// node or shard reported again unchanged emits no event, and only nodes and
/// shards are persisted again, to clear their staleness.
pub proof fn law_unchanged_records_emit_nothing(
    agent: Agent,
    ra: RecordSync<AgentEvent>,
    info: AgentInfo,
    ri: RecordSync<AgentInfoEvent>,
    node: Node,
    rn: RecordSync<NodeEvent>,
    shard: Shard,
    rs: RecordSync<ShardEvent>,
)
    requires
        spec_agent_sync(agent, Some(agent), ra),
        spec_agent_info_sync(info, Some(info), ri),
        spec_node_sync(node, Some(node), rn),
        spec_shard_sync(shard, Some(shard), rs),
    ensures
        ra.events@.len() == 0 && ra.persist is None,
        ri.events@.len() == 0 && ri.persist is None,
        rn.events@.len() == 0 && writes(rn.persist, "node update"@),
        rs.events@.len() == 0 && writes(rs.persist, "shard update"@),
{
    assert(agent.same(&agent));
    assert(info.same(&info));
    assert(node.same(&node));
    assert(shard.same(&shard));
}

/// A shard reported again with only its commit offset and lag moved, which
/// are expected to change, emits no allocation change; it is still persisted
/// for its latest offsets.
pub proof fn law_offset_and_lag_moves_are_not_allocation_changes(shard: Shard, previous: Shard, r: RecordSync<ShardEvent>)
    requires
        shard.cluster_id == previous.cluster_id,
        shard.node_id == previous.node_id,
        shard.role == previous.role,
        shard.shard_id == previous.shard_id,
        spec_shard_sync(shard, Some(previous), r),
    ensures
        !spec_shard_changed(shard, previous),
        r.events@.len() == 0,
        writes(r.persist, "shard update"@),
{
    match shard.role {
        ShardRole::Unknown(u) => assert(previous.role == ShardRole::Unknown(u)),
        _ => {},
    }
}

/// A shard that moved to another cluster or node, changed role or ID is
/// announced as an allocation change, with its previous and new records.
pub proof fn law_allocation_changes_are_announced(shard: Shard, previous: Shard, r: RecordSync<ShardEvent>)
    requires
        shard.cluster_id@ != previous.cluster_id@ || shard.node_id@ != previous.node_id@ || shard.shard_id@
            != previous.shard_id@ || (shard.role is Primary) != (previous.role is Primary),
        spec_shard_sync(shard, Some(previous), r),
    ensures
        r.events@ == seq![ShardEvent::AllocationChanged(previous, shard)],
{
}

/// A node reported again emits a change exactly when some field of its record
/// differs from the previous one (a datastore upgrade changes its version);
/// it is persisted either way.
pub proof fn law_node_changes_are_announced(node: Node, previous: Node, r: RecordSync<NodeEvent>)
    requires
        spec_node_sync(node, Some(previous), r),
    ensures
        writes(r.persist, "node update"@),
        r.events@.len() == 0 <==> {
            &&& (node.cluster_display_name is None <==> previous.cluster_display_name is None)
            &&& (node.cluster_display_name matches Some(n) ==> (previous.cluster_display_name matches Some(p) && n@ == p@))
            &&& node.cluster_id@ == previous.cluster_id@
            &&& node.kind@ == previous.kind@
            &&& node.node_id@ == previous.node_id@
            &&& node.version@ == previous.version@
        },
        r.events@.len() != 0 ==> r.events@ == seq![NodeEvent::Changed(previous, node)],
{
}

/// The status of an agent after its node was processed: up when processing
/// succeeded, the status the error reports when it is about the agent or its
/// datastore, and the error itself when it is about Replicante Core.
pub fn target_status(outcome: Result<()>) -> (r: Result<AgentStatus>)
    ensures
        outcome is Ok ==> r == Ok::<AgentStatus, Error>(AgentStatus::Up),
        outcome matches Err(e) ==> match r {
            Ok(status) => spec_agent_status(e.spec_kind(), Some(status)),
            Err(f) => f == e && spec_agent_status(e.spec_kind(), None),
        },
{
    match outcome {
        Ok(()) => Ok(AgentStatus::Up),
        Err(e) => match e.agent_status() {
            Some(status) => Ok(status),
            None => Err(e),
        },
    }
}

/// The next thing to do while refreshing a cluster.
#[derive(Debug)]
pub enum FetchStep {
    /// Process the agent at this address.
    Visit(String),
    /// The cluster lock was lost: skip the remaining agents.
    LockLost,
    /// All agents were processed.
    Done,
}

/// Progress of the refresh of a cluster: its agents are visited in the order
/// discovery lists them, as long as the cluster lock is held.
pub struct FetchRound {
    cluster_id: String,
    agents: Vec<String>,
    next: usize,
}

impl FetchRound {
    /// The cluster being refreshed.
    pub closed spec fn spec_cluster_id(&self) -> Seq<char> {
        self.cluster_id@
    }

    /// The agents to visit.
    pub closed spec fn spec_agents(&self) -> Seq<String> {
        self.agents@
    }

    /// How many agents were handed out.
    pub closed spec fn spec_next(&self) -> nat {
        self.next as nat
    }

    /// The position stays within the agents.
    pub closed spec fn wf(&self) -> bool {
        self.next <= self.agents@.len()
    }

    /// Start the refresh of a cluster with the agents discovery lists for it.
    pub fn new(cluster_id: String, agents: Vec<String>) -> (r: FetchRound)
        ensures
            r.wf(),
            r.spec_cluster_id() == cluster_id@,
            r.spec_agents() == agents@,
            r.spec_next() == 0,
    {
        FetchRound { cluster_id, agents, next: 0 }
    }

    /// Hand out the next agent to visit, unless the cluster lock was lost.
    pub fn next_step(&mut self, lock_held: bool) -> (r: FetchStep)
        requires
            old(self).wf(),
        ensures
            final(self).wf(),
            final(self).spec_cluster_id() == old(self).spec_cluster_id(),
            final(self).spec_agents() == old(self).spec_agents(),
            old(self).spec_next() == old(self).spec_agents().len() ==> r is Done && final(self).spec_next()
                == old(self).spec_next(),
            old(self).spec_next() < old(self).spec_agents().len() && !lock_held ==> r is LockLost
                && final(self).spec_next() == old(self).spec_next(),
            old(self).spec_next() < old(self).spec_agents().len() && lock_held ==> {
                &&& r matches FetchStep::Visit(a) && a@ == old(self).spec_agents()[old(self).spec_next() as int]@
                &&& final(self).spec_next() == old(self).spec_next() + 1
            },
    {
        if self.next >= self.agents.len() {
            return FetchStep::Done;
        }
        if !lock_held {
            return FetchStep::LockLost;
        }
        let agent = self.agents[self.next].clone();
        self.next = self.next + 1;
        FetchStep::Visit(agent)
    }

    /// The agent record of a visited agent, given the outcome of processing its node.
    pub fn agent_record(&self, agent_id: &str, outcome: Result<()>) -> (r: Result<Agent>)
        ensures
            outcome is Ok ==> (r matches Ok(a) && a.cluster_id@ == self.spec_cluster_id() && a.host@
                == agent_id@ && a.status is Up),
            outcome matches Err(e) ==> match r {
                Ok(a) => a.cluster_id@ == self.spec_cluster_id() && a.host@ == agent_id@
                    && spec_agent_status(e.spec_kind(), Some(a.status)),
                Err(f) => f == e && spec_agent_status(e.spec_kind(), None),
            },
    {
        match target_status(outcome) {
            Ok(status) => Ok(Agent {
                cluster_id: self.cluster_id.clone(),
                host: String::from_str(agent_id),
                status,
            }),
            Err(e) => Err(e),
        }
    }
}

} // verus!
