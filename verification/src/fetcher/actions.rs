//! Actions sync between agents and Replicante Core.
//!
//! Actions sync operates in the following order:
//!
//! 1. Fetch all action IDs from the agent (queued first, then finished ones).
//! 2. For each action from the agent: add or update the action record.
//! 3. For each unfinished action known to core but not returned by the agent:
//!    - If the action is pending schedule: schedule it with the agent.
//!    - If the action is running: mark the action as lost.
use vstd::prelude::*;

use super::error::Error;
use super::error::ErrorKind;
use super::error::Result;
use super::model::ActionId;
use super::model::ActionState;
use super::model::ActionSyncSummary;
use super::model::NodeAction;
use super::model::spec_is_running;
use super::model::law_same_actions_agree_on_every_field;
use super::model::equal_texts;
use crate::seqs::first_occurrences;
use crate::seqs::no_duplicates;
use crate::seqs::lemma_first_occurrences_unique;
use crate::seqs::lemma_first_occurrences_same_items;

verus! {

/// Number of failed schedule attempts after which an action is given up on.
pub const MAX_SCHEDULE_ATTEMPTS: i32 = 10;

/// Whether `x` occurs in `v`.
fn contains_id(v: &Vec<ActionId>, x: ActionId) -> (r: bool)
    ensures
        r == v@.contains(x),
{
    let mut i: usize = 0;
    while i < v.len()
        invariant
            0 <= i <= v@.len(),
            forall|k: int| 0 <= k < i ==> v@[k] != x,
        decreases v@.len() - i,
    {
        if v[i] == x {
            assert(v@[i as int] == x);
            return true;
        }
        i = i + 1;
    }
    false
}

/// All action IDs currently available on the agent: the queued ones first, then
/// the finished ones, each ID once even when an action finished between the two
/// listings.
pub fn remote_ids(queue: &Vec<ActionId>, finished: &Vec<ActionId>) -> (r: Vec<ActionId>)
    ensures
        r@ == first_occurrences(queue@ + finished@),
{
    let ghost all = queue@ + finished@;
    let mut ids: Vec<ActionId> = Vec::new();
    let mut i: usize = 0;
    while i < queue.len()
        invariant
            0 <= i <= queue@.len(),
            all == queue@ + finished@,
            ids@ == first_occurrences(all.take(i as int)),
        decreases queue@.len() - i,
    {
        let id = queue[i];
        assert(all.take(i + 1).drop_last() =~= all.take(i as int));
        assert(all.take(i + 1).last() == id);
        if !contains_id(&ids, id) {
            ids.push(id);
        }
        i = i + 1;
    }
    let mut j: usize = 0;
    while j < finished.len()
        invariant
            0 <= j <= finished@.len(),
            all == queue@ + finished@,
            ids@ == first_occurrences(all.take(queue@.len() + j)),
        decreases finished@.len() - j,
    {
        let id = finished[j];
        let ghost k = queue@.len() + j;
        assert(all.take(k + 1).drop_last() =~= all.take(k));
        assert(all.take(k + 1).last() == id);
        if !contains_id(&ids, id) {
            ids.push(id);
        }
        j = j + 1;
    }
    assert(all.take((queue@.len() + finished@.len()) as int) =~= all);
    ids
}

/// Unfinished actions of a node that the agent did not report.
pub open spec fn unreported(unfinished: Seq<ActionSyncSummary>, remote: Seq<ActionId>) -> Seq<ActionSyncSummary> {
    unfinished.filter(|a: ActionSyncSummary| !remote.contains(a.action_id))
}

/// The unfinished actions of a node that the agent no longer knows about, in order.
pub fn unreported_actions(unfinished: &Vec<ActionSyncSummary>, remote: &Vec<ActionId>) -> (r: Vec<ActionSyncSummary>)
    ensures
        r@ == unreported(unfinished@, remote@),
{
    let mut out: Vec<ActionSyncSummary> = Vec::new();
    let mut i: usize = 0;
    while i < unfinished.len()
        invariant
            0 <= i <= unfinished@.len(),
            out@ == unreported(unfinished@.take(i as int), remote@),
        decreases unfinished@.len() - i,
    {
        let ghost pred = |a: ActionSyncSummary| !remote@.contains(a.action_id);
        assert(unfinished@.take(i + 1).drop_last() =~= unfinished@.take(i as int));
        assert(unfinished@.take(i + 1).last() == unfinished@[i as int]);
        proof {
            reveal(Seq::filter);
        }
        if !contains_id(remote, unfinished[i].action_id) {
            out.push(unfinished[i].duplicate());
        }
        i = i + 1;
    }
    assert(unfinished@.take(unfinished@.len() as int) =~= unfinished@);
    out
}

/// What to do with an unfinished action of core that the agent did not report.
#[derive(PartialEq, Eq, Structural, Clone, Copy, Debug)]
pub enum CoreActionStep {
    /// Schedule the pending action with the agent.
    Schedule,
    /// The running action is no longer known to the agent: it is lost.
    MarkLost,
    /// Nothing to do.
    Skip,
}

/// Plan for an unfinished action of core that the agent did not report.
#[derive(PartialEq, Eq, Structural, Clone, Copy, Debug)]
pub struct CoreActionPlan {
    /// Keep the action in the new cluster view (pending actions).
    pub track: bool,
    /// What to do with the action.
    pub step: CoreActionStep,
}

/// The plan for an unreported core action in the given state.
pub open spec fn spec_core_action_plan(state: ActionState) -> CoreActionPlan {
    CoreActionPlan {
        track: state is PendingApprove || state is PendingSchedule,
        step: if state is PendingSchedule {
            CoreActionStep::Schedule
        } else if spec_is_running(state) {
            CoreActionStep::MarkLost
        } else {
            CoreActionStep::Skip
        },
    }
}

/// Decide how to sync a single action from core to an agent.
pub fn core_action_plan(state: ActionState) -> (r: CoreActionPlan)
    ensures
        r == spec_core_action_plan(state),
{
    let track = match state {
        ActionState::PendingApprove | ActionState::PendingSchedule => true,
        _ => false,
    };
    let step = if state.is_pending_schedule() {
        CoreActionStep::Schedule
    } else if state.is_running() {
        CoreActionStep::MarkLost
    } else {
        CoreActionStep::Skip
    };
    CoreActionPlan { track, step }
}

/// The sync summary of an action record.
pub open spec fn spec_summary(a: NodeAction) -> ActionSyncSummary {
    ActionSyncSummary {
        cluster_id: a.cluster_id,
        node_id: a.node_id,
        action_id: a.action_id,
        state: a.state,
    }
}

/// How an action reported by an agent differs from the record of core.
#[derive(Debug)]
pub enum ActionChange {
    /// Core had no record of the action.
    New,
    /// The action changed; the previous record is attached.
    Changed(NodeAction),
}

/// Plan to sync an action reported by an agent: the events to emit, the cluster
/// view entry to add and the record to persist.
#[derive(Debug)]
pub struct AgentActionSync {
    /// The record to emit events about and to persist.
    pub action: NodeAction,
    /// The new or changed event to emit.
    pub change: ActionChange,
    /// Whether to emit an action finished event.
    pub emit_finished: bool,
    /// The summary to add to the new cluster view, for unfinished actions.
    pub track: Option<ActionSyncSummary>,
}

/// What syncing an agent's action does, given the agent's and core's records.
pub open spec fn spec_agent_action_sync(agent: Option<NodeAction>, db: Option<NodeAction>, r: Option<AgentActionSync>) -> bool {
    match agent {
        None => r is None,
        Some(a) => match db {
            Some(d) if d.finished_ts is Some || a.same(&d) => r is None,
            _ => match r {
                None => false,
                Some(plan) => {
                    &&& plan.action == a
                    &&& match db {
                        None => plan.change is New,
                        Some(d) => plan.change == ActionChange::Changed(d),
                    }
                    &&& plan.emit_finished == (a.finished_ts is Some)
                    &&& plan.track == (if a.finished_ts is None {
                        Some(spec_summary(a))
                    } else {
                        None
                    })
                },
            },
        },
    }
}

/// Decide how to sync a single action from an agent to core.
///
/// `agent` is `None` when the agent no longer knows the action; `db` is the
/// record of core, if any. Actions finished in core and unchanged actions are
/// skipped.
pub fn agent_action_sync(agent: Option<NodeAction>, db: Option<NodeAction>) -> (r: Option<AgentActionSync>)
    ensures
        spec_agent_action_sync(agent, db, r),
{
    let action = match agent {
        None => return None,
        Some(a) => a,
    };
    let change = match db {
        None => ActionChange::New,
        Some(d) => {
            if d.finished_ts.is_some() || action.equals(&d) {
                return None;
            }
            ActionChange::Changed(d)
        },
    };
    let emit_finished = action.finished_ts.is_some();
    let track = if action.finished_ts.is_none() {
        Some(action.summary())
    } else {
        None
    };
    Some(AgentActionSync { action, change, emit_finished, track })
}

/// What an agent answered when asked about one of its actions.
#[derive(Debug)]
pub enum ActionInfoLookup {
    /// The agent's record of the action.
    Found(NodeAction),
    /// The agent does not know the action.
    NotFound,
    /// The agent could not be asked, or failed to answer.
    Failed,
}

/// The agent's record of an action, given what the agent answered: an action
/// the agent does not know is skipped (`None`, so nothing is synced), and any
/// other failure reports the agent as down while fetching action info.
pub fn action_info_step(lookup: ActionInfoLookup, node_id: &str) -> (r: Result<Option<NodeAction>>)
    ensures
        match lookup {
            ActionInfoLookup::Found(a) => r matches Ok(Some(x)) && x == a,
            ActionInfoLookup::NotFound => r matches Ok(None),
            ActionInfoLookup::Failed => r matches Err(e) && e.spec_kind() matches ErrorKind::AgentDown(w, n)
                && w@ == "action info"@ && n@ == node_id@,
        },
{
    match lookup {
        ActionInfoLookup::Found(a) => Ok(Some(a)),
        ActionInfoLookup::NotFound => Ok(None),
        ActionInfoLookup::Failed => {
            proof {
                reveal_strlit("action info");
            }
            Err(Error::from_kind(ErrorKind::AgentDown("action info", String::from_str(node_id))))
        },
    }
}

/// Actions finished in core are final: syncing them again does nothing. An
/// action synced from the agent is not synced again until it changes: once its
/// record is persisted, the same report is skipped.
pub proof fn law_synced_actions_are_not_synced_again(
    agent: NodeAction,
    db: NodeAction,
    r: Option<AgentActionSync>,
    again: Option<AgentActionSync>,
)
    requires
        spec_agent_action_sync(Some(agent), Some(db), r),
        spec_agent_action_sync(Some(agent), Some(agent), again),
    ensures
        db.finished_ts is Some ==> r is None,
        again is None,
{
    lemma_same_action_reflexive(agent);
}

/// An unfinished action in core whose record differs from the agent's in its
/// progress payload is synced: the agent's record is persisted as a change of
/// the core record.
pub proof fn law_unfinished_actions_with_new_payload_are_synced(agent: NodeAction, db: NodeAction, r: Option<AgentActionSync>)
    requires
        spec_agent_action_sync(Some(agent), Some(db), r),
        db.finished_ts is None,
        !equal_texts(agent.state_payload, db.state_payload),
    ensures
        r matches Some(plan) && plan.action == agent && plan.change == ActionChange::Changed(db),
{
    if agent.same(&db) {
        law_same_actions_agree_on_every_field(agent, db);
    }
}

/// Every action record is the same as itself.
proof fn lemma_same_action_reflexive(a: NodeAction)
    ensures
        a.same(&a),
{
}

/// The action to mark as lost, if core has a record of it, finished as lost at `now`.
pub fn lost_action(found: Option<NodeAction>, now: i64) -> (r: Option<NodeAction>)
    ensures
        match found {
            None => r is None,
            Some(a) => r == Some(NodeAction { state: ActionState::Lost, finished_ts: Some(now), ..a }),
        },
{
    match found {
        None => None,
        Some(a) => {
            let mut a = a;
            a.finish(ActionState::Lost, now);
            Some(a)
        },
    }
}

/// The action to schedule, or the error for an action whose details are missing.
pub fn action_to_schedule(found: Option<NodeAction>, namespace: &str, cluster_id: &str, action_id: ActionId) -> (r: Result<NodeAction>)
    ensures
        match found {
            Some(a) => r == Ok::<NodeAction, Error>(a),
            None => r matches Err(e) && e.spec_kind() matches ErrorKind::ExpectedActionNotFound(n, c, id)
                && n@ == namespace@ && c@ == cluster_id@ && id == action_id,
        },
{
    match found {
        Some(a) => Ok(a),
        None => Err(Error::from_kind(ErrorKind::ExpectedActionNotFound(
            String::from_str(namespace),
            String::from_str(cluster_id),
            action_id,
        ))),
    }
}

/// The request that schedules an action with an agent.
#[derive(Debug)]
pub struct ScheduleRequest {
    pub action_id: ActionId,
    pub args: String,
    pub created_ts: i64,
    pub headers: Vec<(String, String)>,
    pub kind: String,
    pub requester: String,
}

/// Build the request that schedules an action with its agent.
pub fn schedule_request(action: &NodeAction) -> (r: ScheduleRequest)
    ensures
        r.action_id == action.action_id,
        r.args == action.args,
        r.created_ts == action.created_ts,
        r.headers@ == action.headers@,
        r.kind == action.kind,
        r.requester == action.requester,
{
    let mut headers: Vec<(String, String)> = Vec::new();
    let mut i: usize = 0;
    while i < action.headers.len()
        invariant
            0 <= i <= action.headers@.len(),
            headers@ == action.headers@.take(i as int),
        decreases action.headers@.len() - i,
    {
        let (k, v) = &action.headers[i];
        headers.push((k.clone(), v.clone()));
        assert(headers@ =~= action.headers@.take(i + 1));
        i = i + 1;
    }
    assert(action.headers@.take(action.headers@.len() as int) =~= action.headers@);
    ScheduleRequest {
        action_id: action.action_id,
        args: action.args.clone(),
        created_ts: action.created_ts,
        headers,
        kind: action.kind.clone(),
        requester: action.requester.clone(),
    }
}

/// What the agent answered to a schedule request.
#[derive(Debug)]
pub enum ScheduleResult {
    /// The agent accepted the action.
    Scheduled,
    /// The agent already knew the action.
    Duplicate,
    /// The request failed; the attached text describes the failure (JSON).
    Failed(String),
}

/// What to do after a schedule attempt: the record to persist and the result.
#[derive(Debug)]
pub struct ScheduleOutcome {
    /// The updated record to persist, if anything changed.
    pub persist: Option<NodeAction>,
    /// The result of the schedule attempt.
    pub result: Result<()>,
}

/// The record after a failed schedule attempt: one more attempt, the failure as
/// payload, and finished as failed once the attempts exceed the maximum.
pub open spec fn after_failed_attempt(a: NodeAction, payload: String, now: i64) -> NodeAction {
    let attempt = (a.schedule_attempt + 1) as i32;
    let tried = NodeAction { schedule_attempt: attempt, state_payload: Some(payload), ..a };
    if attempt > MAX_SCHEDULE_ATTEMPTS {
        NodeAction { state: ActionState::Failed, finished_ts: Some(now), ..tried }
    } else {
        tried
    }
}

/// What handling a schedule attempt does.
pub open spec fn spec_schedule_outcome(a: NodeAction, result: ScheduleResult, node_id: Seq<char>, now: i64, r: ScheduleOutcome) -> bool {
    match result {
        ScheduleResult::Failed(payload) => {
            &&& r.persist == Some(after_failed_attempt(a, payload, now))
            &&& r.result matches Err(e) && e.spec_kind() matches ErrorKind::AgentDown(w, n)
                && w@ == "action request"@ && n@ == node_id
        },
        _ => {
            &&& r.result is Ok
            &&& r.persist == (if a.schedule_attempt != 0 {
                Some(NodeAction { schedule_attempt: 0, state_payload: None, ..a })
            } else {
                None
            })
        },
    }
}

/// Handle the answer to a schedule request.
///
/// On success the state of the action is not updated so the next sync can do
/// it: this retries schedule attempts that appear successful but are not. A
/// successful attempt resets the attempt counter. A failed attempt is recorded
/// and, after too many, the action is given up on.
pub fn schedule_outcome(action: NodeAction, result: ScheduleResult, node_id: &str, now: i64) -> (r: ScheduleOutcome)
    requires
        result is Failed ==> action.schedule_attempt < i32::MAX,
    ensures
        spec_schedule_outcome(action, result, node_id@, now, r),
{
    match result {
        ScheduleResult::Failed(payload) => {
            let mut action = action;
            action.schedule_attempt = action.schedule_attempt + 1;
            action.state_payload = Some(payload);
            if action.schedule_attempt > MAX_SCHEDULE_ATTEMPTS {
                action.finish(ActionState::Failed, now);
            }
            let error = Error::from_kind(ErrorKind::AgentDown("action request", String::from_str(node_id)));
            proof {
                reveal_strlit("action request");
            }
            ScheduleOutcome { persist: Some(action), result: Err(error) }
        },
        _ => {
            if action.schedule_attempt != 0 {
                let mut action = action;
                action.schedule_attempt = 0;
                action.state_payload = None;
                ScheduleOutcome { persist: Some(action), result: Ok(()) }
            } else {
                ScheduleOutcome { persist: None, result: Ok(()) }
            }
        },
    }
}

/// The next thing to do while syncing the actions of a node.
#[derive(Debug)]
pub enum ActionsSyncStep {
    /// Sync the action with this ID, reported by the agent.
    Agent(ActionId),
    /// Sync this unfinished action of core that the agent did not report.
    Core(ActionSyncSummary, CoreActionPlan),
    /// Nothing left to sync.
    Done,
}

/// Progress of the actions sync of one node: first the actions reported by the
/// agent, then the unfinished actions of core that the agent did not report.
pub struct ActionsSync {
    remote: Vec<ActionId>,
    core: Vec<ActionSyncSummary>,
    next_remote: usize,
    next_core: usize,
}

impl ActionsSync {
    /// The IDs reported by the agent, each once.
    pub closed spec fn spec_remote(&self) -> Seq<ActionId> {
        self.remote@
    }

    /// The unfinished actions of core that the agent did not report.
    pub closed spec fn spec_core(&self) -> Seq<ActionSyncSummary> {
        self.core@
    }

    /// How many agent actions were handed out.
    pub closed spec fn spec_next_remote(&self) -> nat {
        self.next_remote as nat
    }

    /// How many core actions were handed out.
    pub closed spec fn spec_next_core(&self) -> nat {
        self.next_core as nat
    }

    /// The positions stay within the lists, and core actions come after agent ones.
    pub closed spec fn wf(&self) -> bool {
        &&& self.next_remote <= self.remote@.len()
        &&& self.next_core <= self.core@.len()
        &&& self.next_core > 0 ==> self.next_remote == self.remote@.len()
    }

    /// Start the sync of a node from the IDs listed by its agent (queued, then
    /// finished) and the unfinished actions of core for the node.
    pub fn new(queue: &Vec<ActionId>, finished: &Vec<ActionId>, unfinished: &Vec<ActionSyncSummary>) -> (r: ActionsSync)
        ensures
            r.wf(),
            r.spec_remote() == first_occurrences(queue@ + finished@),
            r.spec_core() == unreported(unfinished@, first_occurrences(queue@ + finished@)),
            r.spec_next_remote() == 0,
            r.spec_next_core() == 0,
    {
        let remote = remote_ids(queue, finished);
        let core = unreported_actions(unfinished, &remote);
        ActionsSync { remote, core, next_remote: 0, next_core: 0 }
    }

    /// Hand out the next action to sync.
    pub fn next_step(&mut self) -> (r: ActionsSyncStep)
        requires
            old(self).wf(),
        ensures
            final(self).wf(),
            final(self).spec_remote() == old(self).spec_remote(),
            final(self).spec_core() == old(self).spec_core(),
            old(self).spec_next_remote() < old(self).spec_remote().len() ==> {
                &&& r == ActionsSyncStep::Agent(old(self).spec_remote()[old(self).spec_next_remote() as int])
                &&& final(self).spec_next_remote() == old(self).spec_next_remote() + 1
                &&& final(self).spec_next_core() == old(self).spec_next_core()
            },
            old(self).spec_next_remote() == old(self).spec_remote().len() && old(self).spec_next_core()
                < old(self).spec_core().len() ==> {
                let a = old(self).spec_core()[old(self).spec_next_core() as int];
                &&& r == ActionsSyncStep::Core(a, spec_core_action_plan(a.state))
                &&& final(self).spec_next_remote() == old(self).spec_next_remote()
                &&& final(self).spec_next_core() == old(self).spec_next_core() + 1
            },
            old(self).spec_next_remote() == old(self).spec_remote().len() && old(self).spec_next_core()
                == old(self).spec_core().len() ==> {
                &&& r is Done
                &&& final(self).spec_next_remote() == old(self).spec_next_remote()
                &&& final(self).spec_next_core() == old(self).spec_next_core()
            },
    {
        if self.next_remote < self.remote.len() {
            let id = self.remote[self.next_remote];
            self.next_remote = self.next_remote + 1;
            return ActionsSyncStep::Agent(id);
        }
        if self.next_core < self.core.len() {
            let action = self.core[self.next_core].duplicate();
            self.next_core = self.next_core + 1;
            let plan = core_action_plan(action.state);
            return ActionsSyncStep::Core(action, plan);
        }
        ActionsSyncStep::Done
    }
}

/// The agent reports every ID once, and no action is synced both as an agent
/// action and as a core action: the core actions are exactly the unfinished ones
/// whose IDs the agent did not report.
pub proof fn law_actions_sync_partitions(
    queue: Seq<ActionId>,
    finished: Seq<ActionId>,
    unfinished: Seq<ActionSyncSummary>,
)
    ensures
        no_duplicates(first_occurrences(queue + finished)),
        forall|x: ActionId| #[trigger] first_occurrences(queue + finished).contains(x) <==> (queue
            + finished).contains(x),
        forall|a: ActionSyncSummary| #[trigger] unreported(unfinished, first_occurrences(queue + finished)).contains(a)
            <==> (unfinished.contains(a) && !(queue + finished).contains(a.action_id)),
{
    let all = queue + finished;
    lemma_first_occurrences_unique(all);
    lemma_first_occurrences_same_items(all);
    let remote = first_occurrences(all);
    let pred = |a: ActionSyncSummary| !remote.contains(a.action_id);
    broadcast use vstd::seq_lib::group_filter_ensures;
    assert forall|a: ActionSyncSummary| #[trigger] unreported(unfinished, remote).contains(a) <==> (
    unfinished.contains(a) && !all.contains(a.action_id)) by {
        if unfinished.contains(a) && !all.contains(a.action_id) {
            let i = choose|i: int| 0 <= i < unfinished.len() && unfinished[i] == a;
            unfinished.lemma_filter_contains(pred, i);
        }
        if unreported(unfinished, remote).contains(a) {
            let f = unfinished.filter(pred);
            let i = choose|i: int| 0 <= i < f.len() && f[i] == a;
            unfinished.lemma_filter_pred(pred, i);
            unfinished.lemma_filter_contains_rev(pred, a);
        }
    }
}

} // verus!
