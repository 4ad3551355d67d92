//! Scheduling choices: which kinds of actions may start on a cluster, given the
//! actions that are already pending or running on it.
use vstd::prelude::*;

use super::error::SchedChoiceError;
use super::model::ActionSyncSummary;
use super::model::spec_is_running;

verus! {

/// How an orchestrator action is scheduled with respect to other actions.
#[derive(PartialEq, Eq, Structural, Clone, Copy, Debug)]
pub enum OrchestratorActionScheduleMode {
    /// The action can't run alongside any other action.
    Exclusive,
}

/// State of an orchestrator action.
#[derive(PartialEq, Eq, Structural, Clone, Copy, Debug)]
pub enum OrchestratorActionState {
    Cancelled,
    Done,
    Failed,
    PendingApprove,
    PendingSchedule,
    Running,
}

impl OrchestratorActionState {
    /// Whether the orchestrator action is running.
    pub fn is_running(&self) -> (r: bool)
        ensures
            r == (*self is Running),
    {
        match self {
            OrchestratorActionState::Running => true,
            _ => false,
        }
    }
}

/// Summary of an unfinished orchestrator action of a cluster.
#[derive(Debug)]
pub struct OrchestratorActionSummary {
    pub kind: String,
    pub state: OrchestratorActionState,
}

/// A reason for a scheduling choice.
#[derive(PartialEq, Eq, Structural, Clone, Copy, Debug)]
pub enum SchedChoiceReason {
    FoundNodePending,
    FoundNodeRunning,
    FoundOrchestratorExclusivePending,
    FoundOrchestratorExclusiveRunning,
}

/// Which actions may be scheduled on a cluster, and why.
#[derive(Debug)]
pub struct SchedChoice {
    /// Node actions may not be scheduled.
    pub block_node: bool,
    /// Exclusive orchestrator actions may not be scheduled.
    pub block_orchestrator_exclusive: bool,
    /// The reasons for the choice, in a fixed order.
    pub reasons: Vec<SchedChoiceReason>,
}

/// The cluster whose actions are inspected: its identity and unfinished actions.
#[derive(Debug)]
pub struct SchedulingView {
    pub namespace: String,
    pub cluster_id: String,
    /// Unfinished node actions, of all nodes.
    pub node_actions: Vec<ActionSyncSummary>,
    /// Unfinished orchestrator actions.
    pub orchestrator_actions: Vec<OrchestratorActionSummary>,
}

/// Whether `i` is the index of the first registry entry for `kind`.
pub open spec fn first_entry(registry: Seq<(String, OrchestratorActionScheduleMode)>, kind: Seq<char>, i: int) -> bool {
    &&& 0 <= i < registry.len()
    &&& registry[i].0@ == kind
    &&& forall|j: int| 0 <= j < i ==> (#[trigger] registry[j]).0@ != kind
}

/// The schedule mode the first registry entry for an orchestrator action kind gives it.
pub open spec fn registry_mode(registry: Seq<(String, OrchestratorActionScheduleMode)>, kind: Seq<char>) -> Option<OrchestratorActionScheduleMode> {
    if exists|i: int| first_entry(registry, kind, i) {
        Some(registry[choose|i: int| first_entry(registry, kind, i)].1)
    } else {
        None
    }
}

/// Look up the schedule mode of an orchestrator action kind.
pub fn lookup_mode(registry: &Vec<(String, OrchestratorActionScheduleMode)>, kind: &str) -> (r: Option<OrchestratorActionScheduleMode>)
    ensures
        r == registry_mode(registry@, kind@),
{
    let wanted = String::from_str(kind);
    let mut i: usize = 0;
    while i < registry.len()
        invariant
            0 <= i <= registry@.len(),
            wanted@ == kind@,
            forall|j: int| 0 <= j < i ==> (#[trigger] registry@[j]).0@ != kind@,
        decreases registry@.len() - i,
    {
        if registry[i].0 == wanted {
            assert(first_entry(registry@, kind@, i as int));
            let ghost c = choose|c: int| first_entry(registry@, kind@, c);
            assert(c == i) by {
                if c < i {
                    assert(registry@[c].0@ != kind@);
                } else if c > i {
                    assert(registry@[i as int].0@ != kind@);
                }
            }
            assert(registry_mode(registry@, kind@) == Some(registry@[i as int].1));
            return Some(registry[i].1);
        }
        i = i + 1;
    }
    assert(!exists|c: int| first_entry(registry@, kind@, c)) by {
        if exists|c: int| first_entry(registry@, kind@, c) {
            let c = choose|c: int| first_entry(registry@, kind@, c);
            assert(registry@[c].0@ != kind@);
        }
    }
    None
}

/// Whether a node action is pending schedule.
pub open spec fn node_pending(s: Seq<ActionSyncSummary>) -> bool {
    exists|i: int| 0 <= i < s.len() && (#[trigger] s[i]).state is PendingSchedule
}

/// Whether a node action is running.
pub open spec fn node_running(s: Seq<ActionSyncSummary>) -> bool {
    exists|i: int| 0 <= i < s.len() && spec_is_running((#[trigger] s[i]).state)
}

/// Whether all orchestrator actions have a kind the registry knows.
pub open spec fn all_registered(
    s: Seq<OrchestratorActionSummary>,
    registry: Seq<(String, OrchestratorActionScheduleMode)>,
) -> bool {
    forall|i: int| 0 <= i < s.len() ==> (#[trigger] registry_mode(registry, s[i].kind@)) is Some
}

/// Whether an exclusive orchestrator action is in a state that `in_state` selects.
pub open spec fn orchestrator_exclusive(
    s: Seq<OrchestratorActionSummary>,
    registry: Seq<(String, OrchestratorActionScheduleMode)>,
    pending: bool,
) -> bool {
    exists|i: int|
        0 <= i < s.len() && (if pending {
            (#[trigger] s[i]).state is PendingSchedule
        } else {
            s[i].state is Running
        }) && registry_mode(registry, s[i].kind@) == Some(OrchestratorActionScheduleMode::Exclusive)
}

/// The reasons for a choice, in their fixed order.
pub open spec fn choice_reasons(
    node_pending: bool,
    node_running: bool,
    orch_pending: bool,
    orch_running: bool,
) -> Seq<SchedChoiceReason> {
    let r0 = Seq::<SchedChoiceReason>::empty();
    let r1 = if node_pending { r0.push(SchedChoiceReason::FoundNodePending) } else { r0 };
    let r2 = if node_running { r1.push(SchedChoiceReason::FoundNodeRunning) } else { r1 };
    let r3 = if orch_pending { r2.push(SchedChoiceReason::FoundOrchestratorExclusivePending) } else { r2 };
    if orch_running { r3.push(SchedChoiceReason::FoundOrchestratorExclusiveRunning) } else { r3 }
}

/// Inspect the actions of a cluster to make scheduling choices.
///
/// Node actions are blocked while an exclusive orchestrator action runs;
/// exclusive orchestrator actions are blocked while any node action is pending
/// or running, or another exclusive orchestrator action runs. An orchestrator
/// action whose kind the registry does not know is an error: the first such
/// action is reported.
pub fn choose_scheduling(
    cluster: &SchedulingView,
    registry: &Vec<(String, OrchestratorActionScheduleMode)>,
) -> (r: Result<SchedChoice, SchedChoiceError>)
    ensures
        match r {
            Ok(choice) => {
                let np = node_pending(cluster.node_actions@);
                let nr = node_running(cluster.node_actions@);
                let op = orchestrator_exclusive(cluster.orchestrator_actions@, registry@, true);
                let orr = orchestrator_exclusive(cluster.orchestrator_actions@, registry@, false);
                &&& all_registered(cluster.orchestrator_actions@, registry@)
                &&& choice.block_node == orr
                &&& choice.block_orchestrator_exclusive == (np || nr || orr)
                &&& choice.reasons@ == choice_reasons(np, nr, op, orr)
            },
            Err(SchedChoiceError::OrchestratorActionNotFound(k, n, c)) => {
                &&& n@ == cluster.namespace@
                &&& c@ == cluster.cluster_id@
                &&& exists|i: int|
                    0 <= i < cluster.orchestrator_actions@.len() && k@ == (#[trigger] cluster.orchestrator_actions@[i]).kind@
                        && registry_mode(registry@, k@) is None
                        && all_registered(cluster.orchestrator_actions@.take(i), registry@)
            },
        },
{
    let mut any_node_pending = false;
    let mut any_node_running = false;
    let mut any_orchestrator_exclusive_pending = false;
    let mut any_orchestrator_exclusive_running = false;

    // Inspect node actions.
    let nodes = &cluster.node_actions;
    let mut i: usize = 0;
    while i < nodes.len()
        invariant
            0 <= i <= nodes@.len(),
            nodes@ == cluster.node_actions@,
            any_node_pending == node_pending(nodes@.take(i as int)),
            any_node_running == node_running(nodes@.take(i as int)),
        decreases nodes@.len() - i,
    {
        let ghost prev = nodes@.take(i as int);
        let ghost next = nodes@.take(i + 1);
        assert(forall|k: int| 0 <= k < i ==> next[k] == prev[k]);
        assert(next[i as int] == nodes@[i as int]);
        if nodes[i].state.is_pending_schedule() {
            any_node_pending = true;
        }
        if nodes[i].state.is_running() {
            any_node_running = true;
        }
        i = i + 1;
    }
    assert(nodes@.take(nodes@.len() as int) =~= nodes@);

    // Inspect orchestration actions.
    let actions = &cluster.orchestrator_actions;
    let mut j: usize = 0;
    while j < actions.len()
        invariant
            0 <= j <= actions@.len(),
            actions@ == cluster.orchestrator_actions@,
            all_registered(actions@.take(j as int), registry@),
            any_orchestrator_exclusive_pending == orchestrator_exclusive(actions@.take(j as int), registry@, true),
            any_orchestrator_exclusive_running == orchestrator_exclusive(actions@.take(j as int), registry@, false),
        decreases actions@.len() - j,
    {
        let ghost prev = actions@.take(j as int);
        let ghost next = actions@.take(j + 1);
        assert(forall|k: int| 0 <= k < j ==> next[k] == prev[k]);
        assert(next[j as int] == actions@[j as int]);
        let action = &actions[j];
        let mode = match lookup_mode(registry, action.kind.as_str()) {
            Some(mode) => mode,
            None => {
                let e = SchedChoiceError::orchestrator_action_not_found(
                    action.kind.as_str(),
                    cluster.namespace.as_str(),
                    cluster.cluster_id.as_str(),
                );
                assert(actions@[j as int] == *action);
                assert(registry_mode(registry@, action.kind@) is None);
                assert(all_registered(cluster.orchestrator_actions@.take(j as int), registry@));
                assert(0 <= j < cluster.orchestrator_actions@.len() && e->0@ == cluster.orchestrator_actions@[j as int].kind@);
                return Err(e);
            },
        };
        let is_exclusive = match mode {
            OrchestratorActionScheduleMode::Exclusive => true,
        };
        let is_pending = match action.state {
            OrchestratorActionState::PendingSchedule => true,
            _ => false,
        };
        let is_running = action.state.is_running();
        if is_pending && is_exclusive {
            any_orchestrator_exclusive_pending = true;
        }
        if is_running && is_exclusive {
            any_orchestrator_exclusive_running = true;
        }
        j = j + 1;
    }
    assert(actions@.take(actions@.len() as int) =~= actions@);

    // Make the scheduling choice.
    let mut reasons: Vec<SchedChoiceReason> = Vec::new();
    if any_node_pending {
        reasons.push(SchedChoiceReason::FoundNodePending);
    }
    if any_node_running {
        reasons.push(SchedChoiceReason::FoundNodeRunning);
    }
    if any_orchestrator_exclusive_pending {
        reasons.push(SchedChoiceReason::FoundOrchestratorExclusivePending);
    }
    if any_orchestrator_exclusive_running {
        reasons.push(SchedChoiceReason::FoundOrchestratorExclusiveRunning);
    }
    Ok(SchedChoice {
        block_node: any_orchestrator_exclusive_running,
        block_orchestrator_exclusive: any_node_pending || any_node_running || any_orchestrator_exclusive_running,
        reasons,
    })
}

} // verus!
