use replicante_core::fetcher::error::Error;
use replicante_core::fetcher::error::ErrorKind;
use replicante_core::fetcher::error::SchedChoiceError;
use replicante_core::fetcher::identity::ClusterIdentityChecker;
use replicante_core::fetcher::model::ActionState;
use replicante_core::fetcher::model::ActionSyncSummary;
use replicante_core::fetcher::model::Agent;
use replicante_core::fetcher::model::AgentInfo;
use replicante_core::fetcher::model::AgentStatus;
use replicante_core::fetcher::model::CommitOffset;
use replicante_core::fetcher::model::CommitUnit;
use replicante_core::fetcher::model::Node;
use replicante_core::fetcher::model::Shard;
use replicante_core::fetcher::model::ShardRole;
use replicante_core::fetcher::scheduling::choose_scheduling;
use replicante_core::fetcher::scheduling::OrchestratorActionScheduleMode;
use replicante_core::fetcher::scheduling::OrchestratorActionState;
use replicante_core::fetcher::scheduling::OrchestratorActionSummary;
use replicante_core::fetcher::scheduling::SchedChoiceReason;
use replicante_core::fetcher::scheduling::SchedulingView;
use replicante_core::fetcher::sync::agent_info_sync;
use replicante_core::fetcher::sync::agent_sync;
use replicante_core::fetcher::sync::node_sync;
use replicante_core::fetcher::sync::shard_changed;
use replicante_core::fetcher::sync::shard_sync;
use replicante_core::fetcher::sync::target_status;
use replicante_core::fetcher::sync::AgentEvent;
use replicante_core::fetcher::sync::AgentInfoEvent;
use replicante_core::fetcher::sync::FetchRound;
use replicante_core::fetcher::sync::FetchStep;
use replicante_core::fetcher::sync::NodeEvent;
use replicante_core::fetcher::sync::ShardEvent;

fn agent(status: AgentStatus) -> Agent {
    Agent { cluster_id: "c".into(), host: "http://a:1".into(), status }
}

fn node(display: Option<&str>, cluster: &str) -> Node {
    Node {
        cluster_display_name: display.map(String::from),
        cluster_id: cluster.into(),
        kind: "mongodb".into(),
        node_id: "n1".into(),
        version: "4.0".into(),
    }
}

fn shard(role: ShardRole, offset: i64) -> Shard {
    Shard {
        cluster_id: "c".into(),
        commit_offset: Some(CommitOffset { unit: CommitUnit::Seconds, value: offset }),
        lag: None,
        node_id: "n1".into(),
        role,
        shard_id: "s1".into(),
    }
}

#[test]
fn new_agent_is_announced_with_synthetic_transition() {
    let plan = agent_sync(agent(AgentStatus::Up), None);
    assert_eq!(plan.persist, Some("new agent"));
    assert_eq!(plan.events.len(), 2);
    assert!(matches!(&plan.events[0], AgentEvent::New(a) if a.status == AgentStatus::Up));
    match &plan.events[1] {
        AgentEvent::Transition(before, after) => {
            assert_eq!(before.status, AgentStatus::AgentDown("Newly discovered agent".into()));
            assert_eq!(after.status, AgentStatus::Up);
        }
        other => panic!("unexpected event {:?}", other),
    }
}

#[test]
fn known_agent_transitions_only_on_status_change() {
    let plan = agent_sync(agent(AgentStatus::Up), Some(agent(AgentStatus::Up)));
    assert!(plan.events.is_empty());
    assert_eq!(plan.persist, None);
    let plan = agent_sync(agent(AgentStatus::NodeDown("x".into())), Some(agent(AgentStatus::Up)));
    assert_eq!(plan.events.len(), 1);
    assert_eq!(plan.persist, Some("agent update"));
    let mut moved = agent(AgentStatus::Up);
    moved.cluster_id = "other".into();
    let plan = agent_sync(moved, Some(agent(AgentStatus::Up)));
    assert!(plan.events.is_empty());
    assert_eq!(plan.persist, Some("agent update"));
}

#[test]
fn agent_info_changes_are_announced_not_persisted() {
    let info = AgentInfo {
        cluster_id: "c".into(),
        host: "h".into(),
        version_checkout: "abc".into(),
        version_number: "1.0".into(),
        version_taint: "clean".into(),
    };
    let plan = agent_info_sync(info.clone(), None);
    assert_eq!(plan.persist, Some("new agent info"));
    assert!(matches!(&plan.events[..], [AgentInfoEvent::New(_)]));
    let mut newer = info.clone();
    newer.version_number = "1.1".into();
    let plan = agent_info_sync(newer, Some(info.clone()));
    assert_eq!(plan.persist, None);
    assert!(matches!(&plan.events[..], [AgentInfoEvent::Changed(_, _)]));
    let plan = agent_info_sync(info.clone(), Some(info));
    assert!(plan.events.is_empty());
}

#[test]
fn nodes_are_checked_and_always_persisted() {
    let mut checker = ClusterIdentityChecker::new("c".into(), None);
    let plan = node_sync(node(Some("Prod"), "c"), None, &mut checker).expect("node accepted");
    assert_eq!(plan.persist, Some("new node"));
    assert!(matches!(&plan.events[..], [NodeEvent::New(_)]));
    let plan = node_sync(node(Some("Prod"), "c"), Some(node(Some("Prod"), "c")), &mut checker).expect("node accepted");
    assert_eq!(plan.persist, Some("node update"));
    assert!(plan.events.is_empty());
    let plan = node_sync(node(None, "c"), Some(node(Some("Prod"), "c")), &mut checker).expect("node accepted");
    assert!(matches!(&plan.events[..], [NodeEvent::Changed(_, _)]));

    // The display name was adopted from the first node.
    match node_sync(node(Some("Staging"), "c"), None, &mut checker) {
        Err(error) => match error.kind() {
            ErrorKind::ClusterDisplayNameDoesNotMatch(expected, found, node) => {
                assert_eq!(expected, "Prod");
                assert_eq!(found, "Staging");
                assert_eq!(node, "n1");
            }
            other => panic!("unexpected error {:?}", other),
        },
        Ok(_) => panic!("display name mismatch accepted"),
    }
    match node_sync(node(None, "d"), None, &mut checker) {
        Err(error) => {
            assert!(matches!(error.kind(), ErrorKind::ClusterIdDoesNotMatch(_, _, _)));
            assert_eq!(
                error.describe(),
                "expected cluster ID 'c' but found 'd' for node with ID 'n1'"
            );
            assert!(matches!(error.agent_status(), Some(AgentStatus::AgentDown(_))));
        }
        Ok(_) => panic!("cluster ID mismatch accepted"),
    }
}

#[test]
fn shard_offsets_are_not_a_change() {
    let before = shard(ShardRole::Primary, 10);
    let after = shard(ShardRole::Primary, 20);
    assert!(!shard_changed(&after, &before));
    assert!(shard_changed(&shard(ShardRole::Secondary, 10), &before));
    let plan = shard_sync(after, Some(before.clone()));
    assert!(plan.events.is_empty());
    assert_eq!(plan.persist, Some("shard update"));
    let plan = shard_sync(shard(ShardRole::Secondary, 10), Some(before.clone()));
    assert!(matches!(&plan.events[..], [ShardEvent::AllocationChanged(_, _)]));
    let plan = shard_sync(before, None);
    assert_eq!(plan.persist, Some("new shard"));
    assert!(matches!(&plan.events[..], [ShardEvent::New(_)]));
}

#[test]
fn agent_status_from_processing_outcome() {
    assert_eq!(target_status(Ok(())).ok(), Some(AgentStatus::Up));
    let status = target_status(Err(Error::from_kind(ErrorKind::AgentConnect("http://a:1".into()))))
        .ok()
        .expect("agent error becomes a status");
    assert_eq!(status, AgentStatus::AgentDown("error connecting to agent http://a:1".into()));
    let status = target_status(Err(Error::from_kind(ErrorKind::DatastoreDown("datastore info", "a".into()))))
        .ok()
        .expect("datastore error becomes a status");
    assert_eq!(status, AgentStatus::NodeDown("error fetching/sending datastore info from/to agent a".into()));
    match target_status(Err(Error::from_kind(ErrorKind::PrimaryStoreWrite("agent")))) {
        Err(error) => assert!(matches!(error.kind(), ErrorKind::PrimaryStoreWrite(_))),
        Ok(_) => panic!("core errors must be propagated"),
    }
}

#[test]
fn fetch_round_stops_when_lock_is_lost() {
    let mut round = FetchRound::new("c".into(), vec!["a".into(), "b".into(), "c".into()]);
    assert!(matches!(round.next_step(true), FetchStep::Visit(a) if a == "a"));
    let record = round.agent_record("a", Ok(())).ok().expect("agent record");
    assert_eq!(record.status, AgentStatus::Up);
    assert_eq!(record.cluster_id, "c");
    assert!(matches!(round.next_step(false), FetchStep::LockLost));
    assert!(matches!(round.next_step(true), FetchStep::Visit(b) if b == "b"));
    assert!(matches!(round.next_step(true), FetchStep::Visit(c) if c == "c"));
    assert!(matches!(round.next_step(true), FetchStep::Done));
}

#[test]
fn error_names() {
    let error = Error::from_kind(ErrorKind::EventEmit("AGENT_NEW"));
    assert_eq!(error.name(), Some("EventEmit"));
    assert_eq!(error.describe(), "error emitting AGENT_NEW event");
    assert!(error.agent_status().is_none());
    let error = Error::from_kind(ErrorKind::ViewStoreRead("cluster"));
    assert_eq!(error.describe(), "error fetching cluster from the view store");
}

fn node_action(state: ActionState) -> ActionSyncSummary {
    ActionSyncSummary { cluster_id: "c".into(), node_id: "n".into(), action_id: 1, state }
}

fn registry() -> Vec<(String, OrchestratorActionScheduleMode)> {
    vec![(String::from("core.replicante.io/test.exclusive"), OrchestratorActionScheduleMode::Exclusive)]
}

#[test]
fn scheduling_with_idle_cluster_blocks_nothing() {
    let view = SchedulingView {
        namespace: "default".into(),
        cluster_id: "c".into(),
        node_actions: vec![node_action(ActionState::Done)],
        orchestrator_actions: Vec::new(),
    };
    let choice = choose_scheduling(&view, &registry()).ok().expect("choice");
    assert!(!choice.block_node);
    assert!(!choice.block_orchestrator_exclusive);
    assert!(choice.reasons.is_empty());
}

#[test]
fn scheduling_with_node_actions_blocks_exclusive_orchestration() {
    let view = SchedulingView {
        namespace: "default".into(),
        cluster_id: "c".into(),
        node_actions: vec![node_action(ActionState::PendingSchedule), node_action(ActionState::Running)],
        orchestrator_actions: vec![OrchestratorActionSummary {
            kind: "core.replicante.io/test.exclusive".into(),
            state: OrchestratorActionState::PendingSchedule,
        }],
    };
    let choice = choose_scheduling(&view, &registry()).ok().expect("choice");
    assert!(!choice.block_node);
    assert!(choice.block_orchestrator_exclusive);
    assert_eq!(
        choice.reasons,
        vec![
            SchedChoiceReason::FoundNodePending,
            SchedChoiceReason::FoundNodeRunning,
            SchedChoiceReason::FoundOrchestratorExclusivePending,
        ]
    );
}

#[test]
fn scheduling_with_running_exclusive_action_blocks_all() {
    let view = SchedulingView {
        namespace: "default".into(),
        cluster_id: "c".into(),
        node_actions: Vec::new(),
        orchestrator_actions: vec![OrchestratorActionSummary {
            kind: "core.replicante.io/test.exclusive".into(),
            state: OrchestratorActionState::Running,
        }],
    };
    let choice = choose_scheduling(&view, &registry()).ok().expect("choice");
    assert!(choice.block_node);
    assert!(choice.block_orchestrator_exclusive);
    assert_eq!(choice.reasons, vec![SchedChoiceReason::FoundOrchestratorExclusiveRunning]);
}

#[test]
fn scheduling_with_unknown_orchestrator_action_fails() {
    let view = SchedulingView {
        namespace: "default".into(),
        cluster_id: "c".into(),
        node_actions: Vec::new(),
        orchestrator_actions: vec![OrchestratorActionSummary {
            kind: "unknown.kind".into(),
            state: OrchestratorActionState::Running,
        }],
    };
    match choose_scheduling(&view, &registry()) {
        Err(error) => {
            let SchedChoiceError::OrchestratorActionNotFound(kind, ns, cluster) = &error;
            assert_eq!(kind, "unknown.kind");
            assert_eq!(ns, "default");
            assert_eq!(cluster, "c");
            assert_eq!(error.describe(), "unknown orchestrator action unknown.kind in cluster default.c");
        }
        Ok(_) => panic!("unknown kind accepted"),
    }
}
