use replicante_core::fetcher::actions::action_info_step;
use replicante_core::fetcher::actions::action_to_schedule;
use replicante_core::fetcher::actions::ActionInfoLookup;
use replicante_core::fetcher::actions::agent_action_sync;
use replicante_core::fetcher::actions::core_action_plan;
use replicante_core::fetcher::actions::lost_action;
use replicante_core::fetcher::actions::remote_ids;
use replicante_core::fetcher::actions::schedule_outcome;
use replicante_core::fetcher::actions::schedule_request;
use replicante_core::fetcher::actions::unreported_actions;
use replicante_core::fetcher::actions::ActionChange;
use replicante_core::fetcher::actions::ActionsSync;
use replicante_core::fetcher::actions::ActionsSyncStep;
use replicante_core::fetcher::actions::CoreActionStep;
use replicante_core::fetcher::actions::ScheduleRequest;
use replicante_core::fetcher::actions::ScheduleResult;
use replicante_core::fetcher::actions::MAX_SCHEDULE_ATTEMPTS;
use replicante_core::fetcher::error::ErrorKind;
use replicante_core::fetcher::model::ActionId;
use replicante_core::fetcher::model::ActionState;
use replicante_core::fetcher::model::ActionSyncSummary;
use replicante_core::fetcher::model::NodeAction;

fn uuid(text: &str) -> ActionId {
    uuid::Uuid::parse_str(text).expect("valid UUID").as_u128()
}

fn uuid1() -> ActionId {
    uuid("a7514ce6-48f4-4f9d-bb22-78cbfc37c664")
}
fn uuid2() -> ActionId {
    uuid("9084aec4-2234-4b9b-8a5d-aac914127255")
}
fn uuid3() -> ActionId {
    uuid("be6ddf09-5c16-4be4-84dd-d03586eb1fc3")
}
fn uuid4() -> ActionId {
    uuid("390ef9ab-ce0e-468e-977d-65873274c448")
}
fn uuid5() -> ActionId {
    uuid("e5a023c6-78a3-4eb0-bc8f-6c5d057964ef")
}
fn uuid6() -> ActionId {
    uuid("b9754ca6-824f-4796-8982-583888d2de19")
}

const NOW: i64 = 1_600_000_000_000;

fn mock_agent_action(id: ActionId, finished: bool) -> NodeAction {
    NodeAction {
        action_id: id,
        args: String::from("{}"),
        cluster_id: String::from("test"),
        created_ts: NOW - 1000,
        finished_ts: if finished { Some(NOW - 10) } else { None },
        headers: Vec::new(),
        kind: String::from("action"),
        node_id: String::from("node"),
        requester: String::from("AgentApi"),
        schedule_attempt: 0,
        scheduled_ts: Some(NOW - 500),
        state: if finished { ActionState::Done } else { ActionState::New },
        state_payload: None,
    }
}

fn summary(id: ActionId, state: ActionState) -> ActionSyncSummary {
    ActionSyncSummary {
        cluster_id: "test".into(),
        node_id: "node".into(),
        action_id: id,
        state,
    }
}

/// Primary store records, by action ID.
#[derive(Default)]
struct Store {
    actions: Vec<NodeAction>,
}

impl Store {
    fn get(&self, id: ActionId) -> Option<NodeAction> {
        self.actions.iter().find(|a| a.action_id == id).cloned()
    }

    fn persist(&mut self, action: NodeAction) {
        self.actions.retain(|a| a.action_id != action.action_id);
        self.actions.push(action);
    }
}

/// What an agent reports and receives.
#[derive(Default)]
struct AgentMock {
    actions: Vec<NodeAction>,
    queue: Vec<ActionId>,
    finished: Vec<ActionId>,
    scheduled: Vec<ScheduleRequest>,
}

impl AgentMock {
    fn info(&self, id: ActionId) -> Option<NodeAction> {
        self.actions.iter().find(|a| a.action_id == id).cloned()
    }
}

/// Sync one agent action into the store, returning the summary to track, if any.
fn sync_agent_action(agent: &AgentMock, store: &mut Store, id: ActionId) -> Option<ActionSyncSummary> {
    let plan = agent_action_sync(agent.info(id), store.get(id))?;
    let track = plan.track.clone();
    store.persist(plan.action);
    track
}

/// Run the actions sync of the node, returning the summaries followed in the new view.
fn sync(agent: &mut AgentMock, store: &mut Store, unfinished: Vec<ActionSyncSummary>) -> Vec<ActionSyncSummary> {
    let mut followed = Vec::new();
    let mut run = ActionsSync::new(&agent.queue, &agent.finished, &unfinished);
    loop {
        match run.next_step() {
            ActionsSyncStep::Agent(id) => {
                if let Some(t) = sync_agent_action(agent, store, id) {
                    followed.push(t);
                }
            }
            ActionsSyncStep::Core(action, plan) => {
                if plan.track {
                    followed.push(action.clone());
                }
                match plan.step {
                    CoreActionStep::Schedule => {
                        let found = action_to_schedule(store.get(action.action_id), "default", "test", action.action_id)
                            .expect("action to schedule");
                        agent.scheduled.push(schedule_request(&found));
                        let outcome = schedule_outcome(found, ScheduleResult::Scheduled, "node", NOW);
                        if let Some(a) = outcome.persist {
                            store.persist(a);
                        }
                        assert!(outcome.result.is_ok());
                    }
                    CoreActionStep::MarkLost => {
                        if let Some(a) = lost_action(store.get(action.action_id), NOW) {
                            store.persist(a);
                        }
                    }
                    CoreActionStep::Skip => (),
                }
            }
            ActionsSyncStep::Done => break,
        }
    }
    followed
}

#[test]
fn fetch_remote_ids() {
    let queue = vec![uuid1()];
    let finished = vec![uuid2(), uuid3()];
    let ids = remote_ids(&queue, &finished);
    assert_eq!(ids, vec![uuid1(), uuid2(), uuid3()]);
}

// This test cover the case of actions being finished between
// the call to /finish and the call to /queue.
#[test]
fn fetch_remote_ids_with_duplicate_actions() {
    let queue = vec![uuid3(), uuid2(), uuid1()];
    let finished = vec![uuid2(), uuid3(), uuid4()];
    let ids = remote_ids(&queue, &finished);
    assert_eq!(ids, vec![uuid3(), uuid2(), uuid1(), uuid4()]);
}

#[test]
fn sync_action_new() {
    let mut agent = AgentMock::default();
    let mut action = mock_agent_action(uuid1(), false);
    action.state = ActionState::New;
    agent.actions.push(action);
    let mut store = Store::default();
    sync_agent_action(&agent, &mut store, uuid1());
    let action = store.get(uuid1()).expect("expected action not found");
    assert_eq!(action.action_id, uuid1());
    assert_eq!(action.state, ActionState::New);
}

#[test]
fn sync_action_update() {
    let mut action = mock_agent_action(uuid1(), false);
    action.state = ActionState::New;
    let mut store = Store::default();
    store.persist(action.clone());
    let mut agent = AgentMock::default();
    action.state = ActionState::Running;
    agent.actions.push(action);
    sync_agent_action(&agent, &mut store, uuid1());
    let action = store.get(uuid1()).expect("expected action not found");
    assert_eq!(action.action_id, uuid1());
    assert_eq!(action.state, ActionState::Running);
}

#[test]
fn sync_lost_actions() {
    let mut store = Store::default();
    store.persist(mock_agent_action(uuid1(), true));
    store.persist(mock_agent_action(uuid2(), true));
    store.persist(mock_agent_action(uuid3(), false));
    store.persist(mock_agent_action(uuid4(), false));
    let mut agent = AgentMock::default();
    let view = vec![
        summary(uuid1(), ActionState::Done),
        summary(uuid2(), ActionState::Done),
        summary(uuid3(), ActionState::New),
        summary(uuid4(), ActionState::New),
    ];
    sync(&mut agent, &mut store, view);
    assert_eq!(store.get(uuid1()).expect("action to be in store").state, ActionState::Done);
    assert_eq!(store.get(uuid2()).expect("action to be in store").state, ActionState::Done);
    assert_eq!(store.get(uuid3()).expect("action to be in store").state, ActionState::Lost);
    assert_eq!(store.get(uuid4()).expect("action to be in store").state, ActionState::Lost);
}

#[test]
fn sync_schedule_pending_actions() {
    let mut store = Store::default();
    let mut action = mock_agent_action(uuid1(), false);
    action.state = ActionState::PendingApprove;
    store.persist(action);
    let mut action = mock_agent_action(uuid2(), false);
    action.state = ActionState::PendingSchedule;
    store.persist(action);
    let mut agent = AgentMock::default();
    let view = vec![
        summary(uuid1(), ActionState::PendingApprove),
        summary(uuid2(), ActionState::PendingSchedule),
    ];
    sync(&mut agent, &mut store, view);
    assert_eq!(agent.scheduled.len(), 1);
    let request = agent.scheduled.get(0).expect("schedule action request");
    assert_eq!(request.action_id, uuid2());
    assert_eq!(request.kind, "action");
}

#[test]
fn track_unfinished_actions_in_cluster_view() {
    let mut store = Store::default();
    let mut action = mock_agent_action(uuid1(), false);
    action.state = ActionState::PendingApprove;
    store.persist(action);
    store.persist(mock_agent_action(uuid2(), true));
    let mut action = mock_agent_action(uuid3(), false);
    action.state = ActionState::PendingSchedule;
    store.persist(action);
    let mut action = mock_agent_action(uuid4(), false);
    action.state = ActionState::Running;
    store.persist(action);
    let mut action = mock_agent_action(uuid5(), false);
    action.state = ActionState::Running;
    store.persist(action);
    let view = vec![
        summary(uuid1(), ActionState::PendingApprove),
        summary(uuid3(), ActionState::PendingSchedule),
        summary(uuid4(), ActionState::Running),
        summary(uuid5(), ActionState::Running),
    ];

    let mut agent = AgentMock::default();
    agent.actions.push(mock_agent_action(uuid2(), true));
    agent.finished.push(uuid2());
    agent.actions.push(mock_agent_action(uuid4(), true));
    agent.finished.push(uuid4());
    let mut action = mock_agent_action(uuid6(), false);
    action.state = ActionState::Running;
    agent.actions.push(action);
    agent.queue.push(uuid6());

    let followed = sync(&mut agent, &mut store, view);
    assert_eq!(
        followed,
        vec![
            summary(uuid6(), ActionState::Running),
            summary(uuid1(), ActionState::PendingApprove),
            summary(uuid3(), ActionState::PendingSchedule),
        ]
    );
    assert_eq!(store.get(uuid5()).expect("action").state, ActionState::Lost);
    assert_eq!(store.get(uuid4()).expect("action").state, ActionState::Done);
}

#[test]
fn unreported_actions_skip_remote_ids() {
    let unfinished = vec![
        summary(uuid1(), ActionState::Running),
        summary(uuid2(), ActionState::New),
        summary(uuid3(), ActionState::PendingSchedule),
    ];
    let left = unreported_actions(&unfinished, &vec![uuid2(), uuid5()]);
    assert_eq!(left, vec![summary(uuid1(), ActionState::Running), summary(uuid3(), ActionState::PendingSchedule)]);
}

#[test]
fn core_action_plans() {
    let plan = core_action_plan(ActionState::PendingSchedule);
    assert!(plan.track);
    assert_eq!(plan.step, CoreActionStep::Schedule);
    let plan = core_action_plan(ActionState::PendingApprove);
    assert!(plan.track);
    assert_eq!(plan.step, CoreActionStep::Skip);
    let plan = core_action_plan(ActionState::New);
    assert!(!plan.track);
    assert_eq!(plan.step, CoreActionStep::MarkLost);
    let plan = core_action_plan(ActionState::Running);
    assert_eq!(plan.step, CoreActionStep::MarkLost);
    let plan = core_action_plan(ActionState::Failed);
    assert!(!plan.track);
    assert_eq!(plan.step, CoreActionStep::Skip);
}

#[test]
fn agent_action_skipped_when_finished_or_unchanged() {
    let finished = mock_agent_action(uuid1(), true);
    assert!(agent_action_sync(Some(finished.clone()), Some(finished.clone())).is_none());
    let running = mock_agent_action(uuid1(), false);
    assert!(agent_action_sync(Some(running.clone()), Some(running.clone())).is_none());
    // A record finished in core is never updated.
    assert!(agent_action_sync(Some(running.clone()), Some(finished.clone())).is_none());
    assert!(agent_action_sync(None, Some(running.clone())).is_none());
    // An action that finished on the agent is announced as finished and not followed.
    let plan = agent_action_sync(Some(finished.clone()), Some(running.clone())).expect("plan");
    assert!(plan.emit_finished);
    assert!(plan.track.is_none());
    match plan.change {
        ActionChange::Changed(before) => assert_eq!(before, running),
        ActionChange::New => panic!("expected a change"),
    }
}

#[test]
fn failed_schedule_attempts_are_counted_then_given_up() {
    let mut action = mock_agent_action(uuid1(), false);
    action.state = ActionState::PendingSchedule;
    let outcome = schedule_outcome(action.clone(), ScheduleResult::Failed(String::from("{\"error\":\"boom\"}")), "node-a", NOW);
    let persisted = outcome.persist.expect("attempt recorded");
    assert_eq!(persisted.schedule_attempt, 1);
    assert_eq!(persisted.state_payload, Some(String::from("{\"error\":\"boom\"}")));
    assert_eq!(persisted.state, ActionState::PendingSchedule);
    match outcome.result {
        Err(error) => match error.kind() {
            ErrorKind::AgentDown(what, node) => {
                assert_eq!(*what, "action request");
                assert_eq!(node, "node-a");
            }
            other => panic!("unexpected error {:?}", other),
        },
        Ok(()) => panic!("failed attempt reported as success"),
    }

    action.schedule_attempt = MAX_SCHEDULE_ATTEMPTS;
    let outcome = schedule_outcome(action.clone(), ScheduleResult::Failed(String::from("{}")), "node-a", NOW);
    let persisted = outcome.persist.expect("attempt recorded");
    assert_eq!(persisted.schedule_attempt, MAX_SCHEDULE_ATTEMPTS + 1);
    assert_eq!(persisted.state, ActionState::Failed);
    assert_eq!(persisted.finished_ts, Some(NOW));
}

#[test]
fn successful_schedule_resets_attempts() {
    let mut action = mock_agent_action(uuid1(), false);
    action.schedule_attempt = 3;
    action.state_payload = Some(String::from("{}"));
    let outcome = schedule_outcome(action.clone(), ScheduleResult::Duplicate, "node", NOW);
    assert!(outcome.result.is_ok());
    let persisted = outcome.persist.expect("reset recorded");
    assert_eq!(persisted.schedule_attempt, 0);
    assert_eq!(persisted.state_payload, None);
    action.schedule_attempt = 0;
    action.state_payload = None;
    let outcome = schedule_outcome(action, ScheduleResult::Scheduled, "node", NOW);
    assert!(outcome.result.is_ok());
    assert!(outcome.persist.is_none());
}

#[test]
fn missing_action_to_schedule_is_an_error() {
    match action_to_schedule(None, "default", "cluster", uuid1()) {
        Err(error) => {
            match error.kind() {
                ErrorKind::ExpectedActionNotFound(ns, cluster, id) => {
                    assert_eq!(ns, "default");
                    assert_eq!(cluster, "cluster");
                    assert_eq!(*id, uuid1());
                }
                other => panic!("unexpected error {:?}", other),
            }
            assert_eq!(
                error.describe(),
                "could not find details for action a7514ce6-48f4-4f9d-bb22-78cbfc37c664 in cluster default.cluster"
            );
        }
        Ok(_) => panic!("missing action found"),
    }
}

#[test]
fn lost_actions_are_finished() {
    let action = mock_agent_action(uuid1(), false);
    let lost = lost_action(Some(action), NOW).expect("lost action");
    assert_eq!(lost.state, ActionState::Lost);
    assert_eq!(lost.finished_ts, Some(NOW));
    assert!(lost_action(None, NOW).is_none());
}

#[test]
fn action_info_failures_report_the_agent_down() {
    let action = mock_agent_action(uuid1(), false);
    match action_info_step(ActionInfoLookup::Found(action.clone()), "node") {
        Ok(Some(found)) => assert_eq!(found, action),
        other => panic!("unexpected {:?}", other),
    }
    assert!(matches!(action_info_step(ActionInfoLookup::NotFound, "node"), Ok(None)));
    // An unknown action is skipped: nothing is synced for it.
    assert!(agent_action_sync(None, Some(action)).is_none());
    match action_info_step(ActionInfoLookup::Failed, "node") {
        Err(error) => match error.kind() {
            ErrorKind::AgentDown(what, node) => {
                assert_eq!(*what, "action info");
                assert_eq!(node, "node");
            }
            other => panic!("unexpected {:?}", other),
        },
        other => panic!("unexpected {:?}", other),
    }
}
