use replicante_core::coordinator::error::Error as CoordinatorError;
use replicante_core::coordinator::error::ErrorKind as CoordinatorErrorKind;
use replicante_core::coordinator::node_id::NodeId;
use replicante_core::fetcher::error::Error as FetcherError;
use replicante_core::fetcher::error::ErrorKind as FetcherErrorKind;
use replicante_core::fetcher::model::AgentStatus;

#[test]
fn coordinator_error_messages() {
    let node = NodeId::with_id(String::from("3bb728ac"));
    let cases = vec![
        (CoordinatorErrorKind::BackendConnect, "connection to coordinator failed"),
        (CoordinatorErrorKind::Backend("lock release"), "lock release failed due to coordinator error"),
        (CoordinatorErrorKind::Decode("node id"), "failed to decode node id"),
        (CoordinatorErrorKind::Encode("node id"), "failed to encode node id"),
        (CoordinatorErrorKind::ElectionLost("e".into()), "election 'e' is no longer available"),
        (CoordinatorErrorKind::ElectionNotFound("e".into()), "election 'e' not found"),
        (CoordinatorErrorKind::ElectionRunning("e".into()), "election 'e' already running"),
        (CoordinatorErrorKind::LockHeld("l".into(), node.clone()), "lock 'l' is already held by process '3bb728ac'"),
        (CoordinatorErrorKind::LockLost("l".into()), "lock 'l' was lost"),
        (CoordinatorErrorKind::LockNotFound("l".into()), "lock 'l' not found"),
        (CoordinatorErrorKind::LockNotHeld("l".into(), node.clone()), "lock 'l' is held by process '3bb728ac'"),
        (CoordinatorErrorKind::SpawnThread("cleaner"), "unable to spawn new thread for 'cleaner'"),
    ];
    for (kind, message) in cases {
        assert_eq!(kind.describe(), message);
        let error = CoordinatorError::from_kind(kind);
        assert_eq!(error.describe(), message);
    }
}

#[test]
fn fetcher_error_messages_and_names() {
    let cases = vec![
        (FetcherErrorKind::AgentConnect("a".into()), "error connecting to agent a", "AgentConnect"),
        (FetcherErrorKind::AgentDown("shards", "a".into()), "error fetching/sending shards from/to agent a", "AgentDown"),
        (FetcherErrorKind::AnyWrapped, "anywrap error handling rollout boundary", "AnyWrapped"),
        (FetcherErrorKind::DatastoreDown("datastore info", "a".into()), "error fetching/sending datastore info from/to agent a", "DatastoreDown"),
        (FetcherErrorKind::ClusterViewUpdate, "error updating the cluster view with info from agents", "ClusterViewUpdate"),
        (FetcherErrorKind::EventEmit("NODE_NEW"), "error emitting NODE_NEW event", "EventEmit"),
        (FetcherErrorKind::PrimaryStoreRead("action"), "error fetching action from the primary store", "PrimaryStoreRead"),
        (FetcherErrorKind::PrimaryStoreWrite("action"), "error persisting action to the primary store", "PrimaryStoreWrite"),
        (FetcherErrorKind::ViewStoreRead("cluster"), "error fetching cluster from the view store", "ViewStoreRead"),
        (FetcherErrorKind::ViewStoreWrite("cluster"), "error persisting cluster to the view store", "ViewStoreWrite"),
    ];
    for (kind, message, name) in cases {
        let error = FetcherError::from_kind(kind);
        assert_eq!(error.describe(), message);
        assert_eq!(error.name(), Some(name));
    }
    let error = FetcherError::from_kind(FetcherErrorKind::ClusterDisplayNameDoesNotMatch("a".into(), "b".into(), "n".into()));
    assert_eq!(error.describe(), "expected cluster display name 'a' but found 'b' for node with ID 'n'");
    assert_eq!(
        error.agent_status(),
        Some(AgentStatus::AgentDown(String::from("expected cluster display name 'a' but found 'b' for node with ID 'n'")))
    );
    assert_eq!(FetcherError::from_kind(FetcherErrorKind::ClusterViewUpdate).agent_status(), None);
}
