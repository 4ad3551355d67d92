use replicante_core::aggregator::cluster_meta::aggregate;
use replicante_core::aggregator::cluster_meta::meta_to_persist;
use replicante_core::aggregator::cluster_meta::ClusterRecords;
use replicante_core::aggregator::error::ErrorKind as AggregatorErrorKind;
use replicante_core::aggregator::shard_lag::lag_behind;
use replicante_core::aggregator::shard_lag::shard_primary;
use replicante_core::aggregator::shard_lag::synthesise;
use replicante_core::aggregator::shard_lag::LagOutcome;
use replicante_core::aggregator::shard_lag::PrimaryLookup;
use replicante_core::fetcher::model::Agent;
use replicante_core::fetcher::model::AgentStatus;
use replicante_core::fetcher::model::CommitOffset;
use replicante_core::fetcher::model::CommitUnit;
use replicante_core::fetcher::model::Node;
use replicante_core::fetcher::model::Shard;
use replicante_core::fetcher::model::ShardRole;

fn agent(host: &str, status: AgentStatus) -> Agent {
    Agent { cluster_id: "c".into(), host: host.into(), status }
}

fn node(id: &str, kind: &str) -> Node {
    Node {
        cluster_display_name: None,
        cluster_id: "c".into(),
        kind: kind.into(),
        node_id: id.into(),
        version: "1.0".into(),
    }
}

fn seconds(value: i64) -> Option<CommitOffset> {
    Some(CommitOffset { unit: CommitUnit::Seconds, value })
}

fn shard(node: &str, id: &str, role: ShardRole, offset: Option<CommitOffset>) -> Shard {
    Shard {
        cluster_id: "c".into(),
        commit_offset: offset,
        lag: None,
        node_id: node.into(),
        role,
        shard_id: id.into(),
    }
}

#[test]
fn cluster_meta_counts() {
    let records = ClusterRecords {
        cluster_id: "c".into(),
        display_name: None,
        agents: vec![
            agent("a", AgentStatus::Up),
            agent("b", AgentStatus::AgentDown("timeout".into())),
            agent("d", AgentStatus::NodeDown("crashed".into())),
        ],
        nodes: vec![node("n1", "mongodb"), node("n2", "kafka"), node("n3", "mongodb")],
        shards: vec![
            shard("n1", "s1", ShardRole::Primary, seconds(10)),
            shard("n2", "s1", ShardRole::Secondary, seconds(8)),
            shard("n3", "s2", ShardRole::Primary, None),
        ],
    };
    let meta = aggregate(&records);
    assert_eq!(meta.cluster_id, "c");
    // Without a display name the cluster ID is used.
    assert_eq!(meta.cluster_display_name, "c");
    assert_eq!(meta.agents_down, 2);
    assert_eq!(meta.nodes_down, 1);
    assert_eq!(meta.nodes, 3);
    assert_eq!(meta.shards_count, 2);
    assert_eq!(meta.shards_primaries, 2);
    assert_eq!(meta.kinds, vec![String::from("mongodb"), String::from("kafka")]);
}

#[test]
fn cluster_meta_uses_display_name() {
    let records = ClusterRecords {
        cluster_id: "c".into(),
        display_name: Some("Production".into()),
        agents: Vec::new(),
        nodes: Vec::new(),
        shards: Vec::new(),
    };
    let meta = aggregate(&records);
    assert_eq!(meta.cluster_display_name, "Production");
    assert_eq!(meta.kinds.len(), 0);
    assert_eq!(meta.shards_count, 0);
}

#[test]
fn cluster_meta_dropped_when_lock_lost() {
    let records = ClusterRecords {
        cluster_id: "c".into(),
        display_name: None,
        agents: Vec::new(),
        nodes: Vec::new(),
        shards: Vec::new(),
    };
    let meta = meta_to_persist(aggregate(&records), true).expect("meta to persist");
    assert_eq!(meta.cluster_id, "c");
    match meta_to_persist(aggregate(&records), false) {
        Err(error) => match error.kind() {
            AggregatorErrorKind::ClusterLockLost(cluster) => assert_eq!(cluster, "c"),
            other => panic!("unexpected error {:?}", other),
        },
        Ok(_) => panic!("lost lock ignored"),
    }
}

#[test]
fn primary_lookup() {
    let shards = vec![
        shard("n1", "s1", ShardRole::Primary, seconds(10)),
        shard("n2", "s1", ShardRole::Secondary, seconds(8)),
        shard("n1", "s2", ShardRole::Primary, seconds(1)),
        shard("n2", "s2", ShardRole::Primary, seconds(1)),
    ];
    assert_eq!(shard_primary(&shards, &"s1".to_string()), PrimaryLookup::Found(0));
    assert_eq!(shard_primary(&shards, &"s2".to_string()), PrimaryLookup::Many);
    assert_eq!(shard_primary(&shards, &"s3".to_string()), PrimaryLookup::Missing);
}

#[test]
fn lag_is_primary_offset_minus_shard_offset() {
    let primary = shard("n1", "s1", ShardRole::Primary, seconds(100));
    let secondary = shard("n2", "s1", ShardRole::Secondary, seconds(58));
    match lag_behind(&primary, &secondary) {
        LagOutcome::Lag(lag) => assert_eq!(lag, CommitOffset { unit: CommitUnit::Seconds, value: 42 }),
        other => panic!("unexpected outcome {:?}", other),
    }
    let other_unit = shard("n2", "s1", ShardRole::Secondary, Some(CommitOffset { unit: CommitUnit::Unit("ops".into()), value: 1 }));
    assert!(matches!(lag_behind(&primary, &other_unit), LagOutcome::UnitsDiffer));
    let missing = shard("n2", "s1", ShardRole::Secondary, None);
    assert!(matches!(lag_behind(&primary, &missing), LagOutcome::MissingOffsets));
    let primary_ops = shard("n1", "s1", ShardRole::Primary, Some(CommitOffset { unit: CommitUnit::Unit("ops".into()), value: 5 }));
    assert!(matches!(lag_behind(&primary_ops, &other_unit), LagOutcome::UnsupportedUnit));
}

#[test]
fn synthesise_lag_for_secondaries_only() {
    let mut with_lag = shard("n3", "s1", ShardRole::Secondary, seconds(1));
    with_lag.lag = seconds(3);
    let shards = vec![
        shard("n1", "s1", ShardRole::Primary, seconds(10)),
        shard("n2", "s1", ShardRole::Secondary, seconds(7)),
        with_lag,
        shard("n4", "s9", ShardRole::Secondary, seconds(7)),
        shard("n5", "s1", ShardRole::Recovering, None),
    ];
    let updates = synthesise(&shards);
    assert_eq!(updates.len(), 1);
    let (index, updated) = &updates[0];
    assert_eq!(*index, 1);
    assert_eq!(updated.lag, seconds(3));
    assert_eq!(updated.node_id, "n2");
    assert_eq!(updated.commit_offset, seconds(7));
}
