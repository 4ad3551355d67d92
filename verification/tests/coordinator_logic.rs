use std::cell::RefCell;
use std::collections::BTreeMap;

use replicante_core::coordinator::admin::Election as AdminElection;
use replicante_core::coordinator::admin::ElectionsStep;
use replicante_core::coordinator::admin::ZooKeeperElections;
use replicante_core::coordinator::cleaner::clean;
use replicante_core::coordinator::cleaner::cycle;
use replicante_core::coordinator::cleaner::election_term;
use replicante_core::coordinator::config::CleanupConfig;
use replicante_core::coordinator::config::ZookeeperConfig;
use replicante_core::coordinator::election::admin_primary_path;
use replicante_core::coordinator::election::apply_update;
use replicante_core::coordinator::election::election_step_down;
use replicante_core::coordinator::election::election_paths;
use replicante_core::coordinator::election::election_update;
use replicante_core::coordinator::election::register;
use replicante_core::coordinator::election::run_check;
use replicante_core::coordinator::election::secondaries_count;
use replicante_core::coordinator::election::ChildrenLookup;
use replicante_core::coordinator::election::ElectionState;
use replicante_core::coordinator::election::ElectionStateMachine;
use replicante_core::coordinator::election::ElectionStatus;
use replicante_core::coordinator::election::ElectionUpdate;
use replicante_core::coordinator::election::TerminateReason;
use replicante_core::coordinator::error::ErrorKind;
use replicante_core::coordinator::lock::create_lock_znode;
use replicante_core::coordinator::lock::lock_event_step;
use replicante_core::coordinator::lock::CreateLockStep;
use replicante_core::coordinator::lock::release_lock;
use replicante_core::coordinator::lock::LockEventStep;
use replicante_core::coordinator::lock::NblSyncState;
use replicante_core::coordinator::lock::ReleaseOutcome;
use replicante_core::coordinator::zookeeper::prepare_session;
use replicante_core::coordinator::zookeeper::Recorder;
use replicante_core::coordinator::zookeeper::tolerate;
use replicante_core::coordinator::zookeeper::ZkEventType;
use replicante_core::coordinator::zookeeper::ZkFailure;
use replicante_core::coordinator::zookeeper::ZkStat;
use replicante_core::coordinator::zookeeper::ZnodeClient;
use replicante_core::coordinator::zookeeper::ZnodeMode;

/// An in-memory ZooKeeper tree.
#[derive(Default)]
struct FakeZk {
    /// Znode path to (czxid, data).
    nodes: RefCell<BTreeMap<String, (i64, Vec<u8>)>>,
    next_zxid: RefCell<i64>,
    sequence: RefCell<u32>,
}

fn parent(path: &str) -> Option<String> {
    if path == "/" {
        return None;
    }
    let index = path.rfind('/')?;
    if index == 0 {
        Some(String::from("/"))
    } else {
        Some(path[..index].to_string())
    }
}

impl FakeZk {
    fn with(paths: &[&str]) -> FakeZk {
        let zk = FakeZk::default();
        zk.nodes.borrow_mut().insert(String::from("/"), (0, Vec::new()));
        for path in paths {
            zk.create(path, Vec::new(), ZnodeMode::Persistent).expect("fixture znode");
        }
        zk
    }

    fn children_of(&self, path: &str) -> Vec<String> {
        let nodes = self.nodes.borrow();
        nodes
            .keys()
            .filter(|k| parent(k).as_deref() == Some(path))
            .map(|k| k.rsplit('/').next().unwrap().to_string())
            .collect()
    }

    fn has(&self, path: &str) -> bool {
        self.nodes.borrow().contains_key(path)
    }
}

impl ZnodeClient for FakeZk {
    fn create(&self, path: &str, data: Vec<u8>, mode: ZnodeMode) -> Result<String, ZkFailure> {
        let mut path = path.to_string();
        if mode == ZnodeMode::EphemeralSequential {
            let mut seq = self.sequence.borrow_mut();
            path = format!("{}{:010}", path, *seq);
            *seq += 1;
        }
        if self.has(&path) {
            return Err(ZkFailure::NodeExists);
        }
        match parent(&path) {
            Some(p) if !self.has(&p) => return Err(ZkFailure::NoNode),
            _ => (),
        }
        let mut zxid = self.next_zxid.borrow_mut();
        *zxid += 1;
        self.nodes.borrow_mut().insert(path.clone(), (*zxid, data));
        Ok(path)
    }

    fn get_children(&self, path: &str) -> Result<Vec<String>, ZkFailure> {
        if !self.has(path) {
            return Err(ZkFailure::NoNode);
        }
        Ok(self.children_of(path))
    }

    fn stat(&self, path: &str) -> Result<Option<ZkStat>, ZkFailure> {
        let czxid = match self.nodes.borrow().get(path) {
            None => return Ok(None),
            Some((czxid, _)) => *czxid,
        };
        let num_children = self.children_of(path).len() as i32;
        Ok(Some(ZkStat { czxid, version: 0, num_children }))
    }

    fn delete(&self, path: &str, _version: Option<i32>) -> Result<(), ZkFailure> {
        if !self.has(path) {
            return Err(ZkFailure::NoNode);
        }
        if !self.children_of(path).is_empty() {
            return Err(ZkFailure::NotEmpty);
        }
        self.nodes.borrow_mut().remove(path);
        Ok(())
    }
}

#[test]
fn sessions_prepare_containers_and_register_node() {
    let zk = FakeZk::with(&[]);
    let registry = Some((String::from("/nodes/3bb7/3bb728ac2ca63e8f3be0d39195b09b76"), b"{}".to_vec()));
    prepare_session(&zk, &registry).expect("session prepared");
    assert!(zk.has("/elections"));
    assert!(zk.has("/locks"));
    assert!(zk.has("/nodes"));
    // The missing container of the registry znode is created on the way.
    assert!(zk.has("/nodes/3bb7"));
    assert!(zk.has("/nodes/3bb7/3bb728ac2ca63e8f3be0d39195b09b76"));
    // Preparing again is harmless.
    prepare_session(&zk, &None).expect("session prepared again");
}

#[test]
fn cleaner_deletes_empty_containers_within_limit() {
    let zk = FakeZk::with(&["/elections", "/elections/a", "/elections/b", "/elections/b/c", "/locks", "/locks/l", "/nodes"]);
    // "/elections/b" has a child and is kept; "/elections/a" is deleted.
    let left = clean(&mut Recorder::new(&zk), "/elections", 10).expect("clean");
    assert_eq!(left, 9);
    assert!(!zk.has("/elections/a"));
    assert!(zk.has("/elections/b"));
    // The limit stops a cycle early.
    let zk = FakeZk::with(&["/elections", "/elections/a", "/locks", "/locks/l", "/nodes"]);
    cycle(&mut Recorder::new(&zk), 1).expect("cycle");
    assert!(!zk.has("/elections/a"));
    assert!(zk.has("/locks/l"));
    // A missing prefix is an error.
    let zk = FakeZk::with(&[]);
    match clean(&mut Recorder::new(&zk), "/elections", 3) {
        Err(error) => assert_eq!(error, ErrorKind::Backend("children lookup")),
        Ok(_) => panic!("missing prefix cleaned"),
    }
    assert_eq!(election_term(0), None);
    assert_eq!(election_term(3600), Some(3600));
    assert_eq!(CleanupConfig::default_limit(), 1000);
    assert_eq!(ZookeeperConfig::default().ensemble, "localhost:2181/replicante");
}

#[test]
fn elections_register_and_follow_candidates() {
    let zk = FakeZk::with(&["/elections"]);
    let paths = election_paths("cluster/refresh");
    let first = register(&zk, &paths, &b"candidate".to_vec(), &b"election".to_vec()).expect("registered");
    let second = register(&zk, &paths, &b"candidate".to_vec(), &b"election".to_vec()).expect("registered");
    assert!(first.starts_with(&paths.path_candidate));

    let mut state: ElectionState<u8> = ElectionState::new(String::from("cluster/refresh"));
    run_check(state.get(), &state.name).expect("can run");
    state.register(ElectionStateMachine::NotCandidate, second.clone(), 7).expect("register");
    assert!(matches!(state.to_status(), ElectionStatus::InProgress));
    let watch = state.watch();

    let children = zk.get_children(&paths.path_election).expect("children");
    let update = election_update(state.get(), &paths.path_election, &state.get_candidate(), &ChildrenLookup::Listed(children));
    assert_eq!(update, ElectionUpdate::Secondary);
    apply_update(&mut state, update);
    assert!(matches!(state.to_status(), ElectionStatus::Secondary));
    assert!(!watch.is_primary());

    // The first candidate steps down: the second becomes primary.
    zk.delete(&first, None).expect("delete first");
    let children = zk.get_children(&paths.path_election).expect("children");
    let update = election_update(state.get(), &paths.path_election, &state.get_candidate(), &ChildrenLookup::Listed(children));
    assert_eq!(update, ElectionUpdate::Primary);
    apply_update(&mut state, update);
    assert!(state.to_status().is_primary());
    assert!(watch.is_primary());
    match run_check(state.get(), &state.name) {
        Err(error) => assert_eq!(error, ErrorKind::ElectionRunning(String::from("cluster/refresh"))),
        Ok(()) => panic!("running election can run again"),
    }

    // Admins see one candidate and no secondaries.
    let admin = AdminElection::new(String::from("cluster/refresh"), paths.path_election.clone());
    assert_eq!(admin.name(), "cluster/refresh");
    assert_eq!(admin.secondaries_count(&zk).expect("count"), 0);
    assert_eq!(admin.primary_znode(&zk).expect("primary"), Some(second.clone()));

    // Our candidate is deleted behind our back: the election terminates.
    zk.delete(&second, None).expect("delete second");
    let update = election_update(state.get(), &paths.path_election, &state.get_candidate(), &ChildrenLookup::Listed(Vec::new()));
    assert_eq!(update, ElectionUpdate::Terminate(TerminateReason::NoCandidates));
    let (znode, subscription) = apply_update(&mut state, update);
    assert_eq!(znode, Some(second));
    assert_eq!(subscription, Some(7));
    match state.to_status() {
        ElectionStatus::Terminated(reason) => assert_eq!(reason, "election has no candidates"),
        other => panic!("unexpected status {:?}", other),
    }
    run_check(state.get(), &state.name).expect("terminated elections can run again");
    assert_eq!(secondaries_count(&Some(vec![String::from("a"), String::from("b")])), 1);
    assert_eq!(secondaries_count(&None), 0);
}

#[test]
fn election_updates_on_lookup_failures() {
    let znode = Some(String::from("/elections/x/candidate-0000000001"));
    assert_eq!(
        election_update(ElectionStateMachine::Secondary, "/elections/x", &znode, &ChildrenLookup::SessionLost),
        ElectionUpdate::Terminate(TerminateReason::SessionLost)
    );
    assert_eq!(
        election_update(ElectionStateMachine::Secondary, "/elections/x", &znode, &ChildrenLookup::Failed(ZkFailure::NoNode)),
        ElectionUpdate::Terminate(TerminateReason::ElectionDeleted)
    );
    assert_eq!(
        election_update(ElectionStateMachine::Secondary, "/elections/x", &znode, &ChildrenLookup::Failed(ZkFailure::Other)),
        ElectionUpdate::Terminate(TerminateReason::RefreshFailed)
    );
    let others = ChildrenLookup::Listed(vec![String::from("candidate-0000000000")]);
    assert_eq!(
        election_update(ElectionStateMachine::Secondary, "/elections/x", &znode, &others),
        ElectionUpdate::Terminate(TerminateReason::CandidateDeleted)
    );
    assert_eq!(election_update(ElectionStateMachine::Secondary, "/elections/x", &None, &others), ElectionUpdate::Ignore);
}

#[test]
fn stopped_elections_ignore_refreshes() {
    let znode = Some(String::from("/elections/x/candidate-0000000001"));
    for stage in [ElectionStateMachine::NotCandidate, ElectionStateMachine::Terminated] {
        assert_eq!(election_update(stage, "/elections/x", &znode, &ChildrenLookup::SessionLost), ElectionUpdate::Ignore);
        assert_eq!(
            election_update(stage, "/elections/x", &znode, &ChildrenLookup::Failed(ZkFailure::Other)),
            ElectionUpdate::Ignore
        );
    }
    let mut state: ElectionState<u8> = ElectionState::new(String::from("cluster/stopped"));
    let (znode, subscription) = apply_update(&mut state, ElectionUpdate::Ignore);
    assert_eq!(znode, None);
    assert_eq!(subscription, None);
    assert_eq!(state.get(), ElectionStateMachine::NotCandidate);
}

#[test]
fn admin_lists_elections_once() {
    let mut listing = ZooKeeperElections::new();
    assert!(matches!(listing.next_step(), ElectionsStep::Load));
    assert!(listing.loaded(Ok(vec![String::from("a"), String::from("b")])).is_none());
    assert!(matches!(listing.next_step(), ElectionsStep::Inspect(p) if p == "/elections/a"));
    assert!(matches!(listing.next_step(), ElectionsStep::Inspect(p) if p == "/elections/b"));
    assert!(matches!(listing.next_step(), ElectionsStep::End));

    let mut listing = ZooKeeperElections::new();
    let error = listing.loaded(Err(ErrorKind::Backend("anything"))).expect("error reported");
    assert_eq!(error.kind(), ErrorKind::Backend("elections listing"));
    assert!(matches!(listing.next_step(), ElectionsStep::End));
}

#[test]
fn lock_state_releases_make_pending_acquisitions_stale() {
    let mut state = NblSyncState::new(String::from("l"));
    let watcher = state.watch();
    let (_, _, version) = state.inspect();
    state.acquire(42, version).expect("acquire");
    assert_eq!(state.inspect(), (true, Some(42), 0));
    assert!(watcher.inspect());
    state.release();
    assert_eq!(state.inspect(), (false, None, 1));
    assert!(!watcher.inspect());
    // An acquisition that started before the release is refused.
    assert_eq!(state.acquire(43, version), Err(ErrorKind::LockLost(String::from("l"))));
    assert_eq!(lock_event_step(false, ZkEventType::NodeDeleted), LockEventStep::Ignore);
    assert_eq!(lock_event_step(true, ZkEventType::NodeDeleted), LockEventStep::Lost);
    assert_eq!(lock_event_step(true, ZkEventType::NodeDataChanged), LockEventStep::Rewatch);
}

#[test]
fn lock_release_deletes_only_our_znode() {
    let zk = FakeZk::with(&["/locks", "/locks/ab12"]);
    let path = "/locks/ab12/ab12cd";
    zk.create(path, Vec::new(), ZnodeMode::Ephemeral).expect("lock znode");
    let czxid = zk.stat(path).unwrap().unwrap().czxid;

    let mut state = NblSyncState::new(String::from("l"));
    assert_eq!(release_lock(&mut Recorder::new(&zk), &mut state, path), Ok(ReleaseOutcome::NotHeld));
    state.acquire(czxid + 100, 0).expect("acquire");
    // The znode was created by someone else: it is left alone.
    assert_eq!(release_lock(&mut Recorder::new(&zk), &mut state, path), Ok(ReleaseOutcome::NotOwner));
    assert!(zk.has(path));
    assert_eq!(state.inspect().0, false);

    let (_, _, version) = state.inspect();
    state.acquire(czxid, version).expect("acquire");
    assert_eq!(release_lock(&mut Recorder::new(&zk), &mut state, path), Ok(ReleaseOutcome::Released));
    assert!(!zk.has(path));

    let (_, _, version) = state.inspect();
    state.acquire(czxid, version).expect("acquire");
    assert_eq!(release_lock(&mut Recorder::new(&zk), &mut state, path), Ok(ReleaseOutcome::Gone));
}

#[test]
fn tolerated_failures() {
    assert_eq!(tolerate(Err(ZkFailure::NodeExists), ZkFailure::NodeExists), Ok(()));
    assert_eq!(tolerate(Err(ZkFailure::NoNode), ZkFailure::NodeExists), Err(ZkFailure::NoNode));
    assert_eq!(tolerate(Ok(()), ZkFailure::NoNode), Ok(()));
}

#[test]
fn primary_does_not_depend_on_listing_order() {
    let znode = Some(String::from("/elections/x/candidate-0000000003"));
    let listed = ChildrenLookup::Listed(vec![
        String::from("candidate-0000000007"),
        String::from("candidate-0000000003"),
        String::from("candidate-0000000005"),
    ]);
    let reordered = ChildrenLookup::Listed(vec![
        String::from("candidate-0000000005"),
        String::from("candidate-0000000007"),
        String::from("candidate-0000000003"),
    ]);
    assert_eq!(election_update(ElectionStateMachine::Secondary, "/elections/x", &znode, &listed), ElectionUpdate::Primary);
    assert_eq!(election_update(ElectionStateMachine::Secondary, "/elections/x", &znode, &reordered), ElectionUpdate::Primary);
}

#[test]
fn admin_primary_is_the_elected_candidate() {
    let candidates = vec![String::from("candidate-0000000002"), String::from("candidate-0000000001")];
    assert_eq!(
        admin_primary_path("/elections/x", &candidates),
        Some(String::from("/elections/x/candidate-0000000001"))
    );
    assert_eq!(admin_primary_path("/elections/x", &Vec::new()), None);
    let zk = FakeZk::with(&["/elections", "/elections/x", "/elections/x/b", "/elections/x/a"]);
    assert_eq!(election_step_down(&mut Recorder::new(&zk), "/elections/x").expect("step down"), true);
    assert!(!zk.has("/elections/x/a"));
    assert!(zk.has("/elections/x/b"));
}

#[test]
fn lock_znode_creation_steps() {
    let zk = FakeZk::with(&["/locks", "/locks/ab12"]);
    let path = "/locks/ab12/ab12cd";
    assert!(matches!(create_lock_znode(&zk, path, &vec![1, 2]), CreateLockStep::Created));
    assert!(zk.has(path));
    assert!(matches!(create_lock_znode(&zk, path, &vec![1, 2]), CreateLockStep::ReadOwner));
    match create_lock_znode(&zk, "/missing/ab12/ab12cd", &Vec::new()) {
        CreateLockStep::Failed(kind) => assert_eq!(kind, ErrorKind::Backend("lock acquisition")),
        _ => panic!("created under a missing container"),
    }
}
