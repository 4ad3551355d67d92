use replicante_core::coordinator::error::ErrorKind;
use replicante_core::coordinator::mock::MockCoordinator;

fn mock_coordinator() -> MockCoordinator {
    MockCoordinator::new()
}

#[test]
fn acquire() {
    let mock_coordinator = mock_coordinator();
    let coordinator = mock_coordinator.mock();
    let mut lock = coordinator.non_blocking_lock("some/test/lock");
    let mock = mock_coordinator.non_blocking_lock("some/test/lock");
    assert_eq!(mock.locked(), false);
    lock.acquire().expect("lock to be acquired successfully");
    assert_eq!(mock.locked(), true);
}

#[test]
fn acquire_locked_fails() {
    let mock_coordinator = mock_coordinator();
    let coordinator = mock_coordinator.mock();
    let mut lock1 = coordinator.non_blocking_lock("some/test/lock");
    let mut lock2 = coordinator.non_blocking_lock("some/test/lock");
    let mock = mock_coordinator.non_blocking_lock("some/test/lock");
    assert_eq!(mock.locked(), false);
    lock1.acquire().expect("lock to be acquired successfully");
    assert_eq!(mock.locked(), true);
    match lock2.acquire() {
        Ok(()) => panic!("lock acquired twice"),
        Err(error) => match error.kind() {
            ErrorKind::LockHeld(_, _) => (),
            error => panic!("{:?}", error),
        },
    }
}

#[test]
fn check() {
    let mock_coordinator = mock_coordinator();
    let coordinator = mock_coordinator.mock();
    let mut lock = coordinator.non_blocking_lock("some/test/lock");
    let mock = mock_coordinator.non_blocking_lock("some/test/lock");
    assert_eq!(mock.locked(), false);
    assert_eq!(false, lock.check());
    lock.acquire().expect("lock to be acquired successfully");
    assert_eq!(mock.locked(), true);
    assert_eq!(true, lock.check());
    lock.release().expect("lock to be released successfully");
    assert_eq!(mock.locked(), false);
    assert_eq!(false, lock.check());
}

#[test]
fn release() {
    let mock_coordinator = mock_coordinator();
    let coordinator = mock_coordinator.mock();
    let mut lock = coordinator.non_blocking_lock("some/test/lock");
    let mock = mock_coordinator.non_blocking_lock("some/test/lock");
    assert_eq!(mock.locked(), false);
    lock.acquire().expect("lock to be acquired successfully");
    assert_eq!(mock.locked(), true);
    lock.release().expect("lock to be released successfully");
    assert_eq!(mock.locked(), false);
}

#[test]
fn release_unlocked_fails() {
    let mock_coordinator = mock_coordinator();
    let coordinator = mock_coordinator.mock();
    let mut lock = coordinator.non_blocking_lock("some/test/lock");
    let mock = mock_coordinator.non_blocking_lock("some/test/lock");
    assert_eq!(mock.locked(), false);
    lock.acquire().expect("lock to be acquired successfully");
    assert_eq!(mock.locked(), true);
    lock.release().expect("lock to be released successfully");
    assert_eq!(mock.locked(), false);
    match lock.release() {
        Ok(()) => panic!("lock released twice"),
        Err(error) => match error.kind() {
            ErrorKind::LockNotHeld(_, _) => (),
            ErrorKind::LockNotFound(_) => (),
            error => panic!("{:?}", error),
        },
    }
}

#[test]
fn release_on_drop() {
    let mock_coordinator = mock_coordinator();
    let coordinator = mock_coordinator.mock();
    let mock = mock_coordinator.non_blocking_lock("some/test/lock");
    let mut lock = coordinator.non_blocking_lock("some/test/lock");
    assert_eq!(mock.locked(), false);
    lock.acquire().expect("lock to be acquired successfully");
    assert_eq!(mock.locked(), true);
    lock.release_on_drop();
    assert_eq!(mock.locked(), false);
}

#[test]
fn watcher_follows_lock_state() {
    let mock_coordinator = mock_coordinator();
    let coordinator = mock_coordinator.mock();
    let mut lock = coordinator.non_blocking_lock("another/lock");
    let watcher = lock.watch();
    assert_eq!(watcher.inspect(), false);
    lock.acquire().expect("lock to be acquired successfully");
    assert_eq!(watcher.inspect(), true);
    lock.release().expect("lock to be released successfully");
    assert_eq!(watcher.inspect(), false);
}

#[test]
fn admin_sees_mock_locks() {
    let mock_coordinator = mock_coordinator();
    let _ = mock_coordinator.non_blocking_lock("some/test/lock");
    let admin = mock_coordinator.admin();
    let found = admin.non_blocking_lock("some/test/lock").expect("lock to be known");
    assert_eq!(found.owner().id, mock_coordinator.node_id.id);
    match admin.non_blocking_lock("missing/lock") {
        Ok(_) => panic!("missing lock found"),
        Err(error) => match error.kind() {
            ErrorKind::LockNotFound(name) => assert_eq!(name, "missing/lock"),
            error => panic!("{:?}", error),
        },
    }
    let all = admin.non_blocking_locks();
    assert_eq!(all.len(), 1);
    assert_eq!(all[0].0, "some/test/lock");
    assert_eq!(admin.version().expect("version"), "MockAdmin 0.2.0");
}

#[test]
fn shared_flags_see_each_other() {
    let flag = replicante_core::coordinator::flag::SharedFlag::new(false);
    let other = flag.share();
    other.store(true);
    assert_eq!(flag.load(), true);
    assert_eq!(flag.swap(false), true);
    assert_eq!(other.load(), false);
}

#[test]
fn current_client_shares_client_and_flag() {
    let current = replicante_core::coordinator::zookeeper::CurrentClient::new(String::from("client"));
    assert_eq!(current.active(), true);
    let flag = current.active_flag();
    flag.store(false);
    assert_eq!(current.active(), false);
    let client = current.client();
    assert_eq!(client.as_str(), "client");
    assert_eq!(std::sync::Arc::strong_count(&client), 2);
}

#[test]
fn lock_table_holds_one_lock_per_name() {
    let mock_coordinator = mock_coordinator();
    let coordinator = mock_coordinator.mock();
    let mut lock = coordinator.non_blocking_lock("some/test/lock");
    lock.acquire().expect("lock to be acquired successfully");
    let _ = mock_coordinator.non_blocking_lock("some/test/lock");
    let _ = mock_coordinator.non_blocking_lock("other/lock");
    let all = mock_coordinator.admin().non_blocking_locks();
    let mut names: Vec<String> = all.iter().map(|(name, _)| name.clone()).collect();
    names.sort();
    assert_eq!(names, vec![String::from("other/lock"), String::from("some/test/lock")]);
    let mut admin = mock_coordinator.admin().non_blocking_lock("some/test/lock").expect("lock to be known");
    admin.force_release().expect("lock to be released");
    assert_eq!(lock.check(), false);
    match admin.force_release() {
        Err(error) => match error.kind() {
            ErrorKind::LockNotHeld(name, _) => assert_eq!(name, "some/test/lock"),
            error => panic!("{:?}", error),
        },
        Ok(()) => panic!("released twice"),
    }
}
