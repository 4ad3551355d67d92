//! Helpers to mock distributed coordination services in tests.
use vstd::prelude::*;
use std::sync::Arc;
use vstd::cell::invcell::InvCell;

use super::admin::MockAdmin;
use super::coordinator::Backend;
use super::coordinator::Coordinator;
use super::error::Error;
use super::error::ErrorKind;
use super::error::ErrorKindView;
use super::error::Result;
use super::flag::SharedFlag;
use super::flag::arc_clone;
use super::lock::NonBlockingLockBehaviour;
use super::lock::NonBlockingLockWatcher;
use super::node_id::NodeId;

verus! {

/// The outcome of acquiring a mocked lock, given whether it was locked before.
pub open spec fn spec_mock_acquire(was_locked: bool) -> (bool, bool) {
    // (locked after, succeeded)
    (true, !was_locked)
}

/// The outcome of releasing a mocked lock, given whether it was locked before.
pub open spec fn spec_mock_release(was_locked: bool) -> (bool, bool) {
    // (locked after, succeeded)
    (false, was_locked)
}

/// The reply to an acquisition of a mocked lock, given whether it was locked before.
pub fn mock_acquire_outcome(was_locked: bool, lock_id: &String, node_id: &NodeId) -> (r: Result<()>)
    ensures
        spec_mock_acquire(was_locked).1 ==> r is Ok,
        !spec_mock_acquire(was_locked).1 ==> (r matches Err(e) && e.spec_kind()@ == ErrorKind::LockHeld(*lock_id, *node_id)@),
{
    if was_locked {
        return Err(Error::from_kind(ErrorKind::LockHeld(lock_id.clone(), node_id.duplicate())));
    }
    Ok(())
}

/// The reply to a release of a mocked lock, given whether it was locked before.
pub fn mock_release_outcome(was_locked: bool, lock_id: &String, node_id: &NodeId) -> (r: Result<()>)
    ensures
        spec_mock_release(was_locked).1 ==> r is Ok,
        !spec_mock_release(was_locked).1 ==> (r matches Err(e) && e.spec_kind()@ == ErrorKind::LockNotHeld(*lock_id, *node_id)@),
{
    if !was_locked {
        return Err(Error::from_kind(ErrorKind::LockNotHeld(lock_id.clone(), node_id.duplicate())));
    }
    Ok(())
}

/// A held lock cannot be acquired again: a second acquisition fails and the
/// lock stays held.
pub proof fn law_mock_lock_excludes_second_acquire(was_locked: bool)
    ensures
        !spec_mock_acquire(spec_mock_acquire(was_locked).0).1,
        spec_mock_acquire(spec_mock_acquire(was_locked).0).0,
{
}

/// A free lock can be acquired, and once acquired it can be released, which frees it.
pub proof fn law_mock_lock_acquire_release_round_trip()
    ensures
        spec_mock_acquire(false).1,
        spec_mock_release(spec_mock_acquire(false).0).1,
        !spec_mock_release(spec_mock_acquire(false).0).0,
{
}

/// Only held locks can be released: releasing twice fails the second time.
pub proof fn law_mock_lock_release_twice_fails(was_locked: bool)
    ensures
        !spec_mock_release(spec_mock_release(was_locked).0).1,
{
}

/// A mocked non-blocking lock for assertions and manipulation.
pub struct MockNonBlockingLock {
    pub lock_id: String,
    pub locked: SharedFlag,
    pub node_id: NodeId,
}

impl MockNonBlockingLock {
    /// A mocked lock that is not held.
    pub fn new(lock_id: String, node_id: NodeId) -> (r: MockNonBlockingLock)
        ensures
            r.lock_id == lock_id,
            r.node_id == node_id,
    {
        MockNonBlockingLock { lock_id, locked: SharedFlag::new(false), node_id }
    }

    /// Another handle on the same mocked lock.
    pub fn duplicate(&self) -> (r: MockNonBlockingLock)
        ensures
            r.lock_id == self.lock_id,
            r.node_id@ == self.node_id@,
    {
        MockNonBlockingLock {
            lock_id: self.lock_id.clone(),
            locked: self.locked.share(),
            node_id: self.node_id.duplicate(),
        }
    }

    /// Acquire the lock, failing if it is held.
    pub fn acquire(&self) -> (r: Result<()>)
        ensures
            r is Ok || (r matches Err(e) && e.spec_kind()@ == ErrorKind::LockHeld(self.lock_id, self.node_id)@),
    {
        let before = self.locked.swap(true);
        mock_acquire_outcome(before, &self.lock_id, &self.node_id)
    }

    /// Whether the lock is held.
    pub fn locked(&self) -> bool {
        self.locked.load()
    }

    /// The ID of the node that owns the mocked lock.
    pub fn node_id(&self) -> (r: NodeId)
        ensures
            r@ == self.node_id@,
    {
        self.node_id.duplicate()
    }

    /// Release the lock, failing if it is not held.
    pub fn release(&self) -> (r: Result<()>)
        ensures
            r is Ok || (r matches Err(e) && e.spec_kind()@ == ErrorKind::LockNotHeld(self.lock_id, self.node_id)@),
    {
        let before = self.locked.swap(false);
        mock_release_outcome(before, &self.lock_id, &self.node_id)
    }

    /// A watcher of the mocked lock state.
    pub fn watch(&self) -> (r: NonBlockingLockWatcher)
        ensures
            r.flag() == self.locked,
    {
        NonBlockingLockWatcher::new(self.locked.share())
    }
}

/// Whether the mocked locks in a list have pairwise distinct names.
pub open spec fn names_distinct(v: Seq<MockNonBlockingLock>) -> bool {
    forall|i: int, j: int| 0 <= i < j < v.len() ==> (#[trigger] v[i]).lock_id@ != (#[trigger] v[j]).lock_id@
}

/// A table of mocked locks holds at most one lock per name.
pub struct UniqueNames {}

impl vstd::predicate::Predicate<Vec<MockNonBlockingLock>> for UniqueNames {
    open spec fn predicate(&self, v: Vec<MockNonBlockingLock>) -> bool {
        names_distinct(v@)
    }
}

/// Position of the mocked lock with the given name in a table.
pub fn find_lock(table: &Vec<MockNonBlockingLock>, lock: &str) -> (r: Option<usize>)
    ensures
        match r {
            Some(i) => i < table@.len() && table@[i as int].lock_id@ == lock@,
            None => forall|i: int| 0 <= i < table@.len() ==> (#[trigger] table@[i]).lock_id@ != lock@,
        },
{
    let wanted = String::from_str(lock);
    let mut i: usize = 0;
    while i < table.len()
        invariant
            0 <= i <= table@.len(),
            wanted@ == lock@,
            forall|k: int| 0 <= k < i ==> (#[trigger] table@[k]).lock_id@ != lock@,
        decreases table@.len() - i,
    {
        if table[i].lock_id == wanted {
            return Some(i);
        }
        i = i + 1;
    }
    None
}

/// The table of mocked locks, shared by the mock coordinator and its backends.
pub struct MockLocks(Arc<InvCell<Vec<MockNonBlockingLock>, UniqueNames>>);

impl MockLocks {
    /// An empty table.
    pub fn new() -> (r: MockLocks) {
        MockLocks(Arc::new(InvCell::new(Vec::new(), Ghost(UniqueNames {}))))
    }

    /// Another handle on the same table.
    pub fn share(&self) -> (r: MockLocks)
        ensures
            r == *self,
    {
        MockLocks(arc_clone(&self.0))
    }

    /// The mocked lock with the given name, if the table has one.
    pub fn get(&self, lock: &str) -> (r: Option<MockNonBlockingLock>)
        ensures
            r matches Some(m) ==> m.lock_id@ == lock@,
    {
        let table = self.0.replace(Vec::new());
        let found = find_lock(&table, lock);
        let r = match found {
            None => None,
            Some(i) => Some(table[i].duplicate()),
        };
        self.0.set(table);
        r
    }

    /// Add a mocked lock to the table, unless it has one with the same name.
    pub fn insert(&self, mock: MockNonBlockingLock) {
        let mut table = self.0.replace(Vec::new());
        if find_lock(&table, mock.lock_id.as_str()).is_none() {
            table.push(mock);
        }
        self.0.set(table);
    }

    /// The mocked lock with the given name, added to the table if missing.
    pub fn get_or_insert(&self, lock: &str, node_id: &NodeId) -> (r: MockNonBlockingLock)
        ensures
            r.lock_id@ == lock@,
    {
        match self.get(lock) {
            Some(mock) => mock,
            None => {
                let mock = MockNonBlockingLock::new(String::from_str(lock), node_id.duplicate());
                self.insert(mock.duplicate());
                mock
            },
        }
    }

    /// Handles on all the mocked locks in the table.
    pub fn all(&self) -> (r: Vec<MockNonBlockingLock>)
        ensures
            names_distinct(r@),
    {
        let table = self.0.replace(Vec::new());
        let mut r: Vec<MockNonBlockingLock> = Vec::new();
        let mut i: usize = 0;
        while i < table.len()
            invariant
                0 <= i <= table@.len(),
                names_distinct(table@),
                r@.len() == i,
                forall|k: int| 0 <= k < i ==> (#[trigger] r@[k]).lock_id == table@[k].lock_id,
            decreases table@.len() - i,
        {
            r.push(table[i].duplicate());
            i = i + 1;
        }
        self.0.set(table);
        r
    }
}

/// Non-blocking lock mock behaviour.
pub struct MockNBL {
    pub lock: String,
    pub nblocks: MockLocks,
    pub node_id: NodeId,
}

impl NonBlockingLockBehaviour for MockNBL {
    fn acquire(&mut self) -> (r: Result<()>)
        ensures
            *final(self) == *old(self),
            r is Ok || (r matches Err(e) && e.spec_kind()@ matches ErrorKindView::LockHeld(l, _) && l == old(self).lock@),
    {
        match self.nblocks.get(self.lock.as_str()) {
            Some(mock) => mock.acquire(),
            None => {
                let mock = MockNonBlockingLock::new(self.lock.clone(), self.node_id.duplicate());
                let acquired = mock.acquire();
                match acquired {
                    Err(error) => Err(error),
                    Ok(()) => {
                        self.nblocks.insert(mock);
                        Ok(())
                    },
                }
            },
        }
    }

    fn check(&self) -> bool {
        match self.nblocks.get(self.lock.as_str()) {
            None => false,
            Some(mock) => mock.locked(),
        }
    }

    fn release(&mut self) -> (r: Result<()>)
        ensures
            *final(self) == *old(self),
            r is Ok || (r matches Err(e) && e.spec_kind()@ matches ErrorKindView::LockNotHeld(l, _) && l == old(self).lock@),
    {
        match self.nblocks.get(self.lock.as_str()) {
            Some(mock) => mock.release(),
            None => {
                let mock = MockNonBlockingLock::new(self.lock.clone(), self.node_id.duplicate());
                self.nblocks.insert(mock);
                Ok(())
            },
        }
    }

    fn release_on_drop(&mut self) {
        match self.nblocks.get(self.lock.as_str()) {
            None => (),
            Some(mock) => {
                let _ = mock.release();
            },
        }
    }

    fn watch(&self) -> NonBlockingLockWatcher {
        let mock = self.nblocks.get_or_insert(self.lock.as_str(), &self.node_id);
        mock.watch()
    }
}

/// Proxy synchronized access to mock attributes.
pub struct MockBackend {
    pub nblocks: MockLocks,
    pub node_id: NodeId,
}

impl Backend for MockBackend {
    type Lock = MockNBL;

    open spec fn spec_node_id(&self) -> NodeId {
        self.node_id
    }

    fn node_id(&self) -> (r: &NodeId) {
        &self.node_id
    }

    fn non_blocking_lock(&self, lock: String) -> (r: MockNBL)
        ensures
            r.lock == lock,
            r.nblocks == self.nblocks,
            r.node_id@ == self.node_id@,
    {
        MockNBL { lock, nblocks: self.nblocks.share(), node_id: self.node_id.duplicate() }
    }
}

/// Helper to mock distributed coordination services.
pub struct MockCoordinator {
    pub nblocks: MockLocks,
    pub node_id: NodeId,
}

impl MockCoordinator {
    /// A mock with no locks and a fresh node ID.
    pub fn new() -> (r: MockCoordinator)
        ensures
            r.node_id.id@.len() == 32,
    {
        MockCoordinator { nblocks: MockLocks::new(), node_id: NodeId::new() }
    }

    /// A coordinator backed by this mock.
    pub fn mock(&self) -> (r: Coordinator<MockBackend>)
        ensures
            r.backend().node_id@ == self.node_id@,
    {
        Coordinator::with_backend(MockBackend { nblocks: self.nblocks.share(), node_id: self.node_id.duplicate() })
    }

    /// An admin backend over the locks of this mock.
    pub fn admin(&self) -> (r: MockAdmin)
        ensures
            r.nblocks == self.nblocks,
    {
        MockAdmin { nblocks: self.nblocks.share() }
    }

    /// Get a mocked non-blocking lock for assertions and manipulation.
    pub fn non_blocking_lock(&self, lock: &str) -> (r: MockNonBlockingLock)
        ensures
            r.lock_id@ == lock@,
    {
        self.nblocks.get_or_insert(lock, &self.node_id)
    }
}

} // verus!
