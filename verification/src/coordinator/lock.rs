//! Non-blocking locks: the lock API, the synchronised state of a ZooKeeper
//! backed lock and the rules that interpret ZooKeeper replies for locks.
use vstd::prelude::*;

use crate::text::joined;

use super::error::Error;
use super::error::ErrorKind;
use super::error::Result;
use super::flag::SharedFlag;
use super::node_id::NodeId;
use super::zookeeper::Client;
use super::zookeeper::ZkEventType;
use super::zookeeper::ZkFailure;
use super::zookeeper::ZkStat;
use super::zookeeper::ZnodeClient;
use super::zookeeper::ZnodeMode;
use super::zookeeper::created_by;
use super::zookeeper::deleted_at_by;
use super::zookeeper::Recorder;
use super::zookeeper::ZnodeOp;
use super::zookeeper::stat_by;
use super::zookeeper::hash_path;
use super::zookeeper::key_hash;
use super::zookeeper::prefix_lock;
use super::zookeeper::prefix_lock_text;

verus! {

/// A shared flag that is kept in sync with the state of a lock.
///
/// This can be used by applications to pass around a "flag" that matches the state of the
/// lock and can be used to change course of action in case the lock is lost.
///
///   * A `true` value indicates the lock is held.
///   * A `false` value indicates the lock is NOT held.
pub struct NonBlockingLockWatcher(SharedFlag);

impl NonBlockingLockWatcher {
    /// A watcher reading the given flag.
    pub fn new(inner: SharedFlag) -> (r: NonBlockingLockWatcher)
        ensures
            r.flag() == inner,
    {
        NonBlockingLockWatcher(inner)
    }

    /// The flag this watcher reads.
    pub closed spec fn flag(&self) -> SharedFlag {
        self.0
    }

    /// Check if the lock is (still) held.
    ///
    /// The flag is shared with the lock, which may change it at any time.
    pub fn inspect(&self) -> (r: bool) {
        self.0.load()
    }
}

/// Backend specific non-blocking lock behaviours.
pub trait NonBlockingLockBehaviour {
    /// Attempt to acquire a non-blocking lock.
    fn acquire(&mut self) -> Result<()>;

    /// Lightweight check if the lock is held by us.
    fn check(&self) -> bool {
        self.watch().inspect()
    }

    /// Attempt to release a non-blocking lock.
    fn release(&mut self) -> Result<()>;

    /// Attempt to release a non-blocking lock when it is dropped.
    fn release_on_drop(&mut self);

    /// Return a shared flag that is kept in sync with the state of the lock.
    fn watch(&self) -> NonBlockingLockWatcher;
}

/// A non-blocking lock that can be acquired/released as needed.
///
/// If a lock is already held by a process (including the current process)
/// any acquire operation will fail.
/// Only locks that are currently held can be released.
///
/// Locks are automatically released if the process that holds them crashes
/// (or is no longer able to talk to the coordination system).
///
/// If a lock is lost (the coordinator is no longer reachable or thinks we no longer
/// hold the lock for any reason) the state is changed and applications can check this.
pub struct NonBlockingLock<B: NonBlockingLockBehaviour> {
    behaviour: B,
}

impl<B: NonBlockingLockBehaviour> NonBlockingLock<B> {
    /// A lock with the given backend behaviour.
    pub fn new(behaviour: B) -> (r: NonBlockingLock<B>)
        ensures
            r.behaviour() == behaviour,
    {
        NonBlockingLock { behaviour }
    }

    /// The backend behaviour of this lock.
    pub closed spec fn behaviour(&self) -> B {
        self.behaviour
    }

    /// Attempt to acquire the named lock.
    pub fn acquire(&mut self) -> Result<()> {
        self.behaviour.acquire()
    }

    /// Lightweight check if the lock is held by us.
    pub fn check(&self) -> (r: bool)
        ensures
            call_ensures(B::check, (&self.behaviour(),), r),
    {
        self.behaviour.check()
    }

    /// Attempt to release the named lock.
    pub fn release(&mut self) -> Result<()> {
        self.behaviour.release()
    }

    /// Release the lock as dropping it would.
    pub fn release_on_drop(&mut self) {
        self.behaviour.release_on_drop()
    }

    /// Return a shared flag that is kept in sync with the state of the lock.
    pub fn watch(&self) -> (r: NonBlockingLockWatcher)
        ensures
            call_ensures(B::watch, (&self.behaviour(),), r),
    {
        self.behaviour.watch()
    }
}

/// Non-blocking locks payload stored in the ephemeral lock znodes.
pub struct NBLockInfo {
    pub name: String,
    pub owner: NodeId,
}

/// Abstract value of the synchronised state of a lock.
pub struct NblView {
    /// Whether the lock is held by us.
    pub held: bool,
    /// The transaction that created our lock znode, while held.
    pub czxid: Option<i64>,
    /// Number of releases so far: an acquisition that started before a release is stale.
    pub version: u64,
}

/// Synchronised internal state for non-blocking locks.
///
/// The state of a lock can be:
///
///   * not held, with no `czxid`;
///   * held by us, with the `czxid` of the lock znode we created.
pub struct NblSyncState {
    /// Flag shared with the watchers of the lock.
    pub acquired: SharedFlag,
    /// Whether the lock is held by us.
    pub held: bool,
    /// The transaction that created our lock znode, while held.
    pub czxid: Option<i64>,
    /// Number of releases so far.
    pub version: u64,
    /// Name of the lock.
    pub lock: String,
}

/// The state after an acquisition that started at `version` completed with the
/// lock znode created by `czxid`; `None` if the lock was released meanwhile.
pub open spec fn acquire_view(s: NblView, czxid: i64, version: u64) -> Option<NblView> {
    if s.version != version {
        None
    } else {
        Some(NblView { held: true, czxid: Some(czxid), version: s.version })
    }
}

/// The state after a release.
pub open spec fn release_view(s: NblView) -> NblView {
    NblView { held: false, czxid: None, version: (s.version + 1) as u64 }
}

impl View for NblSyncState {
    type V = NblView;

    open spec fn view(&self) -> NblView {
        NblView { held: self.held, czxid: self.czxid, version: self.version }
    }
}

impl NblSyncState {
    /// A held lock always records its znode, and only then.
    pub open spec fn wf(&self) -> bool {
        self.held <==> self.czxid is Some
    }

    /// The state of a lock that was never acquired.
    pub fn new(lock: String) -> (r: NblSyncState)
        ensures
            r.wf(),
            r@ == (NblView { held: false, czxid: None, version: 0 }),
            r.lock == lock,
    {
        NblSyncState { acquired: SharedFlag::new(false), held: false, czxid: None, version: 0, lock }
    }

    /// Record the lock as held, unless it was released since `version` was inspected.
    pub fn acquire(&mut self, czxid: i64, version: u64) -> (r: std::result::Result<(), ErrorKind>)
        requires
            old(self).wf(),
        ensures
            final(self).wf(),
            final(self).lock == old(self).lock,
            final(self).acquired == old(self).acquired,
            match acquire_view(old(self)@, czxid, version) {
                Some(v) => r is Ok && final(self)@ == v,
                None => (r matches Err(e) && e@ == ErrorKind::LockLost(old(self).lock)@) && final(self)@ == old(self)@,
            },
    {
        if self.version != version {
            return Err(ErrorKind::LockLost(self.lock.clone()));
        }
        self.acquired.store(true);
        self.held = true;
        self.czxid = Some(czxid);
        Ok(())
    }

    /// Inspect the state: whether the lock is held, its znode and the release count.
    pub fn inspect(&self) -> (r: (bool, Option<i64>, u64))
        ensures
            r == (self.held, self.czxid, self.version),
    {
        (self.held, self.czxid, self.version)
    }

    /// Record the lock as no longer held.
    pub fn release(&mut self)
        requires
            old(self).version < u64::MAX,
        ensures
            final(self).wf(),
            final(self).lock == old(self).lock,
            final(self).acquired == old(self).acquired,
            final(self)@ == release_view(old(self)@),
    {
        self.acquired.store(false);
        self.held = false;
        self.czxid = None;
        self.version = self.version + 1;
    }

    /// Return a watcher of the lock state.
    pub fn watch(&self) -> (r: NonBlockingLockWatcher)
        ensures
            r.flag() == self.acquired,
    {
        NonBlockingLockWatcher::new(self.acquired.share())
    }
}

/// An acquisition that started before a release cannot mark the lock held:
/// the release makes it stale.
pub proof fn law_release_makes_pending_acquire_stale(s: NblView, czxid: i64)
    requires
        s.version < u64::MAX,
    ensures
        acquire_view(release_view(s), czxid, s.version) is None,
{
}

/// An acquisition that started at the current version holds the lock with the
/// znode it created.
pub proof fn law_current_acquire_holds(s: NblView, czxid: i64)
    ensures
        acquire_view(s, czxid, s.version) == Some(NblView { held: true, czxid: Some(czxid), version: s.version }),
{
}

/// A release leaves the lock not held, whatever its state.
pub proof fn law_release_leaves_lock_free(s: NblView)
    requires
        s.version < u64::MAX,
    ensures
        !release_view(s).held,
        release_view(s).czxid is None,
        release_view(s).version == s.version + 1,
{
}

/// The znode path of the named lock.
pub open spec fn lock_path(lock: Seq<char>) -> Seq<char> {
    hash_path(prefix_lock(), key_hash(lock))
}

/// The znode path of the named lock.
pub fn lock_znode_path(lock: &str) -> (r: String)
    ensures
        r@ == lock_path(lock@),
{
    Client::path_from_key(prefix_lock_text(), lock)
}

/// What a watch notification on the lock znode calls for.
#[derive(PartialEq, Eq, Structural, Clone, Copy, Debug)]
pub enum LockEventStep {
    /// The lock is not held: nothing to do.
    Ignore,
    /// The lock znode was deleted: the lock is lost.
    Lost,
    /// Install the watcher again.
    Rewatch,
}

/// What a watch notification on the lock znode calls for.
pub fn lock_event_step(acquired: bool, event: ZkEventType) -> (r: LockEventStep)
    ensures
        !acquired ==> r == LockEventStep::Ignore,
        acquired && event == ZkEventType::NodeDeleted ==> r == LockEventStep::Lost,
        acquired && event != ZkEventType::NodeDeleted ==> r == LockEventStep::Rewatch,
{
    if !acquired {
        return LockEventStep::Ignore;
    }
    match event {
        ZkEventType::NodeDeleted => LockEventStep::Lost,
        _ => LockEventStep::Rewatch,
    }
}

/// What a lookup of the lock znode found.
#[derive(PartialEq, Eq, Structural, Clone, Copy, Debug)]
pub enum ZnodeLookup {
    /// The znode exists, with these statistics.
    Exists(ZkStat),
    /// The znode does not exist.
    Missing,
    /// The lookup failed.
    Failed,
}

/// How watching the lock znode again ended.
#[derive(PartialEq, Eq, Structural, Clone, Copy, Debug)]
pub enum RewatchStep {
    /// The znode is still there: the lock is still held.
    Keep,
    /// The znode was deleted before the watcher was installed: the lock is lost.
    LostDeleted,
    /// The watcher could not be installed: the lock is lost.
    LostSession,
}

/// How watching the lock znode again ended.
pub fn rewatch_step(lookup: ZnodeLookup) -> (r: RewatchStep)
    ensures
        r == match lookup {
            ZnodeLookup::Exists(_) => RewatchStep::Keep,
            ZnodeLookup::Missing => RewatchStep::LostDeleted,
            ZnodeLookup::Failed => RewatchStep::LostSession,
        },
{
    match lookup {
        ZnodeLookup::Exists(_) => RewatchStep::Keep,
        ZnodeLookup::Missing => RewatchStep::LostDeleted,
        ZnodeLookup::Failed => RewatchStep::LostSession,
    }
}

/// The next step of an acquisition after creating the lock znode.
pub enum CreateLockStep {
    /// The znode was created: watch it.
    Created,
    /// The lock is taken: read its owner to report it.
    ReadOwner,
    /// The acquisition failed.
    Failed(ErrorKind),
}

/// The next step of an acquisition after creating the lock znode.
pub fn create_lock_step(created: std::result::Result<(), ZkFailure>) -> (r: CreateLockStep)
    ensures
        match created {
            Ok(()) => r is Created,
            Err(ZkFailure::NodeExists) => r is ReadOwner,
            Err(_) => (r matches CreateLockStep::Failed(e) && e@ == ErrorKind::Backend("lock acquisition")@),
        },
{
    match created {
        Ok(()) => CreateLockStep::Created,
        Err(ZkFailure::NodeExists) => CreateLockStep::ReadOwner,
        Err(_) => CreateLockStep::Failed(ErrorKind::Backend("lock acquisition")),
    }
}

/// The next step of an acquisition given the reply to creating the lock znode.
pub open spec fn lock_created(created: std::result::Result<String, ZkFailure>, r: CreateLockStep) -> bool {
    match created {
        Ok(_) => r is Created,
        Err(ZkFailure::NodeExists) => r is ReadOwner,
        Err(_) => (r matches CreateLockStep::Failed(e) && e@ == ErrorKind::Backend("lock acquisition")@),
    }
}

/// Create the lock znode at `path` with the given payload.
///
/// The znode is ephemeral: ZooKeeper deletes it when the session that created
/// it ends, so the lock of a process that crashes or loses its session is
/// released.
pub fn create_lock_znode<C: ZnodeClient>(client: &C, path: &str, payload: &Vec<u8>) -> (r: CreateLockStep)
    ensures
        exists|created| #[trigger] created_by(client, path@, payload@, ZnodeMode::Ephemeral, created) && lock_created(created, r),
{
    let data = payload.clone();
    let ghost d = data;
    let created = client.create(path, data, ZnodeMode::Ephemeral);
    assert(created_by(client, path@, payload@, ZnodeMode::Ephemeral, created)) by {
        assert(call_ensures(C::create, (client, path, d, ZnodeMode::Ephemeral), created));
    }
    let ghost c = created;
    let created = match created {
        Ok(_) => Ok(()),
        Err(e) => Err(e),
    };
    let r = create_lock_step(created);
    assert(lock_created(c, r));
    r
}

/// The error for a lock taken by the given owner.
pub fn lock_held(lock: &String, owner: &NodeId) -> (r: Error)
    ensures
        r.spec_kind()@ == ErrorKind::LockHeld(*lock, *owner)@,
{
    Error::from_kind(ErrorKind::LockHeld(lock.clone(), owner.duplicate()))
}

/// The outcome of watching the lock znode just created: the czxid that marks
/// the lock as ours.
pub fn created_watch_step(lookup: ZnodeLookup, lock: &String) -> (r: std::result::Result<i64, ErrorKind>)
    ensures
        match lookup {
            ZnodeLookup::Exists(stat) => r == Ok::<i64, ErrorKind>(stat.czxid),
            ZnodeLookup::Missing => (r matches Err(e) && e@ == ErrorKind::LockLost(*lock)@),
            ZnodeLookup::Failed => (r matches Err(e) && e@ == ErrorKind::Backend("lock watching")@),
        },
{
    match lookup {
        ZnodeLookup::Exists(stat) => Ok(stat.czxid),
        ZnodeLookup::Missing => Err(ErrorKind::LockLost(lock.clone())),
        ZnodeLookup::Failed => Err(ErrorKind::Backend("lock watching")),
    }
}

/// The next step of a release once the lock znode was looked up.
pub enum ReleaseStep {
    /// The znode is gone: nothing to delete.
    Done,
    /// The znode is the one we created: delete it.
    Delete,
    /// The znode was created by someone else: report its owner, delete nothing.
    ReportOwner,
    /// The lookup failed.
    Failed(ErrorKind),
}

/// The next step of a release once the lock znode was looked up.
///
/// Only the znode that our acquisition created is deleted, so that a lock
/// taken over by another process is never released by us.
pub fn release_step(held_czxid: i64, lookup: ZnodeLookup) -> (r: ReleaseStep)
    ensures
        match lookup {
            ZnodeLookup::Missing => r is Done,
            ZnodeLookup::Exists(stat) => if stat.czxid == held_czxid {
                r is Delete
            } else {
                r is ReportOwner
            },
            ZnodeLookup::Failed => (r matches ReleaseStep::Failed(e) && e@ == ErrorKind::Backend("lock stats fetching")@),
        },
{
    match lookup {
        ZnodeLookup::Missing => ReleaseStep::Done,
        ZnodeLookup::Exists(stat) => if stat.czxid == held_czxid {
            ReleaseStep::Delete
        } else {
            ReleaseStep::ReportOwner
        },
        ZnodeLookup::Failed => ReleaseStep::Failed(ErrorKind::Backend("lock stats fetching")),
    }
}

/// The outcome of deleting our lock znode: a znode that is already gone is fine.
pub fn release_delete_step(deleted: std::result::Result<(), ZkFailure>) -> (r: std::result::Result<(), ErrorKind>)
    ensures
        (deleted is Ok || deleted == Err::<(), ZkFailure>(ZkFailure::NoNode)) ==> r is Ok,
        !(deleted is Ok || deleted == Err::<(), ZkFailure>(ZkFailure::NoNode)) ==> (r matches Err(e) && e@ == ErrorKind::Backend("lock release")@),
{
    match deleted {
        Ok(()) => Ok(()),
        Err(ZkFailure::NoNode) => Ok(()),
        Err(_) => Err(ErrorKind::Backend("lock release")),
    }
}

/// How releasing a lock ended.
#[derive(PartialEq, Eq, Structural, Clone, Copy, Debug)]
pub enum ReleaseOutcome {
    /// The lock was not held: nothing was done.
    NotHeld,
    /// Our lock znode was deleted.
    Released,
    /// The lock znode was already gone.
    Gone,
    /// The lock znode belongs to someone else and was left alone; its owner
    /// is worth reporting.
    NotOwner,
}

/// `r` is the outcome of releasing, through the client, the lock znode at
/// `path` that our acquisition created with `held_czxid`, given the reply
/// `looked` to looking it up: the znode is deleted only when it is ours.
pub open spec fn released_by<C: ZnodeClient>(client: &C, path: Seq<char>, held_czxid: i64, looked: std::result::Result<Option<ZkStat>, ZkFailure>, r: std::result::Result<ReleaseOutcome, ErrorKind>) -> bool {
    match looked {
        Err(_) => r matches Err(e) && e@ == ErrorKind::Backend("lock stats fetching")@,
        Ok(None) => r == Ok::<ReleaseOutcome, ErrorKind>(ReleaseOutcome::Gone),
        Ok(Some(stat)) => if stat.czxid == held_czxid {
            exists|deleted| #[trigger] deleted_at_by(client, path, None, deleted) && if deleted is Ok || deleted == Err::<(), ZkFailure>(ZkFailure::NoNode) {
                r == Ok::<ReleaseOutcome, ErrorKind>(ReleaseOutcome::Released)
            } else {
                r matches Err(e) && e@ == ErrorKind::Backend("lock release")@
            }
        } else {
            r == Ok::<ReleaseOutcome, ErrorKind>(ReleaseOutcome::NotOwner)
        },
    }
}

/// The operations a release makes once the lock znode at `path` was looked
/// up with the reply `looked`: the lookup, then a delete of the znode only
/// when it is the one created with `held_czxid`.
pub open spec fn release_ops(path: Seq<char>, held_czxid: i64, looked: std::result::Result<Option<ZkStat>, ZkFailure>) -> Seq<ZnodeOp> {
    let lookup = seq![ZnodeOp::Stat(path, looked)];
    match looked {
        Ok(Some(stat)) => if stat.czxid == held_czxid {
            lookup.push(ZnodeOp::Delete(path, None))
        } else {
            lookup
        },
        _ => lookup,
    }
}

/// Release a lock held through the given ZooKeeper session.
///
/// The lock znode is looked up first: the lock is then marked as released
/// whatever the znode holds, and the znode is deleted only when it is the one
/// our acquisition created. A lock that is not held makes no operation.
pub fn release_lock<C: ZnodeClient>(client: &mut Recorder<C>, state: &mut NblSyncState, path: &str) -> (r: std::result::Result<ReleaseOutcome, ErrorKind>)
    requires
        old(state).wf(),
        old(state).version < u64::MAX,
    ensures
        final(state).wf(),
        final(state).lock == old(state).lock,
        final(state).acquired == old(state).acquired,
        final(client).client() == old(client).client(),
        !old(state).held ==> r == Ok::<ReleaseOutcome, ErrorKind>(ReleaseOutcome::NotHeld) && final(state)@ == old(state)@
            && final(client).ops() == old(client).ops(),
        old(state).held ==> match r {
            Ok(outcome) => outcome != ReleaseOutcome::NotHeld && final(state)@ == release_view(old(state)@),
            Err(e) => (e@ == ErrorKind::Backend("lock stats fetching")@ && final(state)@ == old(state)@)
                || (e@ == ErrorKind::Backend("lock release")@ && final(state)@ == release_view(old(state)@)),
        },
        old(state).held ==> exists|looked| #[trigger] stat_by(old(client).client(), path@, looked)
            && released_by(old(client).client(), path@, old(state).czxid->Some_0, looked, r)
            && final(client).ops() == old(client).ops() + release_ops(path@, old(state).czxid->Some_0, looked),
{
    let ghost before = client.ops();
    let (acquired, czxid, _) = state.inspect();
    if !acquired {
        return Ok(ReleaseOutcome::NotHeld);
    }
    let czxid = match czxid {
        Some(c) => c,
        None => {
            return Ok(ReleaseOutcome::NotHeld);
        },
    };
    let looked = client.stat(path);
    let ghost lk = looked;
    let lookup = match looked {
        Ok(Some(stat)) => ZnodeLookup::Exists(stat),
        Ok(None) => ZnodeLookup::Missing,
        Err(_) => ZnodeLookup::Failed,
    };
    let step = release_step(czxid, lookup);
    if let ReleaseStep::Failed(e) = step {
        assert(client.ops() =~= before + release_ops(path@, czxid, lk));
        return Err(e);
    }
    state.release();
    match step {
        ReleaseStep::Done => {
            assert(client.ops() =~= before + release_ops(path@, czxid, lk));
            Ok(ReleaseOutcome::Gone)
        },
        ReleaseStep::ReportOwner => {
            assert(client.ops() =~= before + release_ops(path@, czxid, lk));
            Ok(ReleaseOutcome::NotOwner)
        },
        ReleaseStep::Delete => {
            let deleted = client.delete(path, None);
            let r = match release_delete_step(deleted) {
                Ok(()) => Ok(ReleaseOutcome::Released),
                Err(e) => Err(e),
            };
            assert(released_by(old(client).client(), path@, czxid, lk, r));
            assert(client.ops() =~= before + release_ops(path@, czxid, lk));
            r
        },
        ReleaseStep::Failed(e) => Err(e),
    }
}

} // verus!
