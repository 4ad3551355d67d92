//! The coordination API: access to the current node ID, elections and locks
//! through a backend.
use vstd::prelude::*;

use super::election::ElectionStatus;
use super::election::ElectionWatch;
use super::error::Result;
use super::lock::NonBlockingLock;
use super::lock::NonBlockingLockBehaviour;
use super::node_id::NodeId;

verus! {

/// Distributed coordination backend interface.
pub trait Backend {
    /// The lock behaviour of this backend.
    type Lock: NonBlockingLockBehaviour;

    /// The ID of the current node.
    spec fn spec_node_id(&self) -> NodeId;

    /// Get the ID of the current node.
    fn node_id(&self) -> (r: &NodeId)
        ensures
            *r == self.spec_node_id();

    /// Return a non-blocking lock that can be acquired/released as needed.
    fn non_blocking_lock(&self, lock: String) -> Self::Lock;
}

/// Interface to access distributed coordination services.
pub struct Coordinator<B: Backend>(B);

impl<B: Backend> Coordinator<B> {
    /// A coordinator using the given backend.
    pub fn with_backend(backend: B) -> (r: Coordinator<B>)
        ensures
            r.backend() == backend,
    {
        Coordinator(backend)
    }

    /// The backend of this coordinator.
    pub closed spec fn backend(&self) -> B {
        self.0
    }

    /// Get the ID of the current node.
    pub fn node_id(&self) -> (r: &NodeId)
        ensures
            *r == self.backend().spec_node_id(),
    {
        self.0.node_id()
    }

    /// Return a non-blocking lock that can be acquired/released as needed.
    ///
    /// If a lock is already held by a process (including the current process)
    /// any acquire operation will fail.
    /// Only locks that are currently held can be released.
    pub fn non_blocking_lock(&self, lock: &str) -> (r: NonBlockingLock<B::Lock>)
        ensures
            exists|name: String| name@ == lock@ && call_ensures(B::non_blocking_lock, (&self.backend(), name), r.behaviour()),
    {
        let lock = String::from_str(lock);
        NonBlockingLock::new(self.0.non_blocking_lock(lock))
    }
}

/// Backend specific elections behaviours.
pub trait ElectionBehaviour {
    /// Run for election.
    fn run(&mut self) -> Result<()>;

    /// Check the current election status.
    fn status(&self) -> ElectionStatus;

    /// Relinquish primary role, if primary, and remove itself from the election.
    fn step_down(&mut self) -> Result<()>;

    /// Step down logic called when the election instance is dropped.
    fn step_down_on_drop(&mut self);

    /// Watch the election for changes.
    fn watch(&self) -> ElectionWatch;
}

/// Election for a single primary with secondaries ready to take over.
pub struct Election<E: ElectionBehaviour>(E);

impl<E: ElectionBehaviour> Election<E> {
    /// An election with the given backend behaviour.
    pub fn new(inner: E) -> (r: Election<E>)
        ensures
            r.behaviour() == inner,
    {
        Election(inner)
    }

    /// The backend behaviour of this election.
    pub closed spec fn behaviour(&self) -> E {
        self.0
    }

    /// Run for election.
    pub fn run(&mut self) -> Result<()> {
        self.0.run()
    }

    /// Check the current election status.
    pub fn status(&self) -> (r: ElectionStatus)
        ensures
            call_ensures(E::status, (&self.behaviour(),), r),
    {
        self.0.status()
    }

    /// Relinquish primary role, if primary, and remove itself from the election.
    pub fn step_down(&mut self) -> Result<()> {
        self.0.step_down()
    }

    /// Step down as dropping the election would.
    pub fn step_down_on_drop(&mut self) {
        self.0.step_down_on_drop()
    }

    /// Watch the election for changes.
    pub fn watch(&self) -> (r: ElectionWatch)
        ensures
            call_ensures(E::watch, (&self.behaviour(),), r),
    {
        self.0.watch()
    }
}

} // verus!
