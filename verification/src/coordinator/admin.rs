//! Administration of distributed coordination: elections and locks as seen
//! from outside the processes that hold them.
use vstd::prelude::*;

use crate::text::joined;
use crate::text::join_path;

use super::config::ZookeeperConfig;
use super::election::admin_primary_path;
use super::election::election_secondaries_count;
use super::election::election_step_down;
use super::election::election_candidates;
use super::election::candidates_listed_by;
use super::election::primary_of;
use super::election::spec_secondaries;
use super::election::stepped_down_by;
use super::error::Error;
use super::error::ErrorKind;
use super::error::ErrorKindView;
use super::error::Result;
use super::mock::MockLocks;
use super::mock::names_distinct;
use super::mock::MockNonBlockingLock;
use super::node_id::NodeId;
use super::zookeeper::ZnodeClient;
use super::zookeeper::Recorder;
use super::zookeeper::children_by;
use super::zookeeper::prefix_election;
use super::zookeeper::prefix_election_text;

verus! {

/// Admin backend for ZooKeeper distributed coordination.
pub struct ZookeeperAdmin {}

impl ZookeeperAdmin {
    /// An admin backend for the configured ZooKeeper ensemble.
    pub fn new(config: ZookeeperConfig) -> (r: Result<ZookeeperAdmin>)
        ensures
            r is Ok,
    {
        Ok(ZookeeperAdmin {})
    }
}

/// Admin tools for an election stored under a ZooKeeper path.
pub struct Election {
    name: String,
    path: String,
}

impl Election {
    /// The name of the election.
    pub closed spec fn spec_name(&self) -> Seq<char> {
        self.name@
    }

    /// The path of the election container.
    pub closed spec fn spec_path(&self) -> Seq<char> {
        self.path@
    }

    /// Model the election with the given name, stored under the given path.
    pub fn new(name: String, path: String) -> (r: Election)
        ensures
            r.spec_name() == name@,
            r.spec_path() == path@,
    {
        Election { name, path }
    }

    /// Return the name for this election.
    pub fn name(&self) -> (r: &str)
        ensures
            r@ == self.spec_name(),
    {
        self.name.as_str()
    }

    /// The path of the znode of the primary, if a primary is elected: the
    /// candidate that a refresh of the election elects.
    pub fn primary_znode<C: ZnodeClient>(&self, client: &C) -> (r: Result<Option<String>>)
        ensures
            exists|listed| #[trigger] candidates_listed_by(client, self.spec_path(), listed) && match listed {
                Err(e) => r matches Err(x) && x.spec_kind()@ == e@,
                Ok(None) => r matches Ok(None),
                Ok(Some(c)) => if c@.len() == 0 {
                    r matches Ok(None)
                } else {
                    r matches Ok(Some(p)) && p@ == primary_of(self.spec_path(), c@)
                },
            },
    {
        let listed = election_candidates(client, self.path.as_str());
        let ghost l = listed;
        proof {
            assert(candidates_listed_by(client, self.spec_path(), l));
        }
        let candidates = match listed {
            Ok(c) => c,
            Err(e) => {
                return Err(Error::from_kind(e));
            },
        };
        match candidates {
            None => Ok(None),
            Some(candidates) => Ok(admin_primary_path(self.path.as_str(), &candidates)),
        }
    }

    /// The number of secondary nodes waiting to take over if needed.
    pub fn secondaries_count<C: ZnodeClient>(&self, client: &C) -> (r: Result<usize>)
        ensures
            exists|listed| #[trigger] candidates_listed_by(client, self.spec_path(), listed) && match listed {
                Ok(c) => r matches Ok(n) && n == spec_secondaries(c),
                Err(e) => r matches Err(x) && x.spec_kind()@ == e@,
            },
    {
        let counted = election_secondaries_count(client, self.path.as_str());
        proof {
            let listed = choose|listed| #[trigger] candidates_listed_by(client, self.spec_path(), listed) && match listed {
                Ok(c) => counted == Ok::<usize, ErrorKind>(spec_secondaries(c)),
                Err(e) => counted matches Err(x) && x@ == e@,
            };
            assert(candidates_listed_by(client, self.spec_path(), listed));
        }
        match counted {
            Ok(n) => Ok(n),
            Err(e) => Err(Error::from_kind(e)),
        }
    }

    /// Strip the current primary of its role and force a new election; `false`
    /// when there is no primary.
    pub fn step_down<C: ZnodeClient>(&self, client: &mut Recorder<C>) -> (r: Result<bool>)
        ensures
            final(client).client() == old(client).client(),
            exists|listed, outcome, made| #[trigger] stepped_down_by(old(client).client(), self.spec_path(), listed, outcome, made)
                && final(client).ops() == old(client).ops() + made && match outcome {
                Ok(b) => r matches Ok(x) && x == b,
                Err(e) => r matches Err(x) && x.spec_kind()@ == e@,
            },
    {
        let ghost zk = client.client();
        let ghost start = client.ops();
        let outcome = election_step_down(client, self.path.as_str());
        proof {
            let (listed, made) = choose|listed, made| children_by(zk, self.spec_path(), listed)
                && #[trigger] stepped_down_by(zk, self.spec_path(), listed, outcome, made) && client.ops() == start + made;
            assert(stepped_down_by(zk, self.spec_path(), listed, outcome, made));
        }
        match outcome {
            Ok(b) => Ok(b),
            Err(e) => Err(Error::from_kind(e)),
        }
    }
}

/// The next thing to do while listing elections.
#[derive(Debug)]
pub enum ElectionsStep {
    /// List the children of the elections container and hand them to
    /// [`ZooKeeperElections::loaded`].
    Load,
    /// Inspect the election stored under this path: an election that no longer
    /// exists is skipped.
    Inspect(String),
    /// No more elections.
    End,
}

/// Iterate over the elections stored in ZooKeeper: the elections container is
/// listed once, then each election path is handed out in listing order.
pub struct ZooKeeperElections {
    paths: Option<Vec<String>>,
    next: usize,
}

impl ZooKeeperElections {
    /// The election paths still to hand out, once listed.
    pub closed spec fn spec_pending(&self) -> Option<Seq<Seq<char>>> {
        match self.paths {
            None => None,
            Some(p) => Some(p@.skip(self.next as int).map_values(|s: String| s@)),
        }
    }

    /// The position stays within the listing.
    pub closed spec fn wf(&self) -> bool {
        match self.paths {
            None => self.next == 0,
            Some(p) => self.next <= p@.len(),
        }
    }

    /// A listing that has not loaded the elections yet.
    pub fn new() -> (r: ZooKeeperElections)
        ensures
            r.wf(),
            r.spec_pending() is None,
    {
        ZooKeeperElections { paths: None, next: 0 }
    }

    /// Hand out the next thing to do.
    pub fn next_step(&mut self) -> (r: ElectionsStep)
        requires
            old(self).wf(),
        ensures
            final(self).wf(),
            match old(self).spec_pending() {
                None => r is Load && final(self).spec_pending() is None,
                Some(p) => if p.len() == 0 {
                    r is End && final(self).spec_pending() == Some(p)
                } else {
                    r matches ElectionsStep::Inspect(path) && path@ == p[0] && final(self).spec_pending()
                        == Some(p.drop_first())
                },
            },
    {
        match &self.paths {
            None => ElectionsStep::Load,
            Some(paths) => {
                if self.next >= paths.len() {
                    return ElectionsStep::End;
                }
                let path = paths[self.next].clone();
                let ghost before = paths@.skip(self.next as int).map_values(|s: String| s@);
                self.next = self.next + 1;
                proof {
                    let after = paths@.skip(self.next as int).map_values(|s: String| s@);
                    assert(after =~= before.drop_first());
                }
                ElectionsStep::Inspect(path)
            },
        }
    }

    /// Hand the listing of the elections container to the iterator.
    ///
    /// On error the listing is cached as empty, so the error is reported once
    /// and no further attempt is made.
    pub fn loaded(&mut self, children: std::result::Result<Vec<String>, ErrorKind>) -> (r: Option<Error>)
        requires
            old(self).wf(),
        ensures
            final(self).wf(),
            match children {
                Ok(c) => {
                    &&& r is None
                    &&& final(self).spec_pending() matches Some(p) && p.len() == c@.len()
                        && forall|i: int| 0 <= i < p.len() ==> #[trigger] p[i] == joined(prefix_election(), c@[i]@)
                },
                Err(e) => {
                    &&& r matches Some(err) && err.spec_kind()@ == ErrorKind::Backend("elections listing")@
                    &&& final(self).spec_pending() == Some(Seq::<Seq<char>>::empty())
                },
            },
    {
        match children {
            Ok(children) => {
                let mut paths: Vec<String> = Vec::new();
                let mut i: usize = 0;
                while i < children.len()
                    invariant
                        0 <= i <= children@.len(),
                        paths@.len() == i,
                        forall|k: int| 0 <= k < i ==> (#[trigger] paths@[k])@ == joined(prefix_election(), children@[k]@),
                    decreases children@.len() - i,
                {
                    paths.push(join_path(prefix_election_text(), children[i].as_str()));
                    i = i + 1;
                }
                self.paths = Some(paths);
                self.next = 0;
                proof {
                    assert(paths@.skip(0) =~= paths@);
                }
                None
            },
            Err(_) => {
                self.paths = Some(Vec::new());
                self.next = 0;
                proof {
                    assert(Seq::<String>::empty().skip(0).map_values(|s: String| s@) =~= Seq::<Seq<char>>::empty());
                }
                Some(Error::from_kind(ErrorKind::Backend("elections listing")))
            },
        }
    }
}

/// Admin view of a mocked non-blocking lock.
pub struct MockNBLAdmin {
    pub lock: MockNonBlockingLock,
}

impl MockNBLAdmin {
    /// Release the lock whoever holds it.
    pub fn force_release(&mut self) -> (r: Result<()>)
        ensures
            *final(self) == *old(self),
            r is Ok || (r matches Err(e) && e.spec_kind()@ == ErrorKind::LockNotHeld(old(self).lock.lock_id, old(self).lock.node_id)@),
    {
        self.lock.release()
    }

    /// The node that owns the lock.
    pub fn owner(&self) -> (r: NodeId)
        ensures
            r@ == self.lock.node_id@,
    {
        self.lock.node_id()
    }
}

/// Admin backend over the locks of a mock coordinator.
pub struct MockAdmin {
    pub nblocks: MockLocks,
}

impl MockAdmin {
    /// The version of the mocked backend.
    pub fn version(&self) -> (r: Result<String>)
        ensures
            r matches Ok(v) && v@ == "MockAdmin 0.2.0"@,
    {
        Ok(String::from_str("MockAdmin 0.2.0"))
    }

    /// The nodes registered in the mocked backend: none.
    pub fn nodes(&self) -> (r: Vec<NodeId>)
        ensures
            r@.len() == 0,
    {
        Vec::new()
    }

    /// Model a mocked non-blocking lock, which must exist.
    pub fn non_blocking_lock(&self, lock: &str) -> (r: Result<MockNBLAdmin>)
        ensures
            r matches Ok(admin) ==> admin.lock.lock_id@ == lock@,
            r matches Err(e) ==> e.spec_kind()@ == ErrorKindView::LockNotFound(lock@),
    {
        match self.nblocks.get(lock) {
            None => Err(Error::from_kind(ErrorKind::LockNotFound(String::from_str(lock)))),
            Some(info) => Ok(MockNBLAdmin { lock: info }),
        }
    }

    /// The mocked non-blocking locks, each with its admin view.
    pub fn non_blocking_locks(&self) -> (r: Vec<(String, MockNBLAdmin)>)
        ensures
            forall|i: int| 0 <= i < r@.len() ==> (#[trigger] r@[i]).0@ == r@[i].1.lock.lock_id@,
            forall|i: int, j: int| 0 <= i < j < r@.len() ==> (#[trigger] r@[i]).0@ != (#[trigger] r@[j]).0@,
    {
        let all = self.nblocks.all();
        let mut out: Vec<(String, MockNBLAdmin)> = Vec::new();
        let mut all = all;
        while all.len() > 0
            invariant
                forall|i: int| 0 <= i < out@.len() ==> (#[trigger] out@[i]).0@ == out@[i].1.lock.lock_id@,
                forall|i: int, j: int| 0 <= i < j < out@.len() ==> (#[trigger] out@[i]).0@ != (#[trigger] out@[j]).0@,
                forall|i: int, j: int| 0 <= i < out@.len() && 0 <= j < all@.len() ==> (#[trigger] out@[i]).0@ != (#[trigger] all@[j]).lock_id@,
                names_distinct(all@),
            decreases all@.len(),
        {
            let lock = all.remove(0);
            let name = lock.lock_id.clone();
            out.push((name, MockNBLAdmin { lock }));
        }
        out
    }
}

} // verus!
