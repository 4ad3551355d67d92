//! Background cleanup of unused ZooKeeper container znodes.
//!
//! Prevents the prefix nodes that do not contain anything from piling up
//! without value.
use vstd::prelude::*;

use crate::text::join_path;
use crate::text::joined;

use super::error::ErrorKind;
use super::zookeeper::ZkFailure;
use super::zookeeper::ZnodeClient;
use super::zookeeper::ZkStat;
use super::zookeeper::prefix_election_text;
use super::zookeeper::prefix_lock_text;
use super::zookeeper::prefix_node_text;
use super::zookeeper::prefix_election;
use super::zookeeper::prefix_lock;
use super::zookeeper::prefix_node;
use super::zookeeper::children_by;
use super::zookeeper::stat_by;
use super::zookeeper::deleted_at_by;
use super::zookeeper::Recorder;
use super::zookeeper::ZnodeOp;

verus! {

/// What to do with a child znode once it was looked up.
pub enum CleanStep {
    /// The znode is gone or has children: leave it.
    Skip,
    /// The znode is empty: delete it at the given version.
    Delete(i32),
    /// The lookup failed.
    Fail(ErrorKind),
}

/// What to do with a child znode once it was looked up: only empty znodes are deleted.
pub fn clean_step(lookup: std::result::Result<Option<ZkStat>, ZkFailure>) -> (r: CleanStep)
    ensures
        match lookup {
            Err(ZkFailure::NoNode) | Ok(None) => r is Skip,
            Err(_) => (r matches CleanStep::Fail(e) && e@ == ErrorKind::Backend("node lookup")@),
            Ok(Some(stat)) => if stat.num_children != 0 {
                r is Skip
            } else {
                r == CleanStep::Delete(stat.version)
            },
        },
{
    match lookup {
        Err(ZkFailure::NoNode) => CleanStep::Skip,
        Ok(None) => CleanStep::Skip,
        Err(_) => CleanStep::Fail(ErrorKind::Backend("node lookup")),
        Ok(Some(stat)) => if stat.num_children != 0 {
            CleanStep::Skip
        } else {
            CleanStep::Delete(stat.version)
        },
    }
}

/// The deletion budget left after deleting a child znode.
///
/// A child that is already gone or that gained children counts against the budget too.
pub fn after_delete(deleted: std::result::Result<(), ZkFailure>, limit: usize) -> (r: std::result::Result<usize, ErrorKind>)
    requires
        limit > 0,
    ensures
        (deleted is Ok || deleted == Err::<(), ZkFailure>(ZkFailure::NoNode) || deleted == Err::<(), ZkFailure>(ZkFailure::NotEmpty)) ==> r == Ok::<usize, ErrorKind>((limit - 1) as usize),
        !(deleted is Ok || deleted == Err::<(), ZkFailure>(ZkFailure::NoNode) || deleted == Err::<(), ZkFailure>(ZkFailure::NotEmpty)) ==> (r matches Err(e) && e@ == ErrorKind::Backend("node delete")@),
{
    match deleted {
        Ok(()) => Ok(limit - 1),
        Err(ZkFailure::NoNode) => Ok(limit - 1),
        Err(ZkFailure::NotEmpty) => Ok(limit - 1),
        Err(_) => Err(ErrorKind::Backend("node delete")),
    }
}

/// Check if the limit of deletes for this cycle has been reached.
pub fn cycle_limit(limit: usize) -> (r: bool)
    ensures
        r == (limit == 0),
{
    limit == 0
}

/// `r` is the outcome of cleaning the children of `path` from the `i`-th on,
/// with `left` deletions allowed, and `ops` the operations made: each child is
/// looked up, empty children are deleted at the version looked up, and the
/// cleaning stops at the first failure or once the deletions allowed are used up.
pub open spec fn cleaned_from<C: ZnodeClient>(
    client: &C,
    path: Seq<char>,
    children: Seq<String>,
    i: int,
    left: usize,
    r: std::result::Result<usize, ErrorKind>,
    ops: Seq<ZnodeOp>,
) -> bool
    decreases children.len() - i,
{
    if 0 <= i < children.len() {
        let child = joined(path, children[i]@);
        ops.len() > 0 && match ops[0] {
            ZnodeOp::Stat(p, found) => p == child && stat_by(client, child, found) && match found {
                Err(ZkFailure::NoNode) => cleaned_from(client, path, children, i + 1, left, r, ops.drop_first()),
                Err(_) => ops.len() == 1 && (r matches Err(e) && e@ == ErrorKind::Backend("node lookup")@),
                Ok(None) => cleaned_from(client, path, children, i + 1, left, r, ops.drop_first()),
                Ok(Some(stat)) => if stat.num_children != 0 {
                    cleaned_from(client, path, children, i + 1, left, r, ops.drop_first())
                } else {
                    &&& ops.len() > 1
                    &&& ops[1] == ZnodeOp::Delete(child, Some(stat.version))
                    &&& exists|deleted| #[trigger] deleted_at_by(client, child, Some(stat.version), deleted) && if deleted is Ok
                        || deleted == Err::<(), ZkFailure>(ZkFailure::NoNode) || deleted == Err::<(), ZkFailure>(ZkFailure::NotEmpty) {
                        if left <= 1 {
                            ops.len() == 2 && r == Ok::<usize, ErrorKind>(0)
                        } else {
                            cleaned_from(client, path, children, i + 1, (left - 1) as usize, r, ops.subrange(2, ops.len() as int))
                        }
                    } else {
                        ops.len() == 2 && (r matches Err(e) && e@ == ErrorKind::Backend("node delete")@)
                    }
                },
            },
            _ => false,
        }
    } else {
        ops.len() == 0 && r == Ok::<usize, ErrorKind>(left)
    }
}

/// `r` is the outcome of cleaning the children of `path` through the client,
/// with `limit` deletions allowed, and `ops` the operations made: the children
/// are listed, then cleaned in order.
pub open spec fn cleaned_by<C: ZnodeClient>(client: &C, path: Seq<char>, limit: usize, r: std::result::Result<usize, ErrorKind>, ops: Seq<ZnodeOp>) -> bool {
    &&& ops.len() > 0
    &&& ops[0] == ZnodeOp::Children(path)
    &&& exists|listed| #[trigger] children_by(client, path, listed) && match listed {
        Err(_) => ops.len() == 1 && (r matches Err(e) && e@ == ErrorKind::Backend("children lookup")@),
        Ok(children) => cleaned_from(client, path, children@, 0, limit, r, ops.drop_first()),
    }
}

/// Every delete among the operations removes the znode looked up just before,
/// which had no children then, at the version the lookup saw.
pub open spec fn deletes_only_empty(ops: Seq<ZnodeOp>) -> bool {
    forall|k: int|
        #![trigger ops[k]]
        0 <= k < ops.len() && ops[k] is Delete ==> (k > 0 && (ops[k - 1] matches ZnodeOp::Stat(p, Ok(Some(st))) && p
            == ops[k]->Delete_0 && st.num_children == 0 && ops[k]->Delete_1 == Some(st.version)))
}

/// Operations that each delete only empty znodes still do so one after the other.
pub proof fn lemma_deletes_only_empty_concat(a: Seq<ZnodeOp>, b: Seq<ZnodeOp>)
    requires
        deletes_only_empty(a),
        deletes_only_empty(b),
    ensures
        deletes_only_empty(a + b),
{
    let c = a + b;
    assert forall|k: int| 0 <= k < c.len() && c[k] is Delete implies (k > 0 && (c[k - 1] matches ZnodeOp::Stat(p, Ok(Some(st))) && p
        == c[k]->Delete_0 && st.num_children == 0 && c[k]->Delete_1 == Some(st.version))) by {
        if k < a.len() {
            assert(c[k] == a[k]);
            assert(c[k - 1] == a[k - 1]);
        } else {
            assert(c[k] == b[k - a.len()]);
            assert(c[k - 1] == b[k - a.len() - 1]);
        }
    }
}

/// Clean the empty children of the given path, deleting at most `limit` of them.
///
/// Returns the deletion budget left: 0 once the limit is reached.
pub fn clean<C: ZnodeClient>(client: &mut Recorder<C>, path: &str, limit: usize) -> (r: std::result::Result<usize, ErrorKind>)
    requires
        limit > 0,
    ensures
        final(client).client() == old(client).client(),
        r matches Ok(left) ==> left <= limit,
        exists|made| #[trigger] cleaned_by(old(client).client(), path@, limit, r, made) && final(client).ops() == old(client).ops() + made
            && deletes_only_empty(made),
{
    let ghost zk = client.client();
    let ghost start = client.ops();
    let listed = client.get_children(path);
    let ghost l = listed;
    let ghost head = seq![ZnodeOp::Children(path@)];
    let children = match listed {
        Err(_) => {
            let r = Err(ErrorKind::Backend("children lookup"));
            assert(client.ops() =~= start + head);
            assert(cleaned_by(zk, path@, limit, r, head));
            return r;
        },
        Ok(children) => children,
    };
    let ghost all = children@;
    let mut limit_left = limit;
    let mut i: usize = 0;
    let ghost mut done: Seq<ZnodeOp> = Seq::empty();
    assert(client.ops() =~= start + head + done);
    while i < children.len()
        invariant
            0 < limit_left <= limit,
            0 <= i <= children@.len(),
            children@ == all,
            l == Ok::<Vec<String>, ZkFailure>(children),
            client.client() == zk,
            zk == old(client).client(),
            start == old(client).ops(),
            head == seq![ZnodeOp::Children(path@)],
            children_by(zk, path@, l),
            client.ops() == start + head + done,
            deletes_only_empty(head + done),
            forall|rr, oo| #[trigger] cleaned_from(zk, path@, all, i as int, limit_left, rr, oo) ==> cleaned_from(zk, path@, all, 0, limit, rr, done + oo),
        decreases children@.len() - i,
    {
        let child = join_path(path, children[i].as_str());
        let cp = child.as_str();
        let found = client.stat(cp);
        let ghost k = i as int;
        let ghost left = limit_left;
        let ghost d0 = done;
        let ghost st = seq![ZnodeOp::Stat(child@, found)];
        assert(child@ == joined(path@, all[k]@));
        proof {
            lemma_deletes_only_empty_stat(head + d0, child@, found);
            assert(head + d0 + st =~= head + (d0 + st));
            assert(client.ops() =~= start + head + (d0 + st));
        }
        i = i + 1;
        let version = match clean_step(found) {
            CleanStep::Skip => {
                proof {
                    done = d0 + st;
                    assert forall|rr, oo| #[trigger] cleaned_from(zk, path@, all, k + 1, left, rr, oo) implies cleaned_from(zk, path@, all, 0, limit, rr, done + oo) by {
                        assert((st + oo).drop_first() =~= oo);
                        assert(cleaned_from(zk, path@, all, k, left, rr, st + oo));
                        assert(d0 + (st + oo) =~= done + oo);
                    }
                }
                continue;
            },
            CleanStep::Fail(error) => {
                let r = Err(error);
                proof {
                    assert(cleaned_from(zk, path@, all, k, left, r, st));
                    assert(cleaned_from(zk, path@, all, 0, limit, r, d0 + st));
                    assert((head + (d0 + st)).drop_first() =~= d0 + st);
                    assert(cleaned_by(zk, path@, limit, r, head + (d0 + st)));
                }
                return r;
            },
            CleanStep::Delete(version) => version,
        };
        let deleted = client.delete(cp, Some(version));
        let ghost step = st.push(ZnodeOp::Delete(child@, Some(version)));
        proof {
            lemma_deletes_only_empty_delete(head + d0, child@, found, version);
            assert(head + d0 + step =~= head + (d0 + step));
            assert(client.ops() =~= start + head + (d0 + step));
            assert(step.subrange(2, 2) =~= Seq::<ZnodeOp>::empty());
        }
        limit_left = match after_delete(deleted, limit_left) {
            Ok(left) => left,
            Err(error) => {
                let r = Err(error);
                proof {
                    assert(deleted_at_by(zk, child@, Some(version), deleted));
                    assert(cleaned_from(zk, path@, all, k, left, r, step));
                    assert(cleaned_from(zk, path@, all, 0, limit, r, d0 + step));
                    assert((head + (d0 + step)).drop_first() =~= d0 + step);
                    assert(cleaned_by(zk, path@, limit, r, head + (d0 + step)));
                }
                return r;
            },
        };
        if cycle_limit(limit_left) {
            let r = Ok(0);
            proof {
                assert(deleted_at_by(zk, child@, Some(version), deleted));
                assert(cleaned_from(zk, path@, all, k, left, r, step));
                assert(cleaned_from(zk, path@, all, 0, limit, r, d0 + step));
                assert((head + (d0 + step)).drop_first() =~= d0 + step);
                assert(cleaned_by(zk, path@, limit, r, head + (d0 + step)));
            }
            return r;
        }
        proof {
            done = d0 + step;
            assert forall|rr, oo| #[trigger] cleaned_from(zk, path@, all, k + 1, limit_left, rr, oo) implies cleaned_from(zk, path@, all, 0, limit, rr, done + oo) by {
                assert(deleted_at_by(zk, child@, Some(version), deleted));
                assert((step + oo).subrange(2, (step + oo).len() as int) =~= oo);
                assert((step + oo)[0] == step[0]);
                assert((step + oo)[1] == step[1]);
                assert(cleaned_from(zk, path@, all, k, left, rr, step + oo));
                assert(d0 + (step + oo) =~= done + oo);
            }
        }
    }
    let r = Ok(limit_left);
    proof {
        assert(cleaned_from(zk, path@, all, i as int, limit_left, r, Seq::empty()));
        assert(done + Seq::<ZnodeOp>::empty() =~= done);
        assert((head + done).drop_first() =~= done);
        assert(cleaned_by(zk, path@, limit, r, head + done));
        assert(client.ops() =~= start + (head + done));
    }
    r
}

/// Looking a znode up keeps every delete after a lookup of an empty znode.
proof fn lemma_deletes_only_empty_stat(ops: Seq<ZnodeOp>, path: Seq<char>, found: std::result::Result<Option<ZkStat>, ZkFailure>)
    requires
        deletes_only_empty(ops),
    ensures
        deletes_only_empty(ops + seq![ZnodeOp::Stat(path, found)]),
{
    let s = ops + seq![ZnodeOp::Stat(path, found)];
    assert forall|j: int| 0 <= j < s.len() && s[j] is Delete implies (j > 0 && (s[j - 1] matches ZnodeOp::Stat(p, Ok(Some(st)))
        && p == s[j]->Delete_0 && st.num_children == 0 && s[j]->Delete_1 == Some(st.version))) by {
        assert(j < ops.len());
        assert(s[j] == ops[j]);
        assert(s[j - 1] == ops[j - 1]);
    }
}

/// Deleting an empty znode right after looking it up, at the version seen,
/// keeps every delete after a lookup of an empty znode.
proof fn lemma_deletes_only_empty_delete(ops: Seq<ZnodeOp>, path: Seq<char>, found: std::result::Result<Option<ZkStat>, ZkFailure>, version: i32)
    requires
        deletes_only_empty(ops),
        found matches Ok(Some(stat)) && stat.num_children == 0 && stat.version == version,
    ensures
        deletes_only_empty(ops + seq![ZnodeOp::Stat(path, found)].push(ZnodeOp::Delete(path, Some(version)))),
{
    let s = ops + seq![ZnodeOp::Stat(path, found)].push(ZnodeOp::Delete(path, Some(version)));
    assert forall|j: int| 0 <= j < s.len() && s[j] is Delete implies (j > 0 && (s[j - 1] matches ZnodeOp::Stat(p, Ok(Some(st)))
        && p == s[j]->Delete_0 && st.num_children == 0 && s[j]->Delete_1 == Some(st.version))) by {
        if j < ops.len() {
            assert(s[j] == ops[j]);
            assert(s[j - 1] == ops[j - 1]);
        } else if j == ops.len() {
            assert(s[j] == ZnodeOp::Stat(path, found));
        } else {
            assert(s[j - 1] == ZnodeOp::Stat(path, found));
        }
    }
}

/// `r` is the outcome of a cleanup cycle through the client, given the
/// outcomes `c1` to `c3` of cleaning the elections, locks and nodes
/// containers, and the operations `m1` to `m3` each made: each is cleaned
/// with the deletions left by the previous one, the first failure is reported,
/// and the cycle stops once no deletion is left.
pub open spec fn cycled_by<C: ZnodeClient>(
    client: &C,
    limit: usize,
    r: std::result::Result<(), ErrorKind>,
    c1: std::result::Result<usize, ErrorKind>,
    c2: std::result::Result<usize, ErrorKind>,
    c3: std::result::Result<usize, ErrorKind>,
    m1: Seq<ZnodeOp>,
    m2: Seq<ZnodeOp>,
    m3: Seq<ZnodeOp>,
) -> bool {
    &&& cleaned_by(client, prefix_election(), limit, c1, m1)
    &&& match c1 {
        Err(e) => (r matches Err(x) && x@ == e@) && m2.len() == 0 && m3.len() == 0,
        Ok(l1) => if l1 == 0 {
            r is Ok && m2.len() == 0 && m3.len() == 0
        } else {
            &&& cleaned_by(client, prefix_lock(), l1, c2, m2)
            &&& match c2 {
                Err(e) => (r matches Err(x) && x@ == e@) && m3.len() == 0,
                Ok(l2) => if l2 == 0 {
                    r is Ok && m3.len() == 0
                } else {
                    &&& cleaned_by(client, prefix_node(), l2, c3, m3)
                    &&& match c3 {
                        Err(e) => r matches Err(x) && x@ == e@,
                        Ok(_) => r is Ok,
                    }
                },
            }
        },
    }
}

/// Perform a single cleanup cycle: elections, then locks, then node
/// registrations, deleting at most `cleanup_limit` znodes in all.
pub fn cycle<C: ZnodeClient>(client: &mut Recorder<C>, cleanup_limit: usize) -> (r: std::result::Result<(), ErrorKind>)
    requires
        cleanup_limit > 0,
    ensures
        final(client).client() == old(client).client(),
        exists|c1, c2, c3, m1, m2, m3| #[trigger] cycled_by(old(client).client(), cleanup_limit, r, c1, c2, c3, m1, m2, m3)
            && final(client).ops() == old(client).ops() + m1 + m2 + m3 && deletes_only_empty(m1 + m2 + m3),
{
    let ghost zk = client.client();
    let ghost o0 = client.ops();
    let ghost e: Seq<ZnodeOp> = Seq::empty();
    let none: std::result::Result<usize, ErrorKind> = Ok(0);
    let c1 = clean(client, prefix_election_text(), cleanup_limit);
    let ghost m1 = choose|made| #[trigger] cleaned_by(zk, prefix_election(), cleanup_limit, c1, made) && client.ops() == o0 + made
        && deletes_only_empty(made);
    proof {
        assert(m1 + e + e =~= m1);
        assert(o0 + m1 + e + e =~= o0 + m1);
    }
    let limit = match c1 {
        Err(err) => {
            let r = Err(err);
            assert(cycled_by(zk, cleanup_limit, r, c1, none, none, m1, e, e));
            return r;
        },
        Ok(limit) => limit,
    };
    if cycle_limit(limit) {
        assert(cycled_by(zk, cleanup_limit, Ok(()), c1, none, none, m1, e, e));
        return Ok(());
    }
    let ghost o1 = client.ops();
    let c2 = clean(client, prefix_lock_text(), limit);
    let ghost m2 = choose|made| #[trigger] cleaned_by(zk, prefix_lock(), limit, c2, made) && client.ops() == o1 + made
        && deletes_only_empty(made);
    proof {
        lemma_deletes_only_empty_concat(m1, m2);
        assert(m1 + m2 + e =~= m1 + m2);
        assert(o0 + m1 + m2 + e =~= o0 + m1 + m2);
    }
    let limit = match c2 {
        Err(err) => {
            let r = Err(err);
            assert(cycled_by(zk, cleanup_limit, r, c1, c2, none, m1, m2, e));
            return r;
        },
        Ok(limit) => limit,
    };
    if cycle_limit(limit) {
        assert(cycled_by(zk, cleanup_limit, Ok(()), c1, c2, none, m1, m2, e));
        return Ok(());
    }
    let ghost o2 = client.ops();
    let c3 = clean(client, prefix_node_text(), limit);
    let ghost m3 = choose|made| #[trigger] cleaned_by(zk, prefix_node(), limit, c3, made) && client.ops() == o2 + made
        && deletes_only_empty(made);
    proof {
        lemma_deletes_only_empty_concat(m1 + m2, m3);
        assert(o0 + m1 + m2 + m3 =~= o2 + m3);
    }
    let r = match c3 {
        Err(err) => Err(err),
        Ok(_) => Ok(()),
    };
    assert(cycled_by(zk, cleanup_limit, r, c1, c2, c3, m1, m2, m3));
    r
}

/// The term after which the cleaner re-runs its election: none when 0.
pub fn election_term(term: u64) -> (r: Option<u64>)
    ensures
        term == 0 ==> r is None,
        term != 0 ==> r == Some(term),
{
    if term == 0 {
        None
    } else {
        Some(term)
    }
}

} // verus!
