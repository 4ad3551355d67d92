//! Cluster metadata aggregated from the records of a cluster.
use vstd::prelude::*;

use crate::fetcher::model::Agent;
use crate::fetcher::model::Node;
use crate::fetcher::model::Shard;
use crate::seqs::first_occurrences;
use crate::seqs::lemma_first_occurrences_same_items;
use crate::seqs::lemma_first_occurrences_unique;
use crate::seqs::no_duplicates;

use super::error::Error;
use super::error::ErrorKind;
use super::error::Result;

verus! {

/// Summary information about a cluster.
#[derive(Debug)]
pub struct ClusterMeta {
    pub agents_down: i32,
    pub cluster_display_name: String,
    pub cluster_id: String,
    pub kinds: Vec<String>,
    pub nodes: i32,
    pub nodes_down: i32,
    pub shards_count: i32,
    pub shards_primaries: i32,
}

/// The records of a cluster that metadata is aggregated from.
#[derive(Debug)]
pub struct ClusterRecords {
    pub cluster_id: String,
    /// The display name discovery reported, if any.
    pub display_name: Option<String>,
    /// One record per agent.
    pub agents: Vec<Agent>,
    /// One record per node.
    pub nodes: Vec<Node>,
    /// One record per shard on a node.
    pub shards: Vec<Shard>,
}

/// The texts of a sequence of strings.
pub open spec fn texts(s: Seq<String>) -> Seq<Seq<char>> {
    s.map_values(|x: String| x@)
}

/// The kinds of a sequence of nodes.
pub open spec fn node_kinds(s: Seq<Node>) -> Seq<Seq<char>> {
    s.map_values(|n: Node| n.kind@)
}

/// The shard IDs of a sequence of shards.
pub open spec fn shard_ids(s: Seq<Shard>) -> Seq<Seq<char>> {
    s.map_values(|x: Shard| x.shard_id@)
}

/// How many items of `s` satisfy `p`.
pub open spec fn count<A>(s: Seq<A>, p: spec_fn(A) -> bool) -> nat
    decreases s.len(),
{
    if s.len() == 0 {
        0
    } else {
        count(s.drop_last(), p) + if p(s.last()) {
            1nat
        } else {
            0nat
        }
    }
}

/// `count` never exceeds the length.
pub proof fn lemma_count_bounded<A>(s: Seq<A>, p: spec_fn(A) -> bool)
    ensures
        count(s, p) <= s.len(),
    decreases s.len(),
{
    if s.len() > 0 {
        lemma_count_bounded(s.drop_last(), p);
    }
}

/// The metadata of a cluster.
pub open spec fn spec_cluster_meta(c: ClusterRecords, m: ClusterMeta) -> bool {
    &&& m.cluster_id@ == c.cluster_id@
    &&& m.cluster_display_name@ == match c.display_name {
        Some(d) => d@,
        None => c.cluster_id@,
    }
    &&& m.nodes == c.nodes@.len()
    &&& m.shards_count == first_occurrences(shard_ids(c.shards@)).len()
    &&& m.agents_down == count(c.agents@, |a: Agent| !(a.status is Up))
    &&& m.nodes_down == count(c.agents@, |a: Agent| a.status is NodeDown)
    &&& texts(m.kinds@) == first_occurrences(node_kinds(c.nodes@))
    &&& m.shards_primaries == count(c.shards@, |s: Shard| s.role is Primary)
}

/// Whether `t` is the text of an item of `v`.
fn contains_text(v: &Vec<String>, t: &String) -> (r: bool)
    ensures
        r == texts(v@).contains(t@),
{
    let mut i: usize = 0;
    while i < v.len()
        invariant
            0 <= i <= v@.len(),
            forall|k: int| 0 <= k < i ==> v@[k]@ != t@,
        decreases v@.len() - i,
    {
        if v[i] == *t {
            assert(texts(v@)[i as int] == t@);
            return true;
        }
        i = i + 1;
    }
    assert forall|k: int| 0 <= k < texts(v@).len() implies texts(v@)[k] != t@ by {
        assert(v@[k]@ != t@);
    }
    false
}

/// Add `t` to `out` unless its text is there already.
fn push_new_text(out: &mut Vec<String>, t: &String)
    ensures
        texts(final(out)@) == (if texts(old(out)@).contains(t@) {
            texts(old(out)@)
        } else {
            texts(old(out)@).push(t@)
        }),
{
    if !contains_text(out, t) {
        let ghost before = out@;
        out.push(t.clone());
        assert(texts(out@) =~= texts(before).push(t@));
    }
}

/// The distinct kinds of the nodes, in the order they first appear.
pub fn distinct_kinds(nodes: &Vec<Node>) -> (r: Vec<String>)
    ensures
        texts(r@) == first_occurrences(node_kinds(nodes@)),
{
    let mut out: Vec<String> = Vec::new();
    let mut i: usize = 0;
    while i < nodes.len()
        invariant
            0 <= i <= nodes@.len(),
            texts(out@) == first_occurrences(node_kinds(nodes@).take(i as int)),
        decreases nodes@.len() - i,
    {
        assert(node_kinds(nodes@).take(i + 1).drop_last() =~= node_kinds(nodes@).take(i as int));
        assert(node_kinds(nodes@).take(i + 1).last() == nodes@[i as int].kind@);
        push_new_text(&mut out, &nodes[i].kind);
        i = i + 1;
    }
    assert(node_kinds(nodes@).take(nodes@.len() as int) =~= node_kinds(nodes@));
    out
}

/// The number of distinct shard IDs.
pub fn unique_shards_count(shards: &Vec<Shard>) -> (r: usize)
    ensures
        r == first_occurrences(shard_ids(shards@)).len(),
{
    let mut seen: Vec<String> = Vec::new();
    let mut i: usize = 0;
    while i < shards.len()
        invariant
            0 <= i <= shards@.len(),
            texts(seen@) == first_occurrences(shard_ids(shards@).take(i as int)),
        decreases shards@.len() - i,
    {
        assert(shard_ids(shards@).take(i + 1).drop_last() =~= shard_ids(shards@).take(i as int));
        assert(shard_ids(shards@).take(i + 1).last() == shards@[i as int].shard_id@);
        push_new_text(&mut seen, &shards[i].shard_id);
        i = i + 1;
    }
    assert(shard_ids(shards@).take(shards@.len() as int) =~= shard_ids(shards@));
    assert(texts(seen@).len() == seen@.len());
    seen.len()
}

/// Aggregate cluster metadata from the records of a cluster.
///
/// Counts fit the metadata because a cluster never has more than `i32::MAX`
/// agents, nodes or shards.
pub fn aggregate(cluster: &ClusterRecords) -> (r: ClusterMeta)
    requires
        cluster.agents@.len() <= i32::MAX,
        cluster.nodes@.len() <= i32::MAX,
        cluster.shards@.len() <= i32::MAX,
    ensures
        spec_cluster_meta(*cluster, r),
{
    let cluster_display_name = match &cluster.display_name {
        Some(d) => d.clone(),
        None => cluster.cluster_id.clone(),
    };
    let nodes = cluster.nodes.len() as i32;
    let shards_count = unique_shards_count(&cluster.shards);
    proof {
        lemma_first_occurrences_unique(shard_ids(cluster.shards@));
        lemma_distinct_bounded(shard_ids(cluster.shards@));
    }
    let shards_count = shards_count as i32;

    // Count agents and nodes reporting as down.
    let ghost down = |a: Agent| !(a.status is Up);
    let ghost node_down = |a: Agent| a.status is NodeDown;
    let mut agents_down: i32 = 0;
    let mut nodes_down: i32 = 0;
    let mut i: usize = 0;
    while i < cluster.agents.len()
        invariant
            0 <= i <= cluster.agents@.len(),
            cluster.agents@.len() <= i32::MAX,
            down == (|a: Agent| !(a.status is Up)),
            node_down == (|a: Agent| a.status is NodeDown),
            agents_down == count(cluster.agents@.take(i as int), down),
            nodes_down == count(cluster.agents@.take(i as int), node_down),
        decreases cluster.agents@.len() - i,
    {
        let ghost prefix = cluster.agents@.take(i + 1);
        assert(prefix.drop_last() =~= cluster.agents@.take(i as int));
        assert(prefix.last() == cluster.agents@[i as int]);
        proof {
            lemma_count_bounded(cluster.agents@.take(i as int), down);
            lemma_count_bounded(cluster.agents@.take(i as int), node_down);
        }
        if !cluster.agents[i].status.is_up() {
            agents_down = agents_down + 1;
        }
        if cluster.agents[i].status.is_node_down() {
            nodes_down = nodes_down + 1;
        }
        i = i + 1;
    }
    assert(cluster.agents@.take(cluster.agents@.len() as int) =~= cluster.agents@);

    // List all kinds of nodes.
    let kinds = distinct_kinds(&cluster.nodes);

    // Check shard primaries.
    let ghost primary = |s: Shard| s.role is Primary;
    let mut shards_primaries: i32 = 0;
    let mut j: usize = 0;
    while j < cluster.shards.len()
        invariant
            0 <= j <= cluster.shards@.len(),
            cluster.shards@.len() <= i32::MAX,
            primary == (|s: Shard| s.role is Primary),
            shards_primaries == count(cluster.shards@.take(j as int), primary),
        decreases cluster.shards@.len() - j,
    {
        let ghost prefix = cluster.shards@.take(j + 1);
        assert(prefix.drop_last() =~= cluster.shards@.take(j as int));
        assert(prefix.last() == cluster.shards@[j as int]);
        proof {
            lemma_count_bounded(cluster.shards@.take(j as int), primary);
        }
        if cluster.shards[j].role.is_primary() {
            shards_primaries = shards_primaries + 1;
        }
        j = j + 1;
    }
    assert(cluster.shards@.take(cluster.shards@.len() as int) =~= cluster.shards@);

    ClusterMeta {
        agents_down,
        cluster_display_name,
        cluster_id: cluster.cluster_id.clone(),
        kinds,
        nodes,
        nodes_down,
        shards_count,
        shards_primaries,
    }
}

/// Dropping repeated items never makes a sequence longer.
pub proof fn lemma_distinct_bounded<A>(s: Seq<A>)
    ensures
        first_occurrences(s).len() <= s.len(),
    decreases s.len(),
{
    if s.len() > 0 {
        lemma_distinct_bounded(s.drop_last());
    }
}

/// The metadata to persist: the aggregation is dropped when the cluster lock
/// was lost while it was computed.
pub fn meta_to_persist(meta: ClusterMeta, lock_held: bool) -> (r: Result<ClusterMeta>)
    ensures
        lock_held ==> r == Ok::<ClusterMeta, Error>(meta),
        !lock_held ==> (r matches Err(e) && e.spec_kind() matches ErrorKind::ClusterLockLost(c) && c@
            == meta.cluster_id@),
{
    if !lock_held {
        return Err(Error::from_kind(ErrorKind::ClusterLockLost(meta.cluster_id.clone())));
    }
    Ok(meta)
}

/// The node kinds listed in cluster metadata are the kinds of its nodes, each
/// listed once.
pub proof fn law_meta_kinds_distinct(c: ClusterRecords, m: ClusterMeta)
    requires
        spec_cluster_meta(c, m),
    ensures
        no_duplicates(texts(m.kinds@)),
        forall|k: Seq<char>| #[trigger] texts(m.kinds@).contains(k) <==> node_kinds(c.nodes@).contains(k),
{
    lemma_first_occurrences_unique(node_kinds(c.nodes@));
    lemma_first_occurrences_same_items(node_kinds(c.nodes@));
}

} // verus!
