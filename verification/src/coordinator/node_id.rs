//! Identifiers of the processes taking part in coordination.
use vstd::prelude::*;

use crate::text::lemma_str_before_irreflexive;
use crate::text::lemma_str_before_total;
use crate::text::lemma_str_before_transitive;
use crate::text::str_before;
use crate::text::str_lt;

verus! {

/// Unique ID for nodes in a Replicante cluster.
///
/// Node IDs are primarily used for debugging and introspection purposes.
/// They are meant to be used as a way to relate events or records back
/// to the node that owns or generate them.
#[derive(Clone, Debug, PartialEq, Eq)]
pub struct NodeId {
    /// User specified key/value attributes attached to the ID, ordered by key.
    pub extra: Vec<(String, String)>,
    /// The random identifier of the node, as lowercase hex text.
    pub id: String,
}

/// Copy a list of key/value pairs.
pub fn copy_pairs(pairs: &Vec<(String, String)>) -> (r: Vec<(String, String)>)
    ensures
        r@ == pairs@,
{
    let mut r: Vec<(String, String)> = Vec::new();
    let mut i: usize = 0;
    while i < pairs.len()
        invariant
            0 <= i <= pairs@.len(),
            r@ == pairs@.take(i as int),
        decreases pairs@.len() - i,
    {
        let k = pairs[i].0.clone();
        let v = pairs[i].1.clone();
        r.push((k, v));
        assert(r@ =~= pairs@.take(i + 1));
        i = i + 1;
    }
    assert(pairs@.take(pairs@.len() as int) =~= pairs@);
    r
}

/// Whether the keys of the pairs are in strictly ascending order, so that
/// each key occurs once.
pub open spec fn keys_ascending(p: Seq<(String, String)>) -> bool {
    forall|i: int, j: int| 0 <= i < j < p.len() ==> str_before(#[trigger] p[i].0@, #[trigger] p[j].0@)
}

/// The value of the last pair with the given key, if any.
pub open spec fn value_of(p: Seq<(String, String)>, key: Seq<char>) -> Option<Seq<char>>
    decreases p.len(),
{
    if p.len() == 0 {
        None
    } else if p.last().0@ == key {
        Some(p.last().1@)
    } else {
        value_of(p.drop_last(), key)
    }
}

/// With ascending keys, the value of a key is that of its only pair.
pub proof fn lemma_value_of_ascending(p: Seq<(String, String)>, key: Seq<char>)
    requires
        keys_ascending(p),
    ensures
        forall|i: int| 0 <= i < p.len() && (#[trigger] p[i]).0@ == key ==> value_of(p, key) == Some(p[i].1@),
        (forall|i: int| 0 <= i < p.len() ==> (#[trigger] p[i]).0@ != key) ==> value_of(p, key) is None,
    decreases p.len(),
{
    if p.len() > 0 {
        let rest = p.drop_last();
        assert(keys_ascending(rest)) by {
            assert forall|i: int, j: int| 0 <= i < j < rest.len() implies str_before(
                #[trigger] rest[i].0@,
                #[trigger] rest[j].0@,
            ) by {
                assert(rest[i] == p[i] && rest[j] == p[j]);
            }
        }
        lemma_value_of_ascending(rest, key);
        assert forall|i: int| 0 <= i < p.len() && (#[trigger] p[i]).0@ == key implies value_of(p, key) == Some(
            p[i].1@,
        ) by {
            if i < p.len() - 1 {
                assert(rest[i] == p[i]);
                if p.last().0@ == key {
                    assert(str_before(p[i].0@, p[p.len() - 1].0@));
                    lemma_str_before_irreflexive(key);
                }
            }
        }
        if forall|i: int| 0 <= i < p.len() ==> (#[trigger] p[i]).0@ != key {
            assert(p[p.len() - 1].0@ != key);
            assert forall|i: int| 0 <= i < rest.len() implies (#[trigger] rest[i]).0@ != key by {
                assert(rest[i] == p[i]);
            }
        }
    }
}

/// Add an attribute to a list with ascending keys, replacing the value of an
/// existing key.
fn insert_attribute(attributes: &mut Vec<(String, String)>, key: String, value: String)
    requires
        keys_ascending(old(attributes)@),
    ensures
        keys_ascending(final(attributes)@),
        forall|k: Seq<char>| #[trigger] value_of(final(attributes)@, k) == (if k == key@ {
            Some(value@)
        } else {
            value_of(old(attributes)@, k)
        }),
{
    let ghost before = attributes@;
    let mut j: usize = 0;
    while j < attributes.len() && str_lt(attributes[j].0.as_str(), key.as_str())
        invariant
            0 <= j <= attributes@.len(),
            attributes@ == before,
            forall|i: int| 0 <= i < j ==> str_before((#[trigger] before[i]).0@, key@),
        decreases attributes@.len() - j,
    {
        j = j + 1;
    }
    // Every key from `j` on is at or after the new key.
    assert forall|i: int| j <= i < before.len() implies !str_before((#[trigger] before[i]).0@, key@) by {
        if str_before(before[i].0@, key@) && i > j {
            assert(str_before(before[j as int].0@, before[i].0@));
            lemma_str_before_transitive(before[j as int].0@, before[i].0@, key@);
        }
    }
    if j < attributes.len() && attributes[j].0 == key {
        let ghost kept = before[j as int].0;
        attributes.set(j, (key, value));
        let ghost after = attributes@;
        assert(keys_ascending(after)) by {
            assert forall|a: int, b: int| 0 <= a < b < after.len() implies str_before(
                #[trigger] after[a].0@,
                #[trigger] after[b].0@,
            ) by {
                assert(after[a].0@ == before[a].0@);
                assert(after[b].0@ == before[b].0@);
            }
        }
        proof {
            lemma_value_of_ascending(before, key@);
            lemma_value_of_ascending(after, key@);
            assert forall|k: Seq<char>| #[trigger] value_of(after, k) == (if k == key@ {
                Some(value@)
            } else {
                value_of(before, k)
            }) by {
                lemma_value_of_ascending(before, k);
                lemma_value_of_ascending(after, k);
                if k != key@ {
                    if exists|i: int| 0 <= i < before.len() && (#[trigger] before[i]).0@ == k {
                        let i = choose|i: int| 0 <= i < before.len() && (#[trigger] before[i]).0@ == k;
                        assert(after[i] == before[i]);
                    } else {
                        assert forall|i: int| 0 <= i < after.len() implies (#[trigger] after[i]).0@ != k by {
                            if i != j {
                                assert(after[i] == before[i]);
                            }
                        }
                    }
                } else {
                    assert(after[j as int].0@ == key@);
                }
            }
        }
    } else {
        if j < attributes.len() {
            proof {
                if !str_before(key@, before[j as int].0@) {
                    lemma_str_before_total(before[j as int].0@, key@);
                }
            }
            assert(str_before(key@, before[j as int].0@));
        }
        attributes.insert(j, (key, value));
        let ghost after = attributes@;
        assert(after.len() == before.len() + 1);
        assert forall|i: int| 0 <= i < j implies #[trigger] after[i] == before[i] by {}
        assert forall|i: int| j < i < after.len() implies #[trigger] after[i] == before[i - 1] by {}
        assert(after[j as int] == (key, value));
        // Keys after the insertion point are after the new key.
        assert forall|i: int| j < i < after.len() implies str_before(key@, (#[trigger] after[i]).0@) by {
            assert(after[i] == before[i - 1]);
            if i - 1 != j {
                assert(str_before(before[j as int].0@, before[i - 1].0@));
                lemma_str_before_transitive(key@, before[j as int].0@, before[i - 1].0@);
            }
        }
        assert(keys_ascending(after)) by {
            assert forall|a: int, b: int| 0 <= a < b < after.len() implies str_before(
                #[trigger] after[a].0@,
                #[trigger] after[b].0@,
            ) by {
                if a < j && b < j {
                    assert(after[a] == before[a] && after[b] == before[b]);
                } else if a < j && b == j {
                    assert(after[a] == before[a]);
                } else if a < j && b > j {
                    assert(after[a] == before[a]);
                    assert(str_before(key@, after[b].0@));
                    lemma_str_before_transitive(after[a].0@, key@, after[b].0@);
                } else if a == j {
                    assert(str_before(key@, after[b].0@));
                } else {
                    assert(after[a] == before[a - 1] && after[b] == before[b - 1]);
                }
            }
        }
        proof {
            assert forall|k: Seq<char>| #[trigger] value_of(after, k) == (if k == key@ {
                Some(value@)
            } else {
                value_of(before, k)
            }) by {
                lemma_value_of_ascending(before, k);
                lemma_value_of_ascending(after, k);
                if k != key@ {
                    if exists|i: int| 0 <= i < before.len() && (#[trigger] before[i]).0@ == k {
                        let i = choose|i: int| 0 <= i < before.len() && (#[trigger] before[i]).0@ == k;
                        if i < j {
                            assert(after[i] == before[i]);
                        } else {
                            assert(after[i + 1] == before[i]);
                        }
                    } else {
                        assert forall|i: int| 0 <= i < after.len() implies (#[trigger] after[i]).0@ != k by {
                            if i < j {
                                assert(after[i] == before[i]);
                            } else if i > j {
                                assert(after[i] == before[i - 1]);
                            }
                        }
                    }
                } else {
                    assert(after[j as int].0@ == key@);
                }
            }
        }
    }
}

/// Attributes as a map: keys in ascending order, each with the last value
/// given for it.
pub fn attribute_map(pairs: Vec<(String, String)>) -> (r: Vec<(String, String)>)
    ensures
        keys_ascending(r@),
        forall|k: Seq<char>| #[trigger] value_of(r@, k) == value_of(pairs@, k),
{
    let ghost all = pairs@;
    let mut pairs = pairs;
    let mut taken: Vec<(String, String)> = Vec::new();
    let mut map: Vec<(String, String)> = Vec::new();
    while pairs.len() > 0
        invariant
            all == taken@ + pairs@,
            keys_ascending(map@),
            forall|k: Seq<char>| #[trigger] value_of(map@, k) == value_of(taken@, k),
        decreases pairs@.len(),
    {
        let ghost rest = pairs@;
        let (key, value) = pairs.remove(0);
        let ghost t0 = taken@;
        let ghost entry = (key, value);
        insert_attribute(&mut map, key.clone(), value.clone());
        taken.push((key, value));
        proof {
            assert(taken@.drop_last() == t0);
            assert(all =~= taken@ + pairs@);
            assert forall|k: Seq<char>| #[trigger] value_of(map@, k) == value_of(taken@, k) by {
                assert(taken@.last() == entry);
            }
        }
    }
    assert(taken@ =~= all);
    map
}

/// Abstract value of a node ID: its extra attributes and its identifier text.
pub struct NodeIdView {
    pub extra: Seq<(Seq<char>, Seq<char>)>,
    pub id: Seq<char>,
}

/// The text form of key/value pairs.
pub open spec fn pairs_view(pairs: Seq<(String, String)>) -> Seq<(Seq<char>, Seq<char>)> {
    pairs.map_values(|p: (String, String)| (p.0@, p.1@))
}

impl View for NodeId {
    type V = NodeIdView;

    open spec fn view(&self) -> NodeIdView {
        NodeIdView { extra: pairs_view(self.extra@), id: self.id@ }
    }
}

/// A fresh random identifier: the simple text form of a random (version 4) UUID.
///
/// The text is 32 lowercase hex digits, as the documentation of `Uuid::simple`
/// describes; which digits come out is left to chance.
#[verifier::external_body]
fn random_id() -> (r: String)
    ensures
        r@.len() == 32,
        crate::text::is_lower_hex_text(r@),
{
    uuid::Uuid::new_v4().simple().to_string()
}

impl NodeId {
    /// The extra attributes form a map: each key once, in ascending order.
    pub open spec fn wf(&self) -> bool {
        keys_ascending(self.extra@)
    }

    /// A new node ID with a fresh random identifier and no extra attributes.
    pub fn new() -> (r: NodeId)
        ensures
            r.id@.len() == 32,
            crate::text::is_lower_hex_text(r.id@),
            r.extra@.len() == 0,
            r.wf(),
    {
        NodeId { extra: Vec::new(), id: random_id() }
    }

    /// A node ID with the given random identifier and no extra attributes.
    pub fn with_id(id: String) -> (r: NodeId)
        ensures
            r.id == id,
            r.extra@.len() == 0,
            r.wf(),
    {
        NodeId { extra: Vec::new(), id }
    }

    /// Set the extra attributes attached to this node ID: each key once, in
    /// ascending order, with the last value given for it.
    pub fn extra(&mut self, extra: Vec<(String, String)>)
        ensures
            final(self).wf(),
            forall|k: Seq<char>| #[trigger] value_of(final(self).extra@, k) == value_of(extra@, k),
            final(self).id == old(self).id,
    {
        self.extra = attribute_map(extra);
    }

    /// The text form of the node ID: its random identifier.
    pub fn to_string(&self) -> (r: String)
        ensures
            r == self.id,
            r@ == self@.id,
    {
        self.id.clone()
    }

    /// A copy of this node ID.
    pub fn duplicate(&self) -> (r: NodeId)
        ensures
            r@ == self@,
            r.extra@ == self.extra@,
            r.id == self.id,
            self.wf() ==> r.wf(),
    {
        let extra = copy_pairs(&self.extra);
        let id = self.id.clone();
        NodeId { extra, id }
    }
}

} // verus!
