//! Shard lag synthesised from commit offsets when agents don't report it.
//!
//! The lag of a secondary shard is the difference between the commit offset of
//! the primary of the shard and its own, when both are known in seconds.
use vstd::prelude::*;

use crate::fetcher::model::CommitOffset;
use crate::fetcher::model::CommitUnit;
use crate::fetcher::model::Shard;
use crate::fetcher::model::ShardRole;

use super::cluster_meta::count;
use super::cluster_meta::lemma_count_bounded;

verus! {

/// Whether `s` is a primary of the shard with ID `id`.
pub open spec fn is_primary_of(s: Shard, id: Seq<char>) -> bool {
    s.role is Primary && s.shard_id@ == id
}

/// How many primaries the shard with ID `id` has.
pub open spec fn primaries_count(shards: Seq<Shard>, id: Seq<char>) -> nat {
    count(shards, |s: Shard| is_primary_of(s, id))
}

/// The outcome of looking for the primary of a shard.
#[derive(PartialEq, Eq, Structural, Clone, Copy, Debug)]
pub enum PrimaryLookup {
    /// The shard has no primary.
    Missing,
    /// The shard has one primary, at this position.
    Found(usize),
    /// The shard has more than one primary.
    Many,
}

/// Find the primary of the shard with ID `shard_id`.
pub fn shard_primary(shards: &Vec<Shard>, shard_id: &String) -> (r: PrimaryLookup)
    ensures
        primaries_count(shards@, shard_id@) == 0 ==> r is Missing,
        primaries_count(shards@, shard_id@) > 1 ==> r is Many,
        primaries_count(shards@, shard_id@) == 1 ==> (r matches PrimaryLookup::Found(i) && i
            < shards@.len() && is_primary_of(shards@[i as int], shard_id@)),
{
    let ghost p = |s: Shard| is_primary_of(s, shard_id@);
    let mut found: usize = 0;
    let mut first: usize = 0;
    let mut i: usize = 0;
    while i < shards.len()
        invariant
            0 <= i <= shards@.len(),
            p == (|s: Shard| is_primary_of(s, shard_id@)),
            found == count(shards@.take(i as int), p) || (found == 2 && count(shards@.take(i as int), p) >= 2),
            found <= 2,
            found >= 1 ==> first < i && is_primary_of(shards@[first as int], shard_id@),
        decreases shards@.len() - i,
    {
        let ghost prefix = shards@.take(i + 1);
        assert(prefix.drop_last() =~= shards@.take(i as int));
        assert(prefix.last() == shards@[i as int]);
        if shards[i].role.is_primary() && shards[i].shard_id == *shard_id {
            if found == 0 {
                first = i;
            }
            if found < 2 {
                found = found + 1;
            }
        }
        i = i + 1;
    }
    assert(shards@.take(shards@.len() as int) =~= shards@);
    if found == 0 {
        PrimaryLookup::Missing
    } else if found == 1 {
        PrimaryLookup::Found(first)
    } else {
        PrimaryLookup::Many
    }
}

/// Whether an optional commit offset is known in seconds.
pub open spec fn in_seconds(o: Option<CommitOffset>) -> bool {
    match o {
        Some(c) => c.unit is Seconds,
        None => false,
    }
}

/// The commit offset value, when known.
pub open spec fn offset_value(o: Option<CommitOffset>) -> int {
    match o {
        Some(c) => c.value as int,
        None => 0,
    }
}

/// When the shard has a single primary in the list and both report their
/// offsets in seconds, the lag of the shard behind it fits in an `i64`: the
/// one case where a lag is computed.
pub open spec fn lag_fits(shards: Seq<Shard>, shard: Shard) -> bool {
    forall|j: int|
        0 <= j < shards.len() && primaries_count(shards, shard.shard_id@) == 1 && is_primary_of(#[trigger] shards[j], shard.shard_id@) && in_seconds(shards[j].commit_offset)
            && in_seconds(shard.commit_offset) ==> i64::MIN <= offset_value(shards[j].commit_offset) - offset_value(
            shard.commit_offset,
        ) <= i64::MAX
}

/// Why no lag was synthesised for a shard, or the lag that was.
#[derive(Debug)]
pub enum LagOutcome {
    /// The shard has no primary.
    NoPrimary,
    /// The shard has more than one primary.
    ManyPrimaries,
    /// The primary or the shard has no commit offset.
    MissingOffsets,
    /// The commit offsets of the primary and the shard have different units.
    UnitsDiffer,
    /// The commit offsets have a unit lag can't be computed for.
    UnsupportedUnit,
    /// The synthesised lag.
    Lag(CommitOffset),
}

/// The lag of a shard behind its primary.
pub open spec fn spec_lag(primary: Shard, shard: Shard) -> LagOutcome {
    match (primary.commit_offset, shard.commit_offset) {
        (Some(p), Some(s)) => if !p.unit.same(&s.unit) {
            LagOutcome::UnitsDiffer
        } else if !(p.unit is Seconds) {
            LagOutcome::UnsupportedUnit
        } else {
            LagOutcome::Lag(CommitOffset { unit: CommitUnit::Seconds, value: (p.value - s.value) as i64 })
        },
        _ => LagOutcome::MissingOffsets,
    }
}

/// Compute the lag of a shard behind its primary, if the offsets allow.
pub fn lag_behind(primary: &Shard, shard: &Shard) -> (r: LagOutcome)
    requires
        in_seconds(primary.commit_offset) && in_seconds(shard.commit_offset) ==> i64::MIN <= offset_value(
            primary.commit_offset,
        ) - offset_value(shard.commit_offset) <= i64::MAX,
    ensures
        r == spec_lag(*primary, *shard),
{
    let (p, s) = match (&primary.commit_offset, &shard.commit_offset) {
        (Some(p), Some(s)) => (p, s),
        _ => {
            return LagOutcome::MissingOffsets;
        },
    };
    if !p.unit.equals(&s.unit) {
        return LagOutcome::UnitsDiffer;
    }
    match p.unit {
        CommitUnit::Seconds => {},
        _ => {
            return LagOutcome::UnsupportedUnit;
        },
    }
    LagOutcome::Lag(CommitOffset { unit: CommitUnit::Seconds, value: p.value - s.value })
}

/// The lag outcome for a shard of the cluster.
pub open spec fn spec_synthesise_for_shard(shards: Seq<Shard>, shard: Shard) -> LagOutcome {
    let n = primaries_count(shards, shard.shard_id@);
    if n == 0 {
        LagOutcome::NoPrimary
    } else if n > 1 {
        LagOutcome::ManyPrimaries
    } else {
        spec_lag(
            shards[choose|j: int| 0 <= j < shards.len() && is_primary_of(shards[j], shard.shard_id@)],
            shard,
        )
    }
}

/// The primary of a shard is the only shard with its ID in the primary role.
proof fn lemma_single_primary(shards: Seq<Shard>, id: Seq<char>, i: int, j: int)
    requires
        primaries_count(shards, id) == 1,
        0 <= i < shards.len(),
        0 <= j < shards.len(),
        is_primary_of(shards[i], id),
        is_primary_of(shards[j], id),
    ensures
        i == j,
    decreases shards.len(),
{
    let p = |s: Shard| is_primary_of(s, id);
    let last = shards.len() - 1;
    let rest = shards.drop_last();
    if i == last && j == last {
    } else if i == last || j == last {
        let k = if i == last { j } else { i };
        assert(rest[k] == shards[k]);
        lemma_count_positive(rest, p, k);
    } else {
        assert(rest[i] == shards[i]);
        assert(rest[j] == shards[j]);
        if p(shards[last]) {
            lemma_count_positive(rest, p, i);
        } else {
            lemma_single_primary(rest, id, i, j);
        }
    }
}

/// A sequence with a matching item counts at least one.
proof fn lemma_count_positive<A>(s: Seq<A>, p: spec_fn(A) -> bool, k: int)
    requires
        0 <= k < s.len(),
        p(s[k]),
    ensures
        count(s, p) >= 1,
    decreases s.len(),
{
    if k < s.len() - 1 {
        assert(s.drop_last()[k] == s[k]);
        lemma_count_positive(s.drop_last(), p, k);
    }
}

/// Decide the lag of a shard of the cluster.
pub fn synthesise_for_shard(shards: &Vec<Shard>, shard: &Shard) -> (r: LagOutcome)
    requires
        lag_fits(shards@, *shard),
    ensures
        r == spec_synthesise_for_shard(shards@, *shard),
{
    match shard_primary(shards, &shard.shard_id) {
        PrimaryLookup::Missing => LagOutcome::NoPrimary,
        PrimaryLookup::Many => LagOutcome::ManyPrimaries,
        PrimaryLookup::Found(i) => {
            proof {
                let c = choose|j: int| 0 <= j < shards@.len() && is_primary_of(shards@[j], shard.shard_id@);
                lemma_single_primary(shards@, shard.shard_id@, c, i as int);
                assert(is_primary_of(shards@[i as int], shard.shard_id@));
            }
            lag_behind(&shards[i], shard)
        },
    }
}

impl Shard {
    /// A copy of this shard with the given lag.
    pub fn with_lag(&self, lag: CommitOffset) -> (r: Shard)
        ensures
            r == (Shard { lag: Some(lag), ..*self }),
    {
        let commit_offset = match &self.commit_offset {
            Some(c) => Some(CommitOffset { unit: c.unit.duplicate(), value: c.value }),
            None => None,
        };
        let role = match &self.role {
            ShardRole::Primary => ShardRole::Primary,
            ShardRole::Secondary => ShardRole::Secondary,
            ShardRole::Recovering => ShardRole::Recovering,
            ShardRole::Unknown(u) => ShardRole::Unknown(u.clone()),
        };
        Shard {
            cluster_id: self.cluster_id.clone(),
            commit_offset,
            lag: Some(lag),
            node_id: self.node_id.clone(),
            role,
            shard_id: self.shard_id.clone(),
        }
    }
}

/// Whether lag is synthesised for a shard: secondaries that don't report it.
pub open spec fn needs_lag(s: Shard) -> bool {
    !(s.role is Primary) && s.lag is None
}

/// The shards of `shards[..upto]` that get a synthesised lag, with their position
/// and the updated shard.
pub open spec fn lag_updates(shards: Seq<Shard>, upto: int) -> Seq<(usize, Shard)>
    decreases upto,
{
    if upto <= 0 {
        Seq::empty()
    } else {
        let prev = lag_updates(shards, upto - 1);
        let s = shards[upto - 1];
        if needs_lag(s) {
            match spec_synthesise_for_shard(shards, s) {
                LagOutcome::Lag(lag) => prev.push(((upto - 1) as usize, Shard { lag: Some(lag), ..s })),
                _ => prev,
            }
        } else {
            prev
        }
    }
}

/// Synthesise lag information for the secondary shards of a cluster that don't
/// report it: the position of each updated shard and its new record, in order.
///
/// Each update is meant to be announced as an allocation change even when lag
/// is the only change, so views can see the synthesised lag, and persisted.
pub fn synthesise(shards: &Vec<Shard>) -> (r: Vec<(usize, Shard)>)
    requires
        forall|i: int| 0 <= i < shards@.len() && needs_lag(#[trigger] shards@[i]) ==> lag_fits(shards@, shards@[i]),
    ensures
        r@ == lag_updates(shards@, shards@.len() as int),
{
    let mut out: Vec<(usize, Shard)> = Vec::new();
    let mut i: usize = 0;
    while i < shards.len()
        invariant
            0 <= i <= shards@.len(),
            forall|i: int| 0 <= i < shards@.len() && needs_lag(#[trigger] shards@[i]) ==> lag_fits(shards@, shards@[i]),
            out@ == lag_updates(shards@, i as int),
        decreases shards@.len() - i,
    {
        let shard = &shards[i];
        let secondary = !shard.role.is_primary() && shard.lag.is_none();
        if secondary {
            assert(shards@[i as int] == *shard);
            match synthesise_for_shard(shards, shard) {
                LagOutcome::Lag(lag) => {
                    out.push((i, shard.with_lag(lag)));
                },
                _ => {},
            }
        }
        i = i + 1;
    }
    out
}

/// Synthesised lag is only ever added to secondaries without lag, and only the
/// lag changes: every other attribute of the shard is kept.
pub proof fn law_lag_updates_keep_shards(shards: Seq<Shard>, upto: int, k: int)
    requires
        0 <= upto <= shards.len(),
        shards.len() <= usize::MAX,
        0 <= k < lag_updates(shards, upto).len(),
    ensures
        ({
            let (i, updated) = lag_updates(shards, upto)[k];
            &&& 0 <= i < upto
            &&& needs_lag(shards[i as int])
            &&& updated == (Shard { lag: updated.lag, ..shards[i as int] })
            &&& updated.lag is Some
        }),
    decreases upto,
{
    let prev = lag_updates(shards, upto - 1);
    if k < prev.len() {
        law_lag_updates_keep_shards(shards, upto - 1, k);
        assert(lag_updates(shards, upto)[k] == prev[k]);
    } else {
        assert(((upto - 1) as usize) as int == upto - 1);
    }
}

/// The updates computed for a prefix of the shards stay, in order, at the
/// front of the updates computed for a longer prefix.
proof fn lemma_lag_updates_prefix(shards: Seq<Shard>, m: int, upto: int)
    requires
        0 <= m <= upto <= shards.len(),
    ensures
        lag_updates(shards, m).len() <= lag_updates(shards, upto).len(),
        forall|k: int| 0 <= k < lag_updates(shards, m).len() ==> #[trigger] lag_updates(shards, upto)[k] == lag_updates(shards, m)[k],
    decreases upto - m,
{
    if m < upto {
        lemma_lag_updates_prefix(shards, m, upto - 1);
        let prev = lag_updates(shards, upto - 1);
        assert forall|k: int| 0 <= k < lag_updates(shards, m).len() implies #[trigger] lag_updates(shards, upto)[k] == lag_updates(shards, m)[k] by {
            assert(lag_updates(shards, upto)[k] == prev[k]);
        }
    }
}

/// Lag is synthesised for every shard that is not a primary and reports no
/// lag, whatever its other role (secondary, recovering or unknown), when its
/// shard has a single primary and both report offsets in seconds: its update
/// is the shard with its lag set to how far its offset is behind the primary's.
pub proof fn law_lag_synthesised_for_every_non_primary(shards: Seq<Shard>, i: int, j: int)
    requires
        0 <= i < shards.len(),
        0 <= j < shards.len(),
        shards.len() <= usize::MAX,
        !(shards[i].role is Primary),
        shards[i].lag is None,
        shards[j].role is Primary,
        shards[j].shard_id@ == shards[i].shard_id@,
        primaries_count(shards, shards[i].shard_id@) == 1,
        in_seconds(shards[i].commit_offset),
        in_seconds(shards[j].commit_offset),
        i64::MIN <= offset_value(shards[j].commit_offset) - offset_value(shards[i].commit_offset) <= i64::MAX,
    ensures
        exists|k: int|
            0 <= k < lag_updates(shards, shards.len() as int).len() && #[trigger] lag_updates(shards, shards.len() as int)[k] == (
            i as usize,
            Shard {
                lag: Some(
                    CommitOffset {
                        unit: CommitUnit::Seconds,
                        value: (offset_value(shards[j].commit_offset) - offset_value(shards[i].commit_offset)) as i64,
                    },
                ),
                ..shards[i]
            },
        ),
{
    let s = shards[i];
    let id = s.shard_id@;
    let c = choose|x: int| 0 <= x < shards.len() && is_primary_of(shards[x], id);
    assert(is_primary_of(shards[j], id));
    lemma_single_primary(shards, id, c, j);
    let lag = CommitOffset {
        unit: CommitUnit::Seconds,
        value: (offset_value(shards[j].commit_offset) - offset_value(shards[i].commit_offset)) as i64,
    };
    assert(spec_synthesise_for_shard(shards, s) == LagOutcome::Lag(lag));
    let entry = (i as usize, Shard { lag: Some(lag), ..s });
    assert(((i + 1 - 1) as usize) == i as usize);
    assert(lag_updates(shards, i + 1) == lag_updates(shards, i).push(entry));
    let k = lag_updates(shards, i).len() as int;
    lemma_lag_updates_prefix(shards, i + 1, shards.len() as int);
    assert(lag_updates(shards, shards.len() as int)[k] == entry);
}

} // verus!
