//! Elections: the status API, the election state machine and the rules that
//! turn the ZooKeeper view of an election into state transitions.
use vstd::prelude::*;

use crate::text::joined;
use crate::text::join_path;
use crate::text::str_before;
use crate::text::str_lt;
use crate::text::lemma_lex_irreflexive;
use crate::text::lemma_str_before_total;
use crate::text::lemma_lex_transitive;

use super::error::ErrorKind;
use super::flag::SharedFlag;
use super::zookeeper::ZkFailure;
use super::zookeeper::ZnodeClient;
use super::zookeeper::ZnodeMode;
use super::zookeeper::children_by;
use super::zookeeper::created_by;
use super::zookeeper::deleted_at_by;
use super::zookeeper::Recorder;
use super::zookeeper::ZnodeOp;
use super::zookeeper::Client;
use super::zookeeper::key_hash;
use super::zookeeper::prefix_election;
use super::zookeeper::prefix_election_text;

verus! {

/// Status of an `Election` instance.
#[derive(Clone, Debug)]
pub enum ElectionStatus {
    /// The election instance is not a candidate for the `Election`.
    NotCandidate,
    /// The election is currently in progress.
    InProgress,
    /// This election instance is the primary for the `Election`.
    Primary,
    /// This election instance is a secondary.
    Secondary,
    /// This election instance was terminated by the coordinator, for the given reason.
    Terminated(String),
}

impl ElectionStatus {
    /// Check if the election is a candidate (primary or secondary) or not.
    pub fn is_candidate(&self) -> (r: bool)
        ensures
            r == (self is Primary || self is Secondary),
    {
        match self {
            ElectionStatus::Primary => true,
            ElectionStatus::Secondary => true,
            _ => false,
        }
    }

    /// Check if the election is primary.
    pub fn is_primary(&self) -> (r: bool)
        ensures
            r == (self is Primary),
    {
        match self {
            ElectionStatus::Primary => true,
            _ => false,
        }
    }
}

/// Lightweight election watcher to check the status for changes.
pub struct ElectionWatch(SharedFlag);

impl ElectionWatch {
    /// A watcher reading the given primary flag.
    pub fn new(inner: SharedFlag) -> (r: ElectionWatch)
        ensures
            r.flag() == inner,
    {
        ElectionWatch(inner)
    }

    /// The primary flag this watcher reads.
    pub closed spec fn flag(&self) -> SharedFlag {
        self.0
    }

    /// Check if the election is (still) the primary.
    ///
    /// The flag is shared with the election, which may change it at any time.
    pub fn is_primary(&self) -> (r: bool) {
        self.0.load()
    }
}

/// Stages the election state machine can be in.
#[derive(PartialEq, Eq, Structural, Clone, Copy, Debug)]
pub enum ElectionStateMachine {
    NotCandidate,
    Primary,
    Registered,
    Secondary,
    Terminated,
}

/// Stages from which an election can be run.
pub open spec fn spec_can_run(s: ElectionStateMachine) -> bool {
    s is NotCandidate || s is Terminated
}

/// Stages in which the election is in progress.
pub open spec fn spec_running(s: ElectionStateMachine) -> bool {
    s is Primary || s is Registered || s is Secondary
}

/// The stage after the node is found first among the candidates.
pub open spec fn after_primary(s: ElectionStateMachine) -> ElectionStateMachine {
    match s {
        ElectionStateMachine::Registered | ElectionStateMachine::Secondary => ElectionStateMachine::Primary,
        _ => s,
    }
}

/// The stage after the node is found among the candidates, but not first.
pub open spec fn after_secondary(s: ElectionStateMachine) -> ElectionStateMachine {
    match s {
        ElectionStateMachine::Primary | ElectionStateMachine::Registered => ElectionStateMachine::Secondary,
        _ => s,
    }
}

impl ElectionStateMachine {
    /// Whether an election in this stage may be run.
    pub fn can_run(&self) -> (r: bool)
        ensures
            r == spec_can_run(*self),
    {
        match self {
            ElectionStateMachine::NotCandidate => true,
            ElectionStateMachine::Terminated => true,
            _ => false,
        }
    }

    /// Whether an election in this stage is in progress.
    pub fn running(&self) -> (r: bool)
        ensures
            r == spec_running(*self),
    {
        match self {
            ElectionStateMachine::Primary => true,
            ElectionStateMachine::Registered => true,
            ElectionStateMachine::Secondary => true,
            _ => false,
        }
    }
}

/// The status reported for a stage, with the reason of a termination.
pub open spec fn status_of(s: ElectionStateMachine, reason: Option<String>, status: ElectionStatus) -> bool {
    match s {
        ElectionStateMachine::NotCandidate => status is NotCandidate,
        ElectionStateMachine::Primary => status is Primary,
        ElectionStateMachine::Registered => status is InProgress,
        ElectionStateMachine::Secondary => status is Secondary,
        ElectionStateMachine::Terminated => status matches ElectionStatus::Terminated(t) && reason == Some(t),
    }
}

/// The state of one election instance.
///
/// `S` is the handle of the session listener attached while the election runs.
pub struct ElectionState<S> {
    /// Name of the election.
    pub name: String,
    /// The candidate znode of this instance, while registered.
    pub candidate_znode: Option<String>,
    /// Flag shared with the watchers: set while this instance is primary.
    pub primary_watcher: SharedFlag,
    /// The stage of the election.
    pub state: ElectionStateMachine,
    /// The session listener attached while the election runs.
    pub subscription: Option<S>,
    /// Why the election was terminated, once it was.
    pub terminate_reason: Option<String>,
}

impl<S> ElectionState<S> {
    /// A terminated election always records why.
    pub open spec fn wf(&self) -> bool {
        self.state is Terminated ==> self.terminate_reason is Some
    }

    /// A new election that is not yet a candidate.
    pub fn new(name: String) -> (r: Self)
        ensures
            r.wf(),
            r.name == name,
            r.state is NotCandidate,
            r.candidate_znode is None,
            r.subscription is None,
            r.terminate_reason is None,
    {
        ElectionState {
            name,
            candidate_znode: None,
            primary_watcher: SharedFlag::new(false),
            state: ElectionStateMachine::NotCandidate,
            subscription: None,
            terminate_reason: None,
        }
    }

    /// Return the current state machine stage.
    pub fn get(&self) -> (r: ElectionStateMachine)
        ensures
            r == self.state,
    {
        self.state
    }

    /// Return the current candidate znode, if any.
    pub fn get_candidate(&self) -> (r: Option<String>)
        ensures
            r == self.candidate_znode,
    {
        match &self.candidate_znode {
            None => None,
            Some(znode) => Some(znode.clone()),
        }
    }

    /// Mark the election as won by this instance.
    ///
    /// Does nothing if the election is not in progress.
    pub fn primary(&mut self)
        requires
            old(self).wf(),
        ensures
            final(self).wf(),
            final(self).state == after_primary(old(self).state),
            final(self).name == old(self).name,
            final(self).primary_watcher == old(self).primary_watcher,
            final(self).candidate_znode == old(self).candidate_znode,
            final(self).subscription == old(self).subscription,
            final(self).terminate_reason == old(self).terminate_reason,
    {
        match self.state {
            ElectionStateMachine::Primary => (),
            ElectionStateMachine::Registered | ElectionStateMachine::Secondary => {
                self.state = ElectionStateMachine::Primary;
                self.primary_watcher.store(true);
            },
            _ => (),
        }
    }

    /// Record the candidate znode of a new run, if the stage is still `expected`.
    pub fn register(&mut self, expected: ElectionStateMachine, candidate_znode: String, subscription: S) -> (r: std::result::Result<(), ErrorKind>)
        requires
            old(self).wf(),
        ensures
            final(self).wf(),
            final(self).name == old(self).name,
            final(self).primary_watcher == old(self).primary_watcher,
            expected == old(self).state ==> {
                &&& r is Ok
                &&& final(self).state is Registered
                &&& final(self).candidate_znode == Some(candidate_znode)
                &&& final(self).subscription == Some(subscription)
                &&& final(self).terminate_reason == old(self).terminate_reason
            },
            expected != old(self).state ==> {
                &&& r matches Err(e) && e@ == ErrorKind::ElectionRunning(old(self).name)@
                &&& final(self).state == old(self).state
                &&& final(self).candidate_znode == old(self).candidate_znode
                &&& final(self).subscription == old(self).subscription
                &&& final(self).terminate_reason == old(self).terminate_reason
            },
    {
        if expected != self.state {
            return Err(ErrorKind::ElectionRunning(self.name.clone()));
        }
        self.candidate_znode = Some(candidate_znode);
        self.state = ElectionStateMachine::Registered;
        self.subscription = Some(subscription);
        self.primary_watcher.store(false);
        Ok(())
    }

    /// Mark this instance as a secondary.
    ///
    /// Does nothing if the election is not in progress.
    pub fn secondary(&mut self)
        requires
            old(self).wf(),
        ensures
            final(self).wf(),
            final(self).state == after_secondary(old(self).state),
            final(self).name == old(self).name,
            final(self).primary_watcher == old(self).primary_watcher,
            final(self).candidate_znode == old(self).candidate_znode,
            final(self).subscription == old(self).subscription,
            final(self).terminate_reason == old(self).terminate_reason,
    {
        self.primary_watcher.store(false);
        match self.state {
            ElectionStateMachine::Primary => {
                self.state = ElectionStateMachine::Secondary;
            },
            ElectionStateMachine::Registered => {
                self.state = ElectionStateMachine::Secondary;
            },
            ElectionStateMachine::Secondary => (),
            _ => (),
        }
    }

    /// Step down from the election.
    ///
    /// Returns the candidate znode to delete and the listener to detach.
    pub fn step_down(&mut self) -> (r: (Option<String>, Option<S>))
        requires
            old(self).wf(),
        ensures
            final(self).wf(),
            final(self).state is NotCandidate,
            final(self).candidate_znode is None,
            final(self).subscription is None,
            final(self).name == old(self).name,
            final(self).primary_watcher == old(self).primary_watcher,
            final(self).terminate_reason == old(self).terminate_reason,
            r.0 == old(self).candidate_znode,
            r.1 == old(self).subscription,
    {
        let znode = self.candidate_znode.take();
        let subscription = self.subscription.take();
        self.state = ElectionStateMachine::NotCandidate;
        self.primary_watcher.store(false);
        (znode, subscription)
    }

    /// Terminate the election for the given reason.
    ///
    /// Returns the candidate znode to delete and the listener to detach.
    pub fn terminate(&mut self, reason: String) -> (r: (Option<String>, Option<S>))
        requires
            old(self).wf(),
        ensures
            final(self).wf(),
            final(self).state is Terminated,
            final(self).terminate_reason == Some(reason),
            final(self).candidate_znode is None,
            final(self).subscription is None,
            final(self).name == old(self).name,
            final(self).primary_watcher == old(self).primary_watcher,
            r.0 == old(self).candidate_znode,
            r.1 == old(self).subscription,
    {
        let znode = self.candidate_znode.take();
        let subscription = self.subscription.take();
        self.state = ElectionStateMachine::Terminated;
        self.terminate_reason = Some(reason);
        self.primary_watcher.store(false);
        (znode, subscription)
    }

    /// Extract the election status from the state machine.
    pub fn to_status(&self) -> (r: ElectionStatus)
        requires
            self.wf(),
        ensures
            status_of(self.state, self.terminate_reason, r),
    {
        match self.state {
            ElectionStateMachine::NotCandidate => ElectionStatus::NotCandidate,
            ElectionStateMachine::Primary => ElectionStatus::Primary,
            ElectionStateMachine::Registered => ElectionStatus::InProgress,
            ElectionStateMachine::Secondary => ElectionStatus::Secondary,
            ElectionStateMachine::Terminated => {
                let reason = match &self.terminate_reason {
                    Some(reason) => reason.clone(),
                    None => String::new(),
                };
                ElectionStatus::Terminated(reason)
            },
        }
    }

    /// Create a watcher for primary status.
    pub fn watch(&self) -> (r: ElectionWatch)
        ensures
            r.flag() == self.primary_watcher,
    {
        ElectionWatch::new(self.primary_watcher.share())
    }
}

/// An election may be run exactly when it is not in progress.
pub proof fn law_can_run_iff_not_running(s: ElectionStateMachine)
    ensures
        spec_can_run(s) <==> !spec_running(s),
{
}

/// Notifications about the candidates never revive an election that is not in
/// progress: a stepped-down or terminated election stays so until it is run again.
pub proof fn law_notifications_keep_stopped_elections(s: ElectionStateMachine)
    requires
        !spec_running(s),
    ensures
        after_primary(s) == s,
        after_secondary(s) == s,
{
}

/// Notifications keep a running election running, and a primary notification
/// makes it primary.
pub proof fn law_notifications_keep_running_elections(s: ElectionStateMachine)
    requires
        spec_running(s),
    ensures
        spec_running(after_primary(s)),
        spec_running(after_secondary(s)),
        after_primary(s) is Primary,
        after_secondary(s) is Secondary,
{
}

/// The status reports a primary exactly in the primary stage, and a candidate
/// exactly in the primary and secondary stages.
pub proof fn law_status_reflects_stage(s: ElectionStateMachine, reason: Option<String>, status: ElectionStatus)
    requires
        status_of(s, reason, status),
    ensures
        (status is Primary) <==> (s is Primary),
        (status is Primary || status is Secondary) <==> (s is Primary || s is Secondary),
{
}

/// Why an election was terminated.
/// The primary does not depend on the order in which ZooKeeper lists the
/// candidates: listings with the same candidates elect the same one.
pub proof fn law_primary_independent_of_listing_order(c1: Seq<Seq<char>>, c2: Seq<Seq<char>>)
    requires
        c1.len() > 0,
        forall|x: Seq<char>| c1.contains(x) <==> c2.contains(x),
    ensures
        c2.len() > 0,
        c1[lowest_index(c1)] == c2[lowest_index(c2)],
{
    law_lowest_is_first_in_order(c1);
    assert(c2.contains(c1[0]));
    law_lowest_is_first_in_order(c2);
    let l1 = c1[lowest_index(c1)];
    let l2 = c2[lowest_index(c2)];
    assert(c1.contains(l1));
    assert(c2.contains(l1));
    let k2 = choose|k: int| 0 <= k < c2.len() && c2[k] == l1;
    assert(!str_before(c2[k2], l2));
    assert(c2.contains(l2));
    assert(c1.contains(l2));
    let k1 = choose|k: int| 0 <= k < c1.len() && c1[k] == l2;
    assert(!str_before(c1[k1], l1));
    lemma_str_before_total(l1, l2);
}

#[derive(PartialEq, Eq, Structural, Clone, Copy, Debug)]
pub enum TerminateReason {
    /// The ZooKeeper session was lost.
    SessionLost,
    /// The election has no candidates left.
    NoCandidates,
    /// The candidate znode of this instance was deleted.
    CandidateDeleted,
    /// The whole election was deleted.
    ElectionDeleted,
    /// The candidates could not be listed.
    RefreshFailed,
}

/// The text recorded for a termination reason.
pub open spec fn reason_text(reason: TerminateReason) -> Seq<char> {
    match reason {
        TerminateReason::SessionLost => "zookeeper session lost"@,
        TerminateReason::NoCandidates => "election has no candidates"@,
        TerminateReason::CandidateDeleted => "election candidate deleted"@,
        TerminateReason::ElectionDeleted => "election deleted"@,
        TerminateReason::RefreshFailed => "election refresh failed"@,
    }
}

impl TerminateReason {
    /// The text recorded for this reason.
    pub fn text(&self) -> (r: &'static str)
        ensures
            r@ == reason_text(*self),
    {
        match self {
            TerminateReason::SessionLost => "zookeeper session lost",
            TerminateReason::NoCandidates => "election has no candidates",
            TerminateReason::CandidateDeleted => "election candidate deleted",
            TerminateReason::ElectionDeleted => "election deleted",
            TerminateReason::RefreshFailed => "election refresh failed",
        }
    }
}

/// What a refresh learnt about the candidates of an election.
pub enum ChildrenLookup {
    /// No ZooKeeper session was available.
    SessionLost,
    /// The candidate znodes, in any order.
    Listed(Vec<String>),
    /// Listing the candidates failed.
    Failed(ZkFailure),
}

/// The transition a refresh of the candidates calls for.
#[derive(PartialEq, Eq, Structural, Clone, Copy, Debug)]
pub enum ElectionUpdate {
    /// Nothing to change: the election is not running, or no longer has a candidate znode.
    Ignore,
    /// This instance is the first candidate.
    Primary,
    /// This instance is a candidate, but not the first.
    Secondary,
    /// The election must be terminated.
    Terminate(TerminateReason),
}

/// The texts of the candidate znodes.
pub open spec fn candidate_views(c: Seq<String>) -> Seq<Seq<char>> {
    c.map_values(|s: String| s@)
}

/// Index of the first candidate in sorted order; ties keep the earliest.
pub open spec fn lowest_index(c: Seq<Seq<char>>) -> int
    decreases c.len(),
{
    if c.len() <= 1 {
        0
    } else {
        let r = lowest_index(c.drop_last());
        if str_before(c.last(), c[r]) {
            c.len() - 1
        } else {
            r
        }
    }
}

/// The transition for a refresh, as a function of the election path, the
/// candidate znode of this instance and what the refresh learnt.
pub open spec fn spec_election_update(path: Seq<char>, znode: Option<String>, lookup: ChildrenLookup) -> ElectionUpdate {
    match lookup {
        ChildrenLookup::SessionLost => ElectionUpdate::Terminate(TerminateReason::SessionLost),
        ChildrenLookup::Failed(ZkFailure::NoNode) => ElectionUpdate::Terminate(TerminateReason::ElectionDeleted),
        ChildrenLookup::Failed(_) => ElectionUpdate::Terminate(TerminateReason::RefreshFailed),
        ChildrenLookup::Listed(c) => {
            let names = candidate_views(c@);
            if names.len() == 0 {
                ElectionUpdate::Terminate(TerminateReason::NoCandidates)
            } else {
                match znode {
                    None => ElectionUpdate::Ignore,
                    Some(z) => if z@ == joined(path, names[lowest_index(names)]) {
                        ElectionUpdate::Primary
                    } else if exists|j: int| 0 <= j < names.len() && z@ == joined(path, #[trigger] names[j]) {
                        ElectionUpdate::Secondary
                    } else {
                        ElectionUpdate::Terminate(TerminateReason::CandidateDeleted)
                    },
                }
            }
        },
    }
}

/// The sorted-first candidate is no later than any other candidate.
pub proof fn law_lowest_is_first_in_order(c: Seq<Seq<char>>)
    requires
        c.len() > 0,
    ensures
        0 <= lowest_index(c) < c.len(),
        forall|k: int| 0 <= k < c.len() ==> !str_before(#[trigger] c[k], c[lowest_index(c)]),
    decreases c.len(),
{
    if c.len() == 1 {
        lemma_lex_irreflexive(vstd::utf8::encode_utf8(c[0]), 0);
    } else {
        let prev = c.drop_last();
        law_lowest_is_first_in_order(prev);
        let r = lowest_index(prev);
        let last = c.len() - 1;
        assert forall|k: int| 0 <= k < c.len() implies !str_before(#[trigger] c[k], c[lowest_index(c)]) by {
            if str_before(c.last(), c[r]) {
                if k == last {
                    lemma_lex_irreflexive(vstd::utf8::encode_utf8(c[k]), 0);
                } else {
                    assert(c[k] == prev[k]);
                    if str_before(c[k], c[last]) {
                        lemma_lex_transitive(
                            vstd::utf8::encode_utf8(c[k]),
                            vstd::utf8::encode_utf8(c[last]),
                            vstd::utf8::encode_utf8(c[r]),
                            0,
                        );
                    }
                }
            } else {
                if k < last {
                    assert(c[k] == prev[k]);
                }
            }
        }
    }
}

/// Index of the sorted-first candidate.
fn lowest_candidate(c: &Vec<String>) -> (r: usize)
    requires
        c@.len() > 0,
    ensures
        r == lowest_index(candidate_views(c@)),
        r < c@.len(),
{
    let ghost names = candidate_views(c@);
    let mut m: usize = 0;
    let mut j: usize = 1;
    proof {
        assert(names.take(1).len() == 1);
    }
    while j < c.len()
        invariant
            names == candidate_views(c@),
            1 <= j <= c@.len(),
            m < j,
            m == lowest_index(names.take(j as int)),
        decreases c@.len() - j,
    {
        proof {
            assert(names.take(j + 1).drop_last() =~= names.take(j as int));
            assert(names.take(j + 1).last() == c@[j as int]@);
            assert(names.take(j as int)[m as int] == c@[m as int]@);
        }
        if str_lt(c[j].as_str(), c[m].as_str()) {
            m = j;
        }
        j = j + 1;
    }
    assert(names.take(c@.len() as int) =~= names);
    m
}

/// The transition a refresh of the candidates calls for.
///
/// Candidates are ordered by name (ZooKeeper sequence numbers) and the first is
/// the primary. An instance whose candidate znode is listed but not first is a
/// secondary. A missing candidate znode, an empty or deleted election, a failed
/// listing or a lost session terminate the election. A refresh of an election
/// that is not running (not a candidate, or terminated) changes nothing.
pub fn election_update(stage: ElectionStateMachine, path_election: &str, znode: &Option<String>, lookup: &ChildrenLookup) -> (r: ElectionUpdate)
    ensures
        !spec_running(stage) ==> r is Ignore,
        spec_running(stage) ==> r == spec_election_update(path_election@, *znode, *lookup),
{
    if !stage.running() {
        return ElectionUpdate::Ignore;
    }
    match lookup {
        ChildrenLookup::SessionLost => ElectionUpdate::Terminate(TerminateReason::SessionLost),
        ChildrenLookup::Failed(ZkFailure::NoNode) => ElectionUpdate::Terminate(TerminateReason::ElectionDeleted),
        ChildrenLookup::Failed(_) => ElectionUpdate::Terminate(TerminateReason::RefreshFailed),
        ChildrenLookup::Listed(candidates) => {
            let ghost names = candidate_views(candidates@);
            if candidates.len() == 0 {
                return ElectionUpdate::Terminate(TerminateReason::NoCandidates);
            }
            let first = lowest_candidate(candidates);
            let own = match znode {
                None => {
                    return ElectionUpdate::Ignore;
                },
                Some(own) => own,
            };
            let primary = join_path(path_election, candidates[first].as_str());
            assert(names[first as int] == candidates@[first as int]@);
            if *own == primary {
                return ElectionUpdate::Primary;
            }
            assert(own@ != joined(path_election@, names[lowest_index(names)]));
            let mut j: usize = 0;
            while j < candidates.len()
                invariant
                    names == candidate_views(candidates@),
                    0 <= j <= candidates@.len(),
                    forall|k: int| 0 <= k < j ==> own@ != joined(path_election@, #[trigger] names[k]),
                    names.len() > 0,
                    *znode == Some(*own),
                    *lookup == ChildrenLookup::Listed(*candidates),
                    own@ != joined(path_election@, names[lowest_index(names)]),
                    spec_running(stage),
                decreases candidates@.len() - j,
            {
                let full = join_path(path_election, candidates[j].as_str());
                assert(names[j as int] == candidates@[j as int]@);
                if full == *own {
                    assert(own@ == joined(path_election@, names[j as int]));
                    assert(exists|k: int| 0 <= k < names.len() && own@ == joined(path_election@, #[trigger] names[k]));
                    return ElectionUpdate::Secondary;
                }
                j = j + 1;
            }
            ElectionUpdate::Terminate(TerminateReason::CandidateDeleted)
        },
    }
}

/// The state change a refresh makes, with the resources a termination frees.
pub fn apply_update<S>(state: &mut ElectionState<S>, update: ElectionUpdate) -> (r: (Option<String>, Option<S>))
    requires
        old(state).wf(),
    ensures
        final(state).wf(),
        final(state).name == old(state).name,
        final(state).primary_watcher == old(state).primary_watcher,
        match update {
            ElectionUpdate::Ignore => *final(state) == *old(state) && r.0 is None && r.1 is None,
            ElectionUpdate::Primary => final(state).state == after_primary(old(state).state) && r.0 is None && r.1 is None,
            ElectionUpdate::Secondary => final(state).state == after_secondary(old(state).state) && r.0 is None && r.1 is None,
            ElectionUpdate::Terminate(reason) => {
                &&& final(state).state is Terminated
                &&& final(state).terminate_reason matches Some(t) && t@ == reason_text(reason)
                &&& r.0 == old(state).candidate_znode
                &&& r.1 == old(state).subscription
            },
        },
{
    match update {
        ElectionUpdate::Ignore => (None, None),
        ElectionUpdate::Primary => {
            state.primary();
            (None, None)
        },
        ElectionUpdate::Secondary => {
            state.secondary();
            (None, None)
        },
        ElectionUpdate::Terminate(reason) => {
            let text = reason.text();
            state.terminate(String::from_str(text))
        },
    }
}

/// The znode paths of an election.
pub struct ElectionPaths {
    /// Prefix of the sequential candidate znodes.
    pub path_candidate: String,
    /// The election container znode.
    pub path_election: String,
}

/// The election container path for an election name: the hashed name under the elections prefix.
pub open spec fn election_path(name: Seq<char>) -> Seq<char> {
    joined(prefix_election(), key_hash(name))
}

/// The znode paths of the named election.
pub fn election_paths(name: &str) -> (r: ElectionPaths)
    ensures
        r.path_election@ == election_path(name@),
        r.path_candidate@ == joined(election_path(name@), "candidate-"@),
{
    let id = Client::hash_from_key(name);
    let path_election = join_path(prefix_election_text(), id.as_str());
    let path_candidate = join_path(path_election.as_str(), "candidate-");
    ElectionPaths { path_candidate, path_election }
}

/// Check that an election in the given stage may be run.
pub fn run_check(state: ElectionStateMachine, name: &String) -> (r: std::result::Result<(), ErrorKind>)
    ensures
        spec_can_run(state) ==> r is Ok,
        !spec_can_run(state) ==> (r matches Err(e) && e@ == ErrorKind::ElectionRunning(*name)@),
{
    if !state.can_run() {
        return Err(ErrorKind::ElectionRunning(name.clone()));
    }
    Ok(())
}

/// The next step of a registration after creating the candidate znode.
pub enum RegisterStep {
    /// The candidate znode with the given path was created.
    Registered(String),
    /// The election container is missing: create it, then the candidate again.
    CreateElection,
    /// Registration failed.
    Failed(ErrorKind),
}

/// The next step of a registration after creating the candidate znode.
pub fn register_step(created: std::result::Result<String, ZkFailure>) -> (r: RegisterStep)
    ensures
        match created {
            Ok(z) => r == RegisterStep::Registered(z),
            Err(ZkFailure::NoNode) => r is CreateElection,
            Err(_) => r matches RegisterStep::Failed(e) && e@ == ErrorKind::Backend("election registration")@,
        },
{
    match created {
        Ok(znode) => RegisterStep::Registered(znode),
        Err(ZkFailure::NoNode) => RegisterStep::CreateElection,
        Err(_) => RegisterStep::Failed(ErrorKind::Backend("election registration")),
    }
}

/// The outcome of creating the election container: an existing container is fine.
pub fn election_container_step(created: std::result::Result<(), ZkFailure>) -> (r: std::result::Result<(), ErrorKind>)
    ensures
        (created is Ok || created == Err::<(), ZkFailure>(ZkFailure::NodeExists)) ==> r is Ok,
        !(created is Ok || created == Err::<(), ZkFailure>(ZkFailure::NodeExists)) ==> (r matches Err(e) && e@ == ErrorKind::Backend("election registration")@),
{
    match created {
        Ok(()) => Ok(()),
        Err(ZkFailure::NodeExists) => Ok(()),
        Err(_) => Err(ErrorKind::Backend("election registration")),
    }
}

/// The outcome of the second attempt at creating the candidate znode.
pub fn register_retry_step(created: std::result::Result<String, ZkFailure>) -> (r: std::result::Result<String, ErrorKind>)
    ensures
        match created {
            Ok(z) => r == Ok::<String, ErrorKind>(z),
            Err(_) => r matches Err(e) && e@ == ErrorKind::Backend("election registration")@,
        },
{
    match created {
        Ok(znode) => Ok(znode),
        Err(_) => Err(ErrorKind::Backend("election registration")),
    }
}

/// The outcome of deleting the candidate znode when stepping down: a znode that
/// is already gone is fine.
pub fn step_down_delete_step(deleted: std::result::Result<(), ZkFailure>) -> (r: std::result::Result<(), ErrorKind>)
    ensures
        (deleted is Ok || deleted == Err::<(), ZkFailure>(ZkFailure::NoNode)) ==> r is Ok,
        !(deleted is Ok || deleted == Err::<(), ZkFailure>(ZkFailure::NoNode)) ==> (r matches Err(e) && e@ == ErrorKind::Backend("election step down")@),
{
    match deleted {
        Ok(()) => Ok(()),
        Err(ZkFailure::NoNode) => Ok(()),
        Err(_) => Err(ErrorKind::Backend("election step down")),
    }
}

/// The number of secondaries of an election given its candidates: every
/// candidate but the primary.
pub fn secondaries_count(candidates: &Option<Vec<String>>) -> (r: usize)
    ensures
        match candidates {
            None => r == 0,
            Some(c) => r == if c@.len() == 0 { 0 } else { c@.len() - 1 },
        },
{
    let count = match candidates {
        None => 0,
        Some(candidates) => candidates.len(),
    };
    if count <= 1 {
        0
    } else {
        count - 1
    }
}

/// The znode of the elected primary among the given candidates: the first in sorted order.
pub open spec fn primary_of(path_election: Seq<char>, candidates: Seq<String>) -> Seq<char> {
    joined(path_election, candidate_views(candidates)[lowest_index(candidate_views(candidates))])
}

/// The znode of the primary as election admins see it: the candidate that a
/// refresh of the election elects, the first in sorted order.
pub fn admin_primary_path(path_election: &str, candidates: &Vec<String>) -> (r: Option<String>)
    ensures
        candidates@.len() == 0 ==> r is None,
        candidates@.len() > 0 ==> (r matches Some(p) && p@ == primary_of(path_election@, candidates@)),
{
    if candidates.len() == 0 {
        return None;
    }
    let first = lowest_candidate(candidates);
    assert(candidate_views(candidates@)[first as int] == candidates@[first as int]@);
    Some(join_path(path_election, candidates[first].as_str()))
}

/// `r` is the outcome of registering a candidate once the election container
/// is found missing: the container is created, then the candidate again.
pub open spec fn registered_after_container<C: ZnodeClient>(client: &C, paths: ElectionPaths, candidate: Seq<u8>, election: Seq<u8>, r: std::result::Result<String, ErrorKind>) -> bool {
    exists|made| #[trigger] created_by(client, paths.path_election@, election, ZnodeMode::Persistent, made) && if made is Ok
        || made == Err::<String, ZkFailure>(ZkFailure::NodeExists) {
        exists|second| #[trigger] created_by(client, paths.path_candidate@, candidate, ZnodeMode::EphemeralSequential, second) && match second {
            Ok(z) => r == Ok::<String, ErrorKind>(z),
            Err(_) => r matches Err(e) && e@ == ErrorKind::Backend("election registration")@,
        }
    } else {
        r matches Err(e) && e@ == ErrorKind::Backend("election registration")@
    }
}

/// `r` is the outcome of registering a candidate through the client: an
/// ephemeral sequential candidate znode is created, and when the election
/// container is missing it is created and the candidate created again.
pub open spec fn registered_by<C: ZnodeClient>(client: &C, paths: ElectionPaths, candidate: Seq<u8>, election: Seq<u8>, r: std::result::Result<String, ErrorKind>) -> bool {
    exists|first| #[trigger] created_by(client, paths.path_candidate@, candidate, ZnodeMode::EphemeralSequential, first) && match first {
        Ok(z) => r == Ok::<String, ErrorKind>(z),
        Err(ZkFailure::NoNode) => registered_after_container(client, paths, candidate, election, r),
        Err(_) => r matches Err(e) && e@ == ErrorKind::Backend("election registration")@,
    }
}

/// Register a candidate znode for an election, creating the election
/// container if it is missing, and return the path of the candidate znode.
///
/// `candidate` and `election` are the encoded candidate and election information.
pub fn register<C: ZnodeClient>(client: &C, paths: &ElectionPaths, candidate: &Vec<u8>, election: &Vec<u8>) -> (r: std::result::Result<String, ErrorKind>)
    ensures
        registered_by(client, *paths, candidate@, election@, r),
{
    let d1 = candidate.clone();
    let ghost g1 = d1;
    let pc = paths.path_candidate.as_str();
    let created = client.create(pc, d1, ZnodeMode::EphemeralSequential);
    assert(created_by(client, paths.path_candidate@, candidate@, ZnodeMode::EphemeralSequential, created)) by {
        assert(call_ensures(C::create, (client, pc, g1, ZnodeMode::EphemeralSequential), created));
    }
    let ghost first = created;
    match register_step(created) {
        RegisterStep::Registered(znode) => Ok(znode),
        RegisterStep::Failed(error) => Err(error),
        RegisterStep::CreateElection => {
            let d2 = election.clone();
            let ghost g2 = d2;
            let pe = paths.path_election.as_str();
            let container = client.create(pe, d2, ZnodeMode::Persistent);
            assert(created_by(client, paths.path_election@, election@, ZnodeMode::Persistent, container)) by {
                assert(call_ensures(C::create, (client, pe, g2, ZnodeMode::Persistent), container));
            }
            let ghost made = container;
            let container = match container {
                Ok(_) => Ok(()),
                Err(e) => Err(e),
            };
            if let Err(error) = election_container_step(container) {
                assert(registered_after_container(client, *paths, candidate@, election@, Err(error)));
                return Err(error);
            }
            let d3 = candidate.clone();
            let ghost g3 = d3;
            let created = client.create(pc, d3, ZnodeMode::EphemeralSequential);
            assert(created_by(client, paths.path_candidate@, candidate@, ZnodeMode::EphemeralSequential, created)) by {
                assert(call_ensures(C::create, (client, pc, g3, ZnodeMode::EphemeralSequential), created));
            }
            let r = register_retry_step(created);
            assert(created_by(client, paths.path_election@, election@, ZnodeMode::Persistent, made));
            assert(registered_after_container(client, *paths, candidate@, election@, r));
            r
        },
    }
}

/// The outcome of deleting a candidate znode when stepping down: a znode that
/// is already gone is fine.
pub open spec fn step_down_deleted(deleted: std::result::Result<(), ZkFailure>, r: std::result::Result<(), ErrorKind>) -> bool {
    if deleted is Ok || deleted == Err::<(), ZkFailure>(ZkFailure::NoNode) {
        r is Ok
    } else {
        r matches Err(e) && e@ == ErrorKind::Backend("election step down")@
    }
}

/// Delete the candidate znode of an instance that steps down; nothing else is deleted.
pub fn delete_candidate<C: ZnodeClient>(client: &mut Recorder<C>, znode: &Option<String>) -> (r: std::result::Result<(), ErrorKind>)
    ensures
        final(client).client() == old(client).client(),
        match *znode {
            None => r is Ok && final(client).ops() == old(client).ops(),
            Some(z) => final(client).ops() == old(client).ops().push(ZnodeOp::Delete(z@, None))
                && exists|deleted| #[trigger] deleted_at_by(old(client).client(), z@, None, deleted) && step_down_deleted(deleted, r),
        },
{
    match znode {
        None => Ok(()),
        Some(znode) => {
            let deleted = client.delete(znode.as_str(), None);
            let r = step_down_delete_step(deleted);
            assert(step_down_deleted(deleted, r));
            r
        },
    }
}

/// The candidates of an election given the reply to listing its znode: `None`
/// when the election does not exist.
pub open spec fn candidates_outcome(listed: std::result::Result<Vec<String>, ZkFailure>, r: std::result::Result<Option<Vec<String>>, ErrorKind>) -> bool {
    match listed {
        Ok(c) => r == Ok::<Option<Vec<String>>, ErrorKind>(Some(c)),
        Err(ZkFailure::NoNode) => r == Ok::<Option<Vec<String>>, ErrorKind>(None),
        Err(_) => r matches Err(e) && e@ == ErrorKind::Backend("election candidates lookup")@,
    }
}

/// `r` is the outcome of listing the candidates of the election at `path` through the client.
pub open spec fn candidates_listed_by<C: ZnodeClient>(client: &C, path: Seq<char>, r: std::result::Result<Option<Vec<String>>, ErrorKind>) -> bool {
    exists|listed| #[trigger] children_by(client, path, listed) && candidates_outcome(listed, r)
}

/// The candidates of an election, `None` if the election does not exist.
pub fn election_candidates<C: ZnodeClient>(client: &C, path_election: &str) -> (r: std::result::Result<Option<Vec<String>>, ErrorKind>)
    ensures
        candidates_listed_by(client, path_election@, r),
{
    let listed = client.get_children(path_election);
    assert(children_by(client, path_election@, listed)) by {
        assert(call_ensures(C::get_children, (client, path_election), listed));
    }
    let ghost l = listed;
    let r = match listed {
        Ok(candidates) => Ok(Some(candidates)),
        Err(ZkFailure::NoNode) => Ok(None),
        Err(_) => Err(ErrorKind::Backend("election candidates lookup")),
    };
    assert(candidates_outcome(l, r));
    r
}

/// The number of secondaries among the candidates of an election.
pub open spec fn spec_secondaries(candidates: Option<Vec<String>>) -> usize {
    match candidates {
        None => 0,
        Some(c) => if c@.len() == 0 { 0 } else { (c@.len() - 1) as usize },
    }
}

/// The number of secondaries waiting to take over an election.
pub fn election_secondaries_count<C: ZnodeClient>(client: &C, path_election: &str) -> (r: std::result::Result<usize, ErrorKind>)
    ensures
        exists|listed| #[trigger] candidates_listed_by(client, path_election@, listed) && match listed {
            Ok(c) => r == Ok::<usize, ErrorKind>(spec_secondaries(c)),
            Err(e) => r matches Err(x) && x@ == e@,
        },
{
    let listed = election_candidates(client, path_election);
    let ghost l = listed;
    let r = match listed {
        Ok(candidates) => Ok(secondaries_count(&candidates)),
        Err(e) => Err(e),
    };
    assert(candidates_listed_by(client, path_election@, l));
    r
}

/// `r` is the outcome of stripping the primary of an election of its role,
/// given the reply `listed` to listing its candidates: the znode of the
/// elected primary, and only that one, is deleted.
pub open spec fn stepped_down_by<C: ZnodeClient>(client: &C, path: Seq<char>, listed: std::result::Result<Vec<String>, ZkFailure>, r: std::result::Result<bool, ErrorKind>, ops: Seq<ZnodeOp>) -> bool {
    &&& ops.len() > 0
    &&& ops[0] == ZnodeOp::Children(path)
    &&& match listed {
        Err(ZkFailure::NoNode) => ops.len() == 1 && r == Ok::<bool, ErrorKind>(false),
        Err(_) => ops.len() == 1 && (r matches Err(e) && e@ == ErrorKind::Backend("election candidates lookup")@),
        Ok(c) => if c@.len() == 0 {
            ops.len() == 1 && r == Ok::<bool, ErrorKind>(false)
        } else {
            &&& ops == seq![ZnodeOp::Children(path), ZnodeOp::Delete(primary_of(path, c@), None)]
            &&& exists|deleted| #[trigger] deleted_at_by(client, primary_of(path, c@), None, deleted) && if deleted is Ok {
                r == Ok::<bool, ErrorKind>(true)
            } else {
                r matches Err(x) && x@ == ErrorKind::Backend("election step-down")@
            }
        },
    }
}

/// Strip the current primary of an election of its role, forcing a new
/// election; `false` if there was no primary to strip.
pub fn election_step_down<C: ZnodeClient>(client: &mut Recorder<C>, path_election: &str) -> (r: std::result::Result<bool, ErrorKind>)
    ensures
        final(client).client() == old(client).client(),
        exists|listed, made| children_by(old(client).client(), path_election@, listed)
            && #[trigger] stepped_down_by(old(client).client(), path_election@, listed, r, made) && final(client).ops() == old(client).ops() + made,
{
    let ghost zk = client.client();
    let ghost start = client.ops();
    let listed = client.get_children(path_election);
    let ghost l = listed;
    let ghost head = seq![ZnodeOp::Children(path_election@)];
    proof {
        assert(client.ops() =~= start + head);
    }
    let candidates = match listed {
        Err(ZkFailure::NoNode) => {
            assert(stepped_down_by(zk, path_election@, l, Ok(false), head));
            return Ok(false);
        },
        Err(_) => {
            let r = Err(ErrorKind::Backend("election candidates lookup"));
            assert(stepped_down_by(zk, path_election@, l, r, head));
            return r;
        },
        Ok(candidates) => candidates,
    };
    let primary = match admin_primary_path(path_election, &candidates) {
        None => {
            assert(stepped_down_by(zk, path_election@, l, Ok(false), head));
            return Ok(false);
        },
        Some(primary) => primary,
    };
    let deleted = client.delete(primary.as_str(), None);
    let r = match deleted {
        Ok(()) => Ok(true),
        Err(_) => Err(ErrorKind::Backend("election step-down")),
    };
    let ghost made = head.push(ZnodeOp::Delete(primary@, None));
    proof {
        assert(client.ops() =~= start + made);
        assert(made =~= seq![ZnodeOp::Children(path_election@), ZnodeOp::Delete(primary_of(path_election@, candidates@), None)]);
        assert(deleted_at_by(zk, primary@, None, deleted));
    }
    assert(stepped_down_by(zk, path_election@, l, r, made));
    r
}

/// The election container paths for a listing of the elections prefix, in listing order.
pub fn election_listing(children: &Vec<String>) -> (r: Vec<String>)
    ensures
        r@.len() == children@.len(),
        forall|i: int| 0 <= i < r@.len() ==> (#[trigger] r@[i])@ == joined(prefix_election(), children@[i]@),
{
    let mut r: Vec<String> = Vec::new();
    let mut i: usize = 0;
    while i < children.len()
        invariant
            0 <= i <= children@.len(),
            r@.len() == i,
            forall|k: int| 0 <= k < i ==> (#[trigger] r@[k])@ == joined(prefix_election(), children@[k]@),
        decreases children@.len() - i,
    {
        r.push(join_path(prefix_election_text(), children[i].as_str()));
        i = i + 1;
    }
    r
}

} // verus!
