//! Sequences with their repeated items dropped.
use vstd::prelude::*;

verus! {

/// The items of `s` in the order of their first occurrence, each kept once.
pub open spec fn first_occurrences<A>(s: Seq<A>) -> Seq<A>
    decreases s.len(),
{
    if s.len() == 0 {
        Seq::empty()
    } else {
        let prev = first_occurrences(s.drop_last());
        if prev.contains(s.last()) {
            prev
        } else {
            prev.push(s.last())
        }
    }
}

/// Whether no item occurs twice in `s`.
pub open spec fn no_duplicates<A>(s: Seq<A>) -> bool {
    forall|i: int, j: int| 0 <= i < s.len() && 0 <= j < s.len() && i != j ==> s[i] != s[j]
}

/// Keeping the first occurrences leaves no item twice.
pub proof fn lemma_first_occurrences_unique<A>(s: Seq<A>)
    ensures
        no_duplicates(first_occurrences(s)),
    decreases s.len(),
{
    if s.len() > 0 {
        lemma_first_occurrences_unique(s.drop_last());
    }
}

/// Keeping the first occurrences loses no item and adds none.
pub proof fn lemma_first_occurrences_same_items<A>(s: Seq<A>)
    ensures
        forall|x: A| #[trigger] first_occurrences(s).contains(x) <==> s.contains(x),
    decreases s.len(),
{
    if s.len() > 0 {
        let prev = s.drop_last();
        let last = s.last();
        let pf = first_occurrences(prev);
        lemma_first_occurrences_same_items(prev);
        assert forall|x: A| #[trigger] first_occurrences(s).contains(x) <==> s.contains(x) by {
            let f = first_occurrences(s);
            if prev.contains(x) {
                let i = choose|i: int| 0 <= i < prev.len() && prev[i] == x;
                assert(s[i] == x);
            }
            assert(s[s.len() - 1] == last);
            if s.contains(x) && x != last {
                let i = choose|i: int| 0 <= i < s.len() && s[i] == x;
                assert(prev[i] == x);
            }
            if pf.contains(last) {
                assert(f == pf);
            } else {
                assert(f == pf.push(last));
                assert(f[f.len() - 1] == last);
                if pf.contains(x) {
                    let i = choose|i: int| 0 <= i < pf.len() && pf[i] == x;
                    assert(f[i] == x);
                }
                if f.contains(x) && x != last {
                    let i = choose|i: int| 0 <= i < f.len() && f[i] == x;
                    assert(pf[i] == x);
                }
            }
        }
    }
}

} // verus!
