//! Facts about filtering a sequence, shared by the two reclamation policies.

use vstd::prelude::*;

verus! {

/// Filtering a second time by the same predicate removes nothing more.
pub proof fn lemma_filter_twice<A>(s: Seq<A>, keep: spec_fn(A) -> bool)
    ensures
        s.filter(keep).filter(keep) == s.filter(keep),
    decreases s.len(),
{
    reveal(Seq::filter);
    if s.len() > 0 {
        let rest = s.drop_last();
        lemma_filter_twice(rest, keep);
        if keep(s.last()) {
            rest.filter(keep).lemma_filter_push(s.last(), keep);
        }
    }
}

/// What one predicate keeps, a predicate that excludes it removes entirely.
pub proof fn lemma_filter_excluded<A>(s: Seq<A>, keep: spec_fn(A) -> bool, drop: spec_fn(A) -> bool)
    requires
        forall|a: A| #[trigger] keep(a) ==> !drop(a),
    ensures
        s.filter(keep).filter(drop) == Seq::<A>::empty(),
    decreases s.len(),
{
    reveal(Seq::filter);
    if s.len() > 0 {
        let rest = s.drop_last();
        lemma_filter_excluded(rest, keep, drop);
        if keep(s.last()) {
            rest.filter(keep).lemma_filter_push(s.last(), drop);
        }
    }
}

/// Every element is either kept or dropped by a predicate and its negation:
/// the two parts together are as long as the whole.
pub proof fn lemma_filter_partition<A>(
    s: Seq<A>,
    keep: spec_fn(A) -> bool,
    drop: spec_fn(A) -> bool,
)
    requires
        forall|a: A| #[trigger] keep(a) <==> !drop(a),
    ensures
        s.filter(keep).len() + s.filter(drop).len() == s.len(),
    decreases s.len(),
{
    reveal(Seq::filter);
    if s.len() > 0 {
        lemma_filter_partition(s.drop_last(), keep, drop);
    }
}

/// Each element of a filtered sequence comes from the sequence, and the
/// elements keep their order: an element that follows another after
/// filtering followed it before.
pub proof fn lemma_filter_keeps_order<A>(s: Seq<A>, keep: spec_fn(A) -> bool) -> (origin: Seq<int>)
    ensures
        origin.len() == s.filter(keep).len(),
        forall|i: int|
            0 <= i < origin.len() ==> 0 <= #[trigger] origin[i] < s.len() && s[origin[i]]
                == s.filter(keep)[i],
        forall|i: int, j: int|
            0 <= i < j < origin.len() ==> #[trigger] origin[i] < #[trigger] origin[j],
    decreases s.len(),
{
    reveal(Seq::filter);
    if s.len() == 0 {
        Seq::empty()
    } else {
        let rest = s.drop_last();
        let before = lemma_filter_keeps_order(rest, keep);
        if keep(s.last()) {
            before.push(s.len() - 1)
        } else {
            before
        }
    }
}

} // verus!
