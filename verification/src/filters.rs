//! What filters keep of a sequence.

use vstd::prelude::*;

verus! {

/// Nothing of no element is kept.
pub proof fn lemma_filter_start<T>(s: Seq<T>, keep: spec_fn(T) -> bool)
    ensures
        s.take(0).filter(keep) == Seq::<T>::empty(),
{
    lemma_filter_nothing(s.take(0), keep);
}

/// What is kept of the elements up to the next one.
pub proof fn lemma_filter_step<T>(s: Seq<T>, keep: spec_fn(T) -> bool, i: int)
    requires
        0 <= i < s.len(),
    ensures
        s.take(i + 1).filter(keep) == (if keep(s[i]) {
            s.take(i).filter(keep).push(s[i])
        } else {
            s.take(i).filter(keep)
        }),
{
    s.take(i).lemma_filter_push(s[i], keep);
    assert(s.take(i + 1) =~= s.take(i).push(s[i]));
}

/// A filter keeps nothing where it holds of no element.
pub proof fn lemma_filter_nothing<T>(s: Seq<T>, keep: spec_fn(T) -> bool)
    requires
        forall|i: int| 0 <= i < s.len() ==> !keep(#[trigger] s[i]),
    ensures
        s.filter(keep) == Seq::<T>::empty(),
    decreases s.len(),
{
    reveal(Seq::filter);
    if s.len() > 0 {
        lemma_filter_nothing(s.drop_last(), keep);
        assert(!keep(s[s.len() - 1]));
    }
}

/// A filter that keeps as many elements as there are keeps them all, and it does
/// so where it holds of every element.
pub proof fn lemma_filter_all<T>(s: Seq<T>, keep: spec_fn(T) -> bool)
    ensures
        s.filter(keep).len() == s.len() ==> s.filter(keep) == s,
        (forall|i: int| 0 <= i < s.len() ==> keep(#[trigger] s[i])) ==> s.filter(keep) == s,
    decreases s.len(),
{
    reveal(Seq::filter);
    if s.len() > 0 {
        let rest = s.drop_last();
        rest.lemma_filter_len(keep);
        lemma_filter_all(rest, keep);
        assert(s =~= rest.push(s.last()));
        if forall|i: int| 0 <= i < s.len() ==> keep(#[trigger] s[i]) {
            assert forall|i: int| 0 <= i < rest.len() implies keep(#[trigger] rest[i]) by {
                assert(rest[i] == s[i]);
            }
            assert(keep(s[s.len() - 1]));
        }
    }
}

/// Filtering twice is filtering once.
pub proof fn lemma_filter_twice<T>(s: Seq<T>, keep: spec_fn(T) -> bool)
    ensures
        s.filter(keep).filter(keep) == s.filter(keep),
{
    let kept = s.filter(keep);
    assert forall|i: int| 0 <= i < kept.len() implies keep(#[trigger] kept[i]) by {
        s.lemma_filter_pred(keep, i);
    }
    lemma_filter_all(kept, keep);
}

/// What a filter keeps comes from the list.
pub proof fn lemma_filter_member<T>(s: Seq<T>, keep: spec_fn(T) -> bool, k: int)
    requires
        0 <= k < s.filter(keep).len(),
    ensures
        exists|i: int| 0 <= i < s.len() && #[trigger] s[i] == s.filter(keep)[k],
    decreases s.len(),
{
    reveal(Seq::filter);
    if s.len() > 0 {
        let rest = s.drop_last();
        if k < rest.filter(keep).len() {
            lemma_filter_member(rest, keep, k);
            let i = choose|i: int| 0 <= i < rest.len() && #[trigger] rest[i] == rest.filter(
                keep,
            )[k];
            assert(s[i] == s.filter(keep)[k]);
        } else {
            assert(s[s.len() - 1] == s.filter(keep)[k]);
        }
    }
}

/// Whether `kept` holds those elements of `s` that are wanted, each once for its
/// place, in their order. The places are given.
pub open spec fn keeps_wanted<T>(
    s: Seq<T>,
    kept: Seq<T>,
    wanted: spec_fn(T) -> bool,
    places: Seq<int>,
) -> bool {
    &&& kept.len() == places.len()
    &&& forall|k: int|
        0 <= k < places.len() ==> 0 <= #[trigger] places[k] < s.len() && kept[k] == s[places[k]]
            && wanted(s[places[k]])
    &&& forall|j: int, k: int| 0 <= j < k < places.len() ==> places[j] < places[k]
    &&& forall|i: int| 0 <= i < s.len() && wanted(s[i]) ==> #[trigger] places.contains(i)
}

/// A filter keeps what it holds of, in order.
pub proof fn lemma_filter_places<T>(s: Seq<T>, keep: spec_fn(T) -> bool) -> (places: Seq<int>)
    ensures
        keeps_wanted(s, s.filter(keep), keep, places),
    decreases s.len(),
{
    reveal(Seq::filter);
    if s.len() == 0 {
        Seq::empty()
    } else {
        let n = s.len() - 1;
        let rest = s.drop_last();
        let before = lemma_filter_places(rest, keep);
        if keep(s[n]) {
            let places = before.push(n);
            assert forall|i: int| 0 <= i < s.len() && keep(s[i]) implies #[trigger]
            places.contains(i) by {
                if i < n {
                    assert(rest[i] == s[i]);
                    assert(before.contains(i));
                    assert(places[before.index_of(i)] == i);
                } else {
                    assert(places[before.len() as int] == i);
                }
            }
            places
        } else {
            assert forall|i: int| 0 <= i < s.len() && keep(s[i]) implies #[trigger]
            before.contains(i) by {
                assert(rest[i] == s[i]);
            }
            before
        }
    }
}

} // verus!
