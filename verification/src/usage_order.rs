//! The order of the list after items were used.

use vstd::prelude::*;

use crate::filters::lemma_filter_nothing;
use crate::types::ClipboardItem;

verus! {

/// Holds of the rows that were used at this time.
pub open spec fn used_at<S>(time: i64) -> spec_fn((ClipboardItem, S)) -> bool {
    |pair: (ClipboardItem, S)| pair.0.updated_at == time
}

/// Whether no row was used later than one before it.
pub open spec fn newest_first<S>(pairs: Seq<(ClipboardItem, S)>) -> bool {
    forall|i: int, j: int|
        0 <= i <= j < pairs.len() ==> (#[trigger] pairs[i]).0.updated_at >= (
        #[trigger] pairs[j]).0.updated_at
}

/// Whether `after` holds the rows of `before` with the latest use first, where
/// rows that were used at the same time keep their order.
pub open spec fn stably_newest_first<S>(
    before: Seq<(ClipboardItem, S)>,
    after: Seq<(ClipboardItem, S)>,
) -> bool {
    &&& newest_first(after)
    &&& forall|time: i64| #[trigger]
        after.filter(used_at(time)) == before.filter(used_at(time))
}

/// How many favorites the list starts with.
pub open spec fn leading_favorites<S>(pairs: Seq<(ClipboardItem, S)>) -> nat
    decreases pairs.len(),
{
    if pairs.len() == 0 || !pairs[0].0.is_favorite {
        0
    } else {
        1 + leading_favorites(pairs.drop_first())
    }
}

/// Whether `after` is what a use of items makes of `before`: the same list where
/// the list is in order of creation, the latest use first otherwise; where
/// favorites come first, inside each of the two groups.
pub open spec fn is_usage_order<S>(
    before: Seq<(ClipboardItem, S)>,
    after: Seq<(ClipboardItem, S)>,
    sort_by_created: bool,
    favorites_first: bool,
) -> bool {
    if sort_by_created {
        after == before
    } else if favorites_first {
        let split = leading_favorites(before) as int;
        &&& after.len() == before.len()
        &&& stably_newest_first(before.take(split), after.take(split))
        &&& stably_newest_first(before.skip(split), after.skip(split))
    } else {
        stably_newest_first(before, after)
    }
}

/// A list starts with as many favorites as there are before its first other
/// item.
pub proof fn lemma_leading_favorites<S>(pairs: Seq<(ClipboardItem, S)>, n: int)
    requires
        0 <= n <= pairs.len(),
        forall|i: int| 0 <= i < n ==> (#[trigger] pairs[i]).0.is_favorite,
        n < pairs.len() ==> !pairs[n].0.is_favorite,
    ensures
        leading_favorites(pairs) == n,
    decreases pairs.len(),
{
    if n > 0 {
        let rest = pairs.drop_first();
        assert forall|i: int| 0 <= i < n - 1 implies (#[trigger] rest[i]).0.is_favorite by {
            assert(pairs[i + 1].0.is_favorite);
        }
        lemma_leading_favorites(rest, n - 1);
    }
}

/// Moving a row up past rows that were used earlier changes no group of rows
/// that were used at the same time.
proof fn lemma_move_up<S>(
    before: Seq<(ClipboardItem, S)>,
    after: Seq<(ClipboardItem, S)>,
    from: int,
    to: int,
    time: i64,
)
    requires
        0 <= to <= from < before.len(),
        after == before.remove(from).insert(to, before[from]),
        forall|k: int|
            to <= k < from ==> (#[trigger] before[k]).0.updated_at < before[from].0.updated_at,
    ensures
        after.filter(used_at(time)) == before.filter(used_at(time)),
{
    let keep = used_at::<S>(time);
    let a = before.take(to);
    let m = before.subrange(to, from);
    let x = seq![before[from]];
    let b = before.skip(from + 1);
    assert(before =~= a + m + x + b);
    assert(after =~= a + x + m + b);
    Seq::filter_distributes_over_add(a + m + x, b, keep);
    Seq::filter_distributes_over_add(a + m, x, keep);
    Seq::filter_distributes_over_add(a, m, keep);
    Seq::filter_distributes_over_add(a + x + m, b, keep);
    Seq::filter_distributes_over_add(a + x, m, keep);
    Seq::filter_distributes_over_add(a, x, keep);
    if before[from].0.updated_at == time {
        assert forall|k: int| 0 <= k < m.len() implies !keep(#[trigger] m[k]) by {
            assert(before[to + k].0.updated_at < before[from].0.updated_at);
        }
        lemma_filter_nothing(m, keep);
    } else {
        lemma_filter_nothing(x, keep);
    }
    assert(after.filter(keep) =~= before.filter(keep));
}

/// Puts the rows with the latest use first; rows that were used at the same time
/// keep their order. The rows are expected to be nearly in order.
fn sort_newest_first<S>(pairs: &mut Vec<(ClipboardItem, S)>)
    ensures
        stably_newest_first(old(pairs)@, final(pairs)@),
        final(pairs)@.len() == old(pairs)@.len(),
{
    let mut i: usize = 0;
    while i < pairs.len()
        invariant
            0 <= i <= pairs@.len(),
            pairs@.len() == old(pairs)@.len(),
            newest_first(pairs@.take(i as int)),
            forall|time: i64| #[trigger]
                pairs@.filter(used_at(time)) == old(pairs)@.filter(used_at(time)),
        decreases pairs@.len() - i,
    {
        let ghost start = pairs@;
        let mut to: usize = i;
        while to > 0 && pairs[to - 1].0.updated_at < pairs[i].0.updated_at
            invariant
                0 <= to <= i < pairs@.len(),
                pairs@ == start,
                forall|k: int|
                    to <= k < i ==> (#[trigger] start[k]).0.updated_at
                        < start[i as int].0.updated_at,
            decreases to,
        {
            to -= 1;
        }
        if to < i {
            let pair = pairs.remove(i);
            pairs.insert(to, pair);
            proof {
                assert(pairs@ == start.remove(i as int).insert(to as int, start[i as int]));
                assert forall|time: i64| #[trigger]
                    pairs@.filter(used_at(time)) == old(pairs)@.filter(used_at(time)) by {
                    assert(start.filter(used_at(time)) == old(pairs)@.filter(used_at(time)));
                    lemma_move_up(start, pairs@, i as int, to as int, time);
                }
            }
        }
        proof {
            let sorted = start.take(i as int);
            let now = pairs@.take(i + 1);
            assert forall|a: int, b: int| 0 <= a <= b < now.len() implies (
            #[trigger] now[a]).0.updated_at >= (#[trigger] now[b]).0.updated_at by {
                let from_a = if a < to {
                    a
                } else if a == to {
                    i as int
                } else {
                    a - 1
                };
                let from_b = if b < to {
                    b
                } else if b == to {
                    i as int
                } else {
                    b - 1
                };
                assert(now[a] == start[from_a]);
                assert(now[b] == start[from_b]);
                if a < to && b == to {
                    assert(sorted[a].0.updated_at >= sorted[to - 1].0.updated_at);
                } else if a == to {
                } else if b != to {
                    assert(sorted[from_a].0.updated_at >= sorted[from_b].0.updated_at);
                }
            }
        }
        i += 1;
    }
    assert(pairs@.take(i as int) =~= pairs@);
}

/// Reorders the rows after a use of items. Each row takes its size along, so
/// that sizes stay with their items.
pub fn reorder_usage_pairs<S>(
    pairs: &mut Vec<(ClipboardItem, S)>,
    sort_by_created: bool,
    favorites_first: bool,
)
    ensures
        is_usage_order(old(pairs)@, final(pairs)@, sort_by_created, favorites_first),
        final(pairs)@.len() == old(pairs)@.len(),
{
    if sort_by_created {
        return;
    }
    if favorites_first {
        let mut split: usize = 0;
        while split < pairs.len() && pairs[split].0.is_favorite
            invariant
                0 <= split <= pairs@.len(),
                pairs@ == old(pairs)@,
                forall|i: int| 0 <= i < split ==> (#[trigger] pairs@[i]).0.is_favorite,
            decreases pairs@.len() - split,
        {
            split += 1;
        }
        proof {
            lemma_leading_favorites(pairs@, split as int);
        }
        let mut others = pairs.split_off(split);
        assert(pairs@ =~= old(pairs)@.take(split as int));
        assert(others@ =~= old(pairs)@.skip(split as int));
        sort_newest_first(pairs);
        sort_newest_first(&mut others);
        let ghost first = pairs@;
        let ghost second = others@;
        pairs.append(&mut others);
        assert(pairs@.take(split as int) =~= first);
        assert(pairs@.skip(split as int) =~= second);
    } else {
        sort_newest_first(pairs);
    }
}

/// The rows that a filter keeps are as many as occur in the list.
proof fn lemma_filter_count<S>(pairs: Seq<(ClipboardItem, S)>, x: (ClipboardItem, S))
    ensures
        pairs.to_multiset().count(x) == pairs.filter(
            used_at(x.0.updated_at),
        ).to_multiset().count(x),
    decreases pairs.len(),
{
    broadcast use vstd::seq_lib::group_to_multiset_ensures;

    reveal(Seq::filter);
    if pairs.len() > 0 {
        let rest = pairs.drop_last();
        lemma_filter_count(rest, x);
        assert(pairs =~= rest.push(pairs.last()));
        let keep = used_at::<S>(x.0.updated_at);
        if keep(pairs.last()) {
            assert(pairs.filter(keep) == rest.filter(keep).push(pairs.last()));
        }
    }
}

/// Rows with the latest use first are the rows from before, each as often, and
/// each with the size that it had.
pub proof fn law_newest_first_keeps_every_row<S>(
    before: Seq<(ClipboardItem, S)>,
    after: Seq<(ClipboardItem, S)>,
)
    requires
        stably_newest_first(before, after),
    ensures
        after.to_multiset() == before.to_multiset(),
        after.len() == before.len(),
{
    assert forall|x: (ClipboardItem, S)|
        after.to_multiset().count(x) == before.to_multiset().count(x) by {
        lemma_filter_count(before, x);
        lemma_filter_count(after, x);
        assert(after.filter(used_at(x.0.updated_at)) == before.filter(used_at(x.0.updated_at)));
    }
    assert(after.to_multiset() =~= before.to_multiset());
    after.to_multiset_ensures();
    before.to_multiset_ensures();
}

/// A use of items moves rows and does nothing else: every row is still there,
/// as often as before, with the size that it had.
pub proof fn law_usage_reorder_keeps_every_row<S>(
    before: Seq<(ClipboardItem, S)>,
    after: Seq<(ClipboardItem, S)>,
    sort_by_created: bool,
    favorites_first: bool,
)
    requires
        is_usage_order(before, after, sort_by_created, favorites_first),
    ensures
        after.to_multiset() == before.to_multiset(),
        after.len() == before.len(),
{
    if !sort_by_created {
        if favorites_first {
            let split = leading_favorites(before) as int;
            lemma_leading_favorites_bound(before);
            law_newest_first_keeps_every_row(before.take(split), after.take(split));
            law_newest_first_keeps_every_row(before.skip(split), after.skip(split));
            assert(before =~= before.take(split) + before.skip(split));
            assert(after =~= after.take(split) + after.skip(split));
            vstd::seq_lib::lemma_multiset_commutative(before.take(split), before.skip(split));
            vstd::seq_lib::lemma_multiset_commutative(after.take(split), after.skip(split));
        } else {
            law_newest_first_keeps_every_row(before, after);
        }
    }
}

/// A list starts with no more favorites than it has rows.
proof fn lemma_leading_favorites_bound<S>(pairs: Seq<(ClipboardItem, S)>)
    ensures
        leading_favorites(pairs) <= pairs.len(),
    decreases pairs.len(),
{
    if pairs.len() > 0 && pairs[0].0.is_favorite {
        lemma_leading_favorites_bound(pairs.drop_first());
    }
}

/// What a use of items makes of a list is determined: there is one such list.
pub proof fn law_newest_first_is_unique<S>(
    before: Seq<(ClipboardItem, S)>,
    a: Seq<(ClipboardItem, S)>,
    b: Seq<(ClipboardItem, S)>,
)
    requires
        stably_newest_first(before, a),
        stably_newest_first(before, b),
    ensures
        a == b,
{
    lemma_same_groups_same_list(a, b);
}

/// Two lists with the latest use first that agree on every group are equal.
proof fn lemma_same_groups_same_list<S>(a: Seq<(ClipboardItem, S)>, b: Seq<(ClipboardItem, S)>)
    requires
        newest_first(a),
        newest_first(b),
        forall|time: i64| #[trigger] a.filter(used_at(time)) == b.filter(used_at(time)),
    ensures
        a == b,
    decreases a.len(),
{
    if a.len() == 0 {
        if b.len() > 0 {
            lemma_head_in_group(b);
            assert(a.filter(used_at(b[0].0.updated_at)) == b.filter(used_at(b[0].0.updated_at)));
            lemma_filter_nothing(a, used_at(b[0].0.updated_at));
        }
        assert(a =~= b);
    } else {
        lemma_head_in_group(a);
        let t = a[0].0.updated_at;
        assert(a.filter(used_at(t)) == b.filter(used_at(t)));
        assert(b.len() > 0) by {
            if b.len() == 0 {
                lemma_filter_nothing(b, used_at(t));
            }
        }
        lemma_head_in_group(b);
        let u = b[0].0.updated_at;
        assert(a.filter(used_at(u)) == b.filter(used_at(u)));
        lemma_group_bound(a, u);
        lemma_group_bound(b, t);
        assert(t == u);
        assert(a[0] == b[0]);
        let rest_a = a.drop_first();
        let rest_b = b.drop_first();
        assert forall|time: i64| #[trigger]
            rest_a.filter(used_at(time)) == rest_b.filter(used_at(time)) by {
            lemma_group_of_rest(a, time);
            lemma_group_of_rest(b, time);
            assert(a.filter(used_at(time)) == b.filter(used_at(time)));
        }
        assert forall|i: int, j: int| 0 <= i <= j < rest_a.len() implies (
        #[trigger] rest_a[i]).0.updated_at >= (#[trigger] rest_a[j]).0.updated_at by {
            assert(a[i + 1].0.updated_at >= a[j + 1].0.updated_at);
        }
        assert forall|i: int, j: int| 0 <= i <= j < rest_b.len() implies (
        #[trigger] rest_b[i]).0.updated_at >= (#[trigger] rest_b[j]).0.updated_at by {
            assert(b[i + 1].0.updated_at >= b[j + 1].0.updated_at);
        }
        lemma_same_groups_same_list(rest_a, rest_b);
        assert(a =~= seq![a[0]] + rest_a);
        assert(b =~= seq![b[0]] + rest_b);
    }
}

/// The first row of a list is the first of its group.
proof fn lemma_head_in_group<S>(s: Seq<(ClipboardItem, S)>)
    requires
        s.len() > 0,
    ensures
        s.filter(used_at(s[0].0.updated_at)).len() > 0,
        s.filter(used_at(s[0].0.updated_at))[0] == s[0],
{
    lemma_group_of_rest(s, s[0].0.updated_at);
}

/// The group of a list is the group of its rest, behind its first row where that
/// belongs to it.
proof fn lemma_group_of_rest<S>(s: Seq<(ClipboardItem, S)>, time: i64)
    requires
        s.len() > 0,
    ensures
        s.filter(used_at(time)) == if s[0].0.updated_at == time {
            seq![s[0]] + s.drop_first().filter(used_at(time))
        } else {
            s.drop_first().filter(used_at(time))
        },
        s[0].0.updated_at == time ==> s.drop_first().filter(used_at(time)) == s.filter(
            used_at(time),
        ).drop_first(),
{
    let head = seq![s[0]];
    assert(s =~= head + s.drop_first());
    Seq::filter_distributes_over_add(head, s.drop_first(), used_at(time));
    if s[0].0.updated_at == time {
        reveal(Seq::filter);
        assert(head.drop_last() =~= Seq::<(ClipboardItem, S)>::empty());
        assert(head.filter(used_at(time)) =~= head);
        assert((head + s.drop_first().filter(used_at(time))).drop_first()
            =~= s.drop_first().filter(used_at(time)));
    } else {
        lemma_filter_nothing(head, used_at(time));
        assert(Seq::<(ClipboardItem, S)>::empty() + s.drop_first().filter(used_at(time))
            =~= s.drop_first().filter(used_at(time)));
    }
}

/// A group that is not empty was used no later than the first row.
proof fn lemma_group_bound<S>(s: Seq<(ClipboardItem, S)>, time: i64)
    requires
        newest_first(s),
        s.len() > 0,
        s.filter(used_at(time)).len() > 0,
    ensures
        time <= s[0].0.updated_at,
{
    if time > s[0].0.updated_at {
        assert forall|i: int| 0 <= i < s.len() implies !(used_at::<S>(time))(#[trigger] s[i]) by {
            assert(s[0].0.updated_at >= s[i].0.updated_at);
        }
        lemma_filter_nothing(s, used_at(time));
    }
}

} // verus!
