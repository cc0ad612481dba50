//! The rows of the list: items together with the sizes of their cards.

use vstd::prelude::*;

use crate::ids::contains_id;
use crate::items::{item_index, row_of};
use crate::types::ClipboardItem;

verus! {

/// Whether a card size can be estimated for every item.
pub open spec fn estimates<S, F: Fn(&ClipboardItem, &String) -> S>(estimate: F) -> bool {
    forall|item: &ClipboardItem, mode: &String| #[trigger] call_requires(estimate, (item, mode))
}

/// Whether every item has the size that is estimated for its card.
pub open spec fn sized<S, F: Fn(&ClipboardItem, &String) -> S>(
    sizes: Seq<S>,
    items: Seq<ClipboardItem>,
    mode: String,
    estimate: F,
) -> bool {
    &&& sizes.len() == items.len()
    &&& forall|i: int|
        0 <= i < items.len() ==> call_ensures(estimate, (&items[i], &mode), #[trigger] sizes[i])
}

/// Estimates the size of every item's card.
pub fn compute_sizes<S, F: Fn(&ClipboardItem, &String) -> S>(
    items: &[ClipboardItem],
    mode: &String,
    estimate: &F,
) -> (r: Vec<S>)
    requires
        estimates(*estimate),
    ensures
        sized(r@, items@, *mode, *estimate),
{
    let mut r: Vec<S> = Vec::new();
    let mut i: usize = 0;
    while i < items.len()
        invariant
            0 <= i <= items.len(),
            estimates(*estimate),
            r@.len() == i,
            forall|j: int|
                0 <= j < i ==> call_ensures(*estimate, (&items@[j], mode), #[trigger] r@[j]),
        decreases items.len() - i,
    {
        assert(call_requires(*estimate, (&items@[i as int], mode)));
        r.push(estimate(&items[i], mode));
        i += 1;
    }
    r
}

/// The items, each with its size.
pub open spec fn rows<S>(items: Seq<ClipboardItem>, sizes: Seq<S>) -> Seq<(ClipboardItem, S)> {
    Seq::new(items.len(), |i: int| (items[i], sizes[i]))
}

/// The same elements in opposite order.
fn reversed<T>(list: Vec<T>) -> (r: Vec<T>)
    ensures
        r@ == list@.reverse(),
{
    let ghost all = list@;
    let mut rest = list;
    let mut r: Vec<T> = Vec::new();
    while rest.len() > 0
        invariant
            rest@.len() + r@.len() == all.len(),
            rest@ == all.take(rest@.len() as int),
            forall|k: int| 0 <= k < r@.len() ==> #[trigger] r@[k] == all[all.len() - 1 - k],
        decreases rest.len(),
    {
        let ghost n = rest@.len() as int;
        if let Some(x) = rest.pop() {
            r.push(x);
            assert(rest@ =~= all.take(n - 1));
        }
    }
    assert(r@ =~= all.reverse());
    r
}

/// Puts each item together with its size.
pub fn join_rows<S>(items: Vec<ClipboardItem>, sizes: Vec<S>) -> (r: Vec<(ClipboardItem, S)>)
    requires
        items@.len() == sizes@.len(),
    ensures
        r@ == rows(items@, sizes@),
{
    let ghost n = items@.len();
    let ghost given = items@;
    let mut left = reversed(items);
    let mut right = reversed(sizes);
    let mut r: Vec<(ClipboardItem, S)> = Vec::new();
    while left.len() > 0
        invariant
            n == given.len() == sizes@.len(),
            left@.len() == right@.len() == n - r@.len(),
            forall|k: int| 0 <= k < left@.len() ==> #[trigger] left@[k] == given[n - 1 - k],
            forall|k: int| 0 <= k < right@.len() ==> #[trigger] right@[k] == sizes@[n - 1 - k],
            forall|k: int| 0 <= k < r@.len() ==> #[trigger] r@[k] == (given[k], sizes@[k]),
        decreases left.len(),
    {
        if let Some(item) = left.pop() {
            if let Some(size) = right.pop() {
                r.push((item, size));
            }
        }
    }
    assert(r@ =~= rows(given, sizes@));
    r
}

/// Takes rows apart into items and sizes.
pub fn split_rows<S>(pairs: Vec<(ClipboardItem, S)>) -> (r: (Vec<ClipboardItem>, Vec<S>))
    ensures
        r.0@.len() == r.1@.len() == pairs@.len(),
        rows(r.0@, r.1@) == pairs@,
{
    let ghost n = pairs@.len();
    let ghost given = pairs@;
    let mut rest = reversed(pairs);
    let mut items: Vec<ClipboardItem> = Vec::new();
    let mut sizes: Vec<S> = Vec::new();
    while rest.len() > 0
        invariant
            n == given.len(),
            items@.len() == sizes@.len() == n - rest@.len(),
            forall|k: int| 0 <= k < rest@.len() ==> #[trigger] rest@[k] == given[n - 1 - k],
            forall|k: int|
                0 <= k < items@.len() ==> (#[trigger] items@[k], #[trigger] sizes@[k]) == given[k],
        decreases rest.len(),
    {
        if let Some((item, size)) = rest.pop() {
            items.push(item);
            sizes.push(size);
        }
    }
    assert(rows(items@, sizes@) =~= given);
    (items, sizes)
}

/// The item with its time of use as the application knows it, where it is one of
/// the used items.
pub open spec fn refreshed_item(
    item: ClipboardItem,
    app_items: Seq<ClipboardItem>,
    touched: Seq<i64>,
) -> ClipboardItem {
    match row_of(app_items, Some(item.id)) {
        Some(i) => if touched.contains(item.id) {
            ClipboardItem { updated_at: app_items[i].updated_at, ..item }
        } else {
            item
        },
        None => item,
    }
}

/// The items with the used ones' times of use as the application knows them.
pub open spec fn refreshed(
    items: Seq<ClipboardItem>,
    app_items: Seq<ClipboardItem>,
    touched: Seq<i64>,
) -> Seq<ClipboardItem> {
    Seq::new(items.len(), |i: int| refreshed_item(items[i], app_items, touched))
}

/// Brings the used items' times of use up to date.
pub fn refresh_usage(
    items: &mut Vec<ClipboardItem>,
    app_items: &[ClipboardItem],
    touched: &[i64],
)
    ensures
        final(items)@ == refreshed(old(items)@, app_items@, touched@),
{
    let n = items.len();
    let mut i: usize = 0;
    while i < n
        invariant
            0 <= i <= n,
            n == items@.len() == old(items)@.len(),
            forall|k: int|
                0 <= k < i ==> #[trigger] items@[k] == refreshed_item(
                    old(items)@[k],
                    app_items@,
                    touched@,
                ),
            forall|k: int| i <= k < n ==> #[trigger] items@[k] == old(items)@[k],
        decreases n - i,
    {
        let id = items[i].id;
        if contains_id(touched, id) {
            if let Some(k) = item_index(app_items, Some(id)) {
                items[i].updated_at = app_items[k].updated_at;
            }
        }
        i += 1;
    }
    assert(items@ =~= refreshed(old(items)@, app_items@, touched@));
}

} // verus!
