//! What the operations on the selection of the clipboard list are for.

use vstd::prelude::*;

use crate::app_state::{AppModel, Op, RequestModel, ScrollStrategy};
use crate::clipboard_list::{
    is_next_row, is_previous_row, lesser, next_row, previous_row, ListModel, ListWorld,
};
use crate::filters::{lemma_filter_start, lemma_filter_step};
use crate::items::{
    id_at, is_pending, is_transfer_entry, latest_row, lemma_found_row, lemma_latest_row,
    lemma_some_row, row_of, selectable, selectable_ids, stands_for, with_id,
};
use crate::types::{ClipboardItem, PendingImageView};

verus! {

/// A request that is about nothing but its piece of work.
pub open spec fn bare(op: Op) -> RequestModel {
    RequestModel { op, ids: Seq::empty(), names: Seq::empty() }
}

/// Whether one state of the application differs from another only by requests
/// that were added, these ones in this order.
pub open spec fn adds(before: AppModel, after: AppModel, requests: Seq<RequestModel>) -> bool {
    &&& after.requests == before.requests + requests
    &&& after == (AppModel { requests: after.requests, ..before })
}

/// Whether one state of the application differs from another only by what is
/// selected and by requests that were added.
pub open spec fn adds_and_selects(
    before: AppModel,
    after: AppModel,
    ids: Seq<i64>,
    requests: Seq<RequestModel>,
) -> bool {
    &&& after.requests == before.requests + requests
    &&& after.selected_ids == ids
    &&& after == (AppModel { requests: after.requests, selected_ids: ids, ..before })
}

/// Whether one list differs from another only in what is selected.
pub open spec fn only_reselected<S>(before: ListModel<S>, after: ListModel<S>) -> bool {
    after == (ListModel {
        selected_ids: after.selected_ids,
        selected_count: after.selected_count,
        selected_index: after.selected_index,
        anchor_index: after.anchor_index,
        modified_double_click_candidate: after.modified_double_click_candidate,
        ..before
    })
}

/// Whether a list has one item selected, in this row, which is the active and
/// the anchor row.
pub open spec fn has_selected<S>(list: ListModel<S>, i: int) -> bool {
    &&& 0 <= i < list.items.len()
    &&& list.selected_ids == seq![list.items[i].id]
    &&& list.selected_count == 1
    &&& list.selected_index == Some(i)
    &&& list.anchor_index == Some(i)
}

/// Whether a row of the list is no placeholder.
pub open spec fn is_real(items: Seq<ClipboardItem>, i: int) -> bool {
    0 <= i < items.len() && items[i].meta_type@ != "pending-image"@
}

/// Requests added one by one are added at the end.
pub proof fn lemma_added(s: Seq<RequestModel>)
    ensures
        s + Seq::<RequestModel>::empty() == s,
        forall|a: RequestModel| #[trigger] s.push(a) == s + seq![a],
        forall|a: RequestModel, b: RequestModel| #[trigger]
            s.push(a).push(b) == s + seq![a, b],
        forall|a: RequestModel, b: RequestModel, c: RequestModel| #[trigger]
            s.push(a).push(b).push(c) == s + seq![a, b, c],
{
    assert(s + Seq::<RequestModel>::empty() =~= s);
    assert forall|a: RequestModel| #[trigger] s.push(a) == s + seq![a] by {
        assert(s.push(a) =~= s + seq![a]);
    }
    assert forall|a: RequestModel, b: RequestModel| #[trigger] s.push(a).push(b) == s + seq![
        a,
        b,
    ] by {
        assert(s.push(a).push(b) =~= s + seq![a, b]);
    }
    assert forall|a: RequestModel, b: RequestModel, c: RequestModel| #[trigger]
        s.push(a).push(b).push(c) == s + seq![a, b, c] by {
        assert(s.push(a).push(b).push(c) =~= s + seq![a, b, c]);
    }
}

/// A placeholder is told by its mark alone. An entry of the transfer station is
/// none, though its id is negative too, and what stands for a pending image is
/// one.
pub proof fn law_placeholders_are_told_by_their_mark(
    item: ClipboardItem,
    pending: PendingImageView,
    index: int,
)
    ensures
        is_pending(item) <==> item.meta_type@ == "pending-image"@,
        is_transfer_entry(item) ==> item.id < 0 && item.meta_type@ == "transfer"@ && !is_pending(
            item,
        ),
        item.id < 0 && item.meta_type@ == "transfer"@ ==> is_transfer_entry(item),
        index >= 0 && stands_for(item, pending, index) ==> is_pending(item) && item.id < -1,
{
    reveal_strlit("pending-image");
    reveal_strlit("transfer");
    assert("pending-image"@.len() != "transfer"@.len());
}

/// The row that an item is found in is the first one that holds it, and nothing
/// is found exactly if no row holds it.
pub proof fn law_items_are_found_in_their_first_row(items: Seq<ClipboardItem>, id: i64)
    ensures
        match row_of(items, Some(id)) {
            Some(i) => {
                &&& 0 <= i < items.len()
                &&& items[i].id == id
                &&& forall|j: int| 0 <= j < i ==> (#[trigger] items[j]).id != id
            },
            None => forall|j: int| 0 <= j < items.len() ==> (#[trigger] items[j]).id != id,
        },
        row_of(items, None) is None,
        forall|i: int| 0 <= i < items.len() ==> id_at(items, Some(i)) == Some(
            (#[trigger] items[i]).id,
        ),
        id_at(items, Some(items.len() as int)) is None,
        id_at(items, None) is None,
{
    lemma_found_row(items, with_id(id));
    assert forall|j: int| 0 <= j < items.len() && (#[trigger] items[j]).id == id implies row_of(
        items,
        Some(id),
    ) is Some by {
        lemma_some_row(items, with_id(id), j);
    }
}

/// The latest row holds the item that was used last of those that count, and of
/// several the last.
pub proof fn law_latest_row_was_used_last(
    items: Seq<ClipboardItem>,
    wanted: spec_fn(ClipboardItem) -> bool,
)
    ensures
        ({
            let i = latest_row(items, wanted);
            (exists|k: int| 0 <= k < items.len() && wanted(#[trigger] items[k])) ==> {
                &&& 0 <= i < items.len()
                &&& wanted(items[i])
                &&& forall|j: int|
                    0 <= j < items.len() && wanted(#[trigger] items[j]) ==> items[j].updated_at
                        < items[i].updated_at || (items[j].updated_at == items[i].updated_at && j
                        <= i)
            }
        }),
        (forall|k: int| 0 <= k < items.len() ==> !wanted(#[trigger] items[k])) ==> latest_row(
            items,
            wanted,
        ) == 0,
{
    if exists|k: int| 0 <= k < items.len() && wanted(#[trigger] items[k]) {
        let k = choose|k: int| 0 <= k < items.len() && wanted(#[trigger] items[k]);
        let i = lemma_latest_of_prefix(items, wanted, items.len() as int, k);
        lemma_latest_row(items, wanted, i);
    }
}

/// Of the first rows, of which one counts, one was used last.
proof fn lemma_latest_of_prefix(
    items: Seq<ClipboardItem>,
    wanted: spec_fn(ClipboardItem) -> bool,
    n: int,
    k: int,
) -> (i: int)
    requires
        0 <= k < n <= items.len(),
        wanted(items[k]),
    ensures
        0 <= i < n,
        wanted(items[i]),
        forall|j: int|
            0 <= j < n && wanted(#[trigger] items[j]) ==> {
                &&& items[j].updated_at <= items[i].updated_at
                &&& j > i ==> items[j].updated_at < items[i].updated_at
            },
    decreases n,
{
    if exists|m: int| 0 <= m < n - 1 && wanted(#[trigger] items[m]) {
        let m = choose|m: int| 0 <= m < n - 1 && wanted(#[trigger] items[m]);
        let best = lemma_latest_of_prefix(items, wanted, n - 1, m);
        if wanted(items[n - 1]) && items[best].updated_at <= items[n - 1].updated_at {
            n - 1
        } else {
            best
        }
    } else {
        n - 1
    }
}

/// Whether `ids` are those of `rows`, which are the rows from `lo` up to `hi`
/// that are no placeholders, from the top down.
pub open spec fn lists_rows(
    items: Seq<ClipboardItem>,
    lo: int,
    hi: int,
    ids: Seq<i64>,
    rows: Seq<int>,
) -> bool {
    &&& ids.len() == rows.len()
    &&& forall|k: int|
        0 <= k < rows.len() ==> lo <= #[trigger] rows[k] < hi && is_real(items, rows[k]) && ids[k]
            == items[rows[k]].id
    &&& forall|j: int, k: int| 0 <= j < k < rows.len() ==> rows[j] < rows[k]
    &&& forall|i: int| lo <= i < hi && is_real(items, i) ==> #[trigger] rows.contains(i)
}

/// The ids that can be selected are those of the rows that are no placeholders,
/// each once for its row, from the top down.
pub proof fn law_selectable_ids_are_those_of_real_rows(items: Seq<ClipboardItem>) -> (rows: Seq<
    int,
>)
    ensures
        lists_rows(items, 0, items.len() as int, selectable_ids(items), rows),
    decreases items.len(),
{
    lemma_filter_start(items, selectable());
    if items.len() == 0 {
        assert(items =~= items.take(0));
        assert(selectable_ids(items) =~= Seq::<i64>::empty());
        Seq::empty()
    } else {
        let n = items.len() - 1;
        let rest = items.take(n);
        let before = law_selectable_ids_are_those_of_real_rows(rest);
        lemma_filter_step(items, selectable(), n);
        assert(items.take(n + 1) =~= items);
        let ids = selectable_ids(items);
        let rows = if is_pending(items[n]) {
            before
        } else {
            before.push(n)
        };
        if is_pending(items[n]) {
            assert(ids =~= selectable_ids(rest));
        } else {
            assert(ids =~= selectable_ids(rest).push(items[n].id));
        }
        assert forall|i: int| 0 <= i < items.len() && is_real(items, i) implies #[trigger]
            rows.contains(i) by {
            if i < n {
                assert(is_real(rest, i));
                assert(before.contains(i));
                let k = before.index_of(i);
                assert(rows[k] == i);
            } else {
                assert(rows[before.len() as int] == n);
            }
        }
        assert forall|k: int| 0 <= k < rows.len() implies 0 <= #[trigger] rows[k] < items.len()
            && is_real(items, rows[k]) && ids[k] == items[rows[k]].id by {
            if k < before.len() {
                assert(rows[k] == before[k]);
                assert(is_real(rest, before[k]));
            }
        }
        rows
    }
}

/// A row that is no placeholder becomes the only selected one, active and
/// anchored, for the list and for the application; any other row changes nothing.
pub proof fn law_selecting_a_row_selects_it_alone<S>(
    w: ListWorld<S>,
    index: int,
    strategy: ScrollStrategy,
)
    ensures
        ({
            let after = w.select(index);
            let shown = w.select_in_view(index, strategy);
            if is_real(w.list.items, index) {
                &&& has_selected(after.list, index)
                &&& after.list.modified_double_click_candidate is None
                &&& only_reselected(w.list, after.list)
                &&& adds_and_selects(
                    w.app,
                    after.app,
                    seq![w.list.items[index].id],
                    Seq::empty(),
                )
                &&& shown.list == after.list
                &&& adds_and_selects(
                    w.app,
                    shown.app,
                    seq![w.list.items[index].id],
                    seq![bare(Op::ScrollTo { index: index as usize, strategy })],
                )
            } else {
                &&& after == w
                &&& shown == w
            }
        }),
{
    lemma_added(w.app.requests);
}

/// A row that was not selected is added at the end of the selection and becomes
/// active and anchored. One that was selected is taken out, the others stay in
/// their order, and where it was active or anchored, the first of them is that
/// now. The last selected item stays selected. Placeholders change nothing.
pub proof fn law_toggling_a_row_adds_it_or_takes_it_out<S>(w: ListWorld<S>, index: int)
    ensures
        ({
            let before = w.list.selected_ids;
            let after = w.toggle(index);
            let ids = after.list.selected_ids;
            let id = w.list.items[index].id;
            &&& only_reselected(w.list, after.list)
            &&& after.list.modified_double_click_candidate is None
            &&& after.app.requests == w.app.requests
            &&& !is_real(w.list.items, index) || (before.contains(id) && before.len() <= 1) ==> {
                &&& ids == before
                &&& after.list.selected_count == w.list.selected_count
                &&& after.list.selected_index == w.list.selected_index
                &&& after.list.anchor_index == w.list.anchor_index
                &&& after.app == w.app
            }
            &&& is_real(w.list.items, index) && !before.contains(id) ==> {
                &&& ids == before + seq![id]
                &&& after.list.selected_count == ids.len()
                &&& after.list.selected_index == Some(index)
                &&& after.list.anchor_index == Some(index)
                &&& adds_and_selects(w.app, after.app, ids, Seq::empty())
            }
            &&& is_real(w.list.items, index) && before.contains(id) && before.len() > 1 ==> {
                &&& exists|k: int|
                    0 <= k < before.len() && #[trigger] before[k] == id && ids
                        == before.subrange(0, k) + before.subrange(k + 1, before.len() as int)
                &&& after.list.selected_count == ids.len()
                &&& before.no_duplicates() ==> !ids.contains(id)
                &&& adds_and_selects(w.app, after.app, ids, Seq::empty())
                &&& w.list.selected_index == Some(index) ==> after.list.selected_index == row_of(
                    w.list.items,
                    Some(ids[0]),
                )
                &&& w.list.selected_index != Some(index) ==> after.list.selected_index
                    == w.list.selected_index
                &&& w.list.anchor_index == Some(index) ==> after.list.anchor_index == row_of(
                    w.list.items,
                    Some(ids[0]),
                )
                &&& w.list.anchor_index != Some(index) ==> after.list.anchor_index
                    == w.list.anchor_index
            }
        }),
{
    let before = w.list.selected_ids;
    let id = w.list.items[index].id;
    before.index_of_first_ensures(id);
    if is_real(w.list.items, index) && !before.contains(id) {
        assert(before.push(id) =~= before + seq![id]);
        lemma_added(w.app.requests);
    }
    if is_real(w.list.items, index) && before.contains(id) && before.len() > 1 {
        let k = before.index_of_first(id).unwrap();
        assert(before[k] == id);
        assert(before.remove(k) =~= before.subrange(0, k) + before.subrange(
            k + 1,
            before.len() as int,
        ));
        lemma_added(w.app.requests);
        if before.no_duplicates() {
            let ids = before.remove(k);
            assert forall|j: int| 0 <= j < ids.len() implies ids[j] != id by {
                if j < k {
                    assert(ids[j] == before[j]);
                } else {
                    assert(ids[j] == before[j + 1]);
                }
            }
        }
    }
}

/// A range selects exactly the rows from the anchor to the clicked one, both of
/// them too, that are no placeholders: those rows, in the direction from the
/// anchor. The clicked row becomes active and the anchor stays.
pub proof fn law_range_selects_the_rows_between<S>(w: ListWorld<S>, anchor: int, index: int) -> (rows:
    Seq<int>)
    requires
        w.list.anchor_index == Some(anchor),
        anchor >= 0,
        index >= 0,
    ensures
        ({
            let after = w.range_to(index);
            let ids = after.list.selected_ids;
            let lo = if anchor <= index {
                anchor
            } else {
                index
            };
            let hi = if anchor <= index {
                index + 1
            } else {
                anchor + 1
            };
            &&& lists_rows(
                w.list.items,
                lo,
                hi,
                if anchor <= index {
                    ids
                } else {
                    ids.reverse()
                },
                rows,
            )
            &&& forall|id: i64| #[trigger]
                ids.contains(id) <==> exists|i: int|
                    lo <= i < hi && is_real(w.list.items, i) && (#[trigger] w.list.items[i]).id == id
            &&& after.list.selected_count == ids.len()
            &&& after.list.selected_index == Some(index)
            &&& after.list.anchor_index == Some(anchor)
            &&& after.list.modified_double_click_candidate is None
            &&& only_reselected(w.list, after.list)
            &&& adds_and_selects(w.app, after.app, ids, Seq::empty())
        }),
{
    let items = w.list.items;
    let n = items.len() as int;
    let lo = if anchor <= index {
        anchor
    } else {
        index
    };
    let hi = if anchor <= index {
        index + 1
    } else {
        anchor + 1
    };
    let from = lesser(lo, n);
    let part = items.subrange(from, lesser(hi, n));
    let within = law_selectable_ids_are_those_of_real_rows(part);
    let rows = within.map_values(|k: int| k + from);
    let ids = w.range_to(index).list.selected_ids;
    let down = selectable_ids(part);
    assert(ids.reverse().reverse() =~= ids);
    assert(down.reverse().reverse() =~= down);
    assert(ids == (if anchor <= index {
        down
    } else {
        down.reverse()
    }));
    assert forall|k: int| 0 <= k < rows.len() implies lo <= #[trigger] rows[k] < hi && is_real(
        items,
        rows[k],
    ) && down[k] == items[rows[k]].id by {
        assert(rows[k] == within[k] + from);
        assert(is_real(part, within[k]));
    }
    assert forall|j: int, k: int| 0 <= j < k < rows.len() implies rows[j] < rows[k] by {
        assert(within[j] < within[k]);
    }
    assert forall|i: int| lo <= i < hi && is_real(items, i) implies #[trigger] rows.contains(i) by {
        assert(part[i - from] == items[i]);
        assert(is_real(part, i - from));
        assert(within.contains(i - from));
        let k = within.index_of(i - from);
        assert(rows[k] == i);
    }
    assert(lists_rows(items, lo, hi, down, rows));
    assert forall|id: i64| #[trigger] ids.contains(id) <==> exists|i: int|
        lo <= i < hi && is_real(items, i) && (#[trigger] items[i]).id == id by {
        if ids.contains(id) {
            let p = ids.index_of(id);
            let k = if anchor <= index {
                p
            } else {
                down.len() - 1 - p
            };
            assert(down[k] == id);
            assert(items[rows[k]].id == id);
        }
        if exists|i: int| lo <= i < hi && is_real(items, i) && (#[trigger] items[i]).id == id {
            let i = choose|i: int|
                lo <= i < hi && is_real(items, i) && (#[trigger] items[i]).id == id;
            assert(rows.contains(i));
            let k = rows.index_of(i);
            assert(down[k] == id);
            assert(ids[if anchor <= index {
                k
            } else {
                down.len() - 1 - k
            }] == id);
        }
    }
    lemma_added(w.app.requests);
    rows
}

/// Without an anchor a range is the clicked row alone.
pub proof fn law_range_without_anchor_is_one_row<S>(w: ListWorld<S>, index: int)
    requires
        w.list.anchor_index is None,
    ensures
        is_real(w.list.items, index) ==> has_selected(w.range_to(index).list, index),
        is_real(w.list.items, index) ==> w.range_to(index).app.selected_ids
            == seq![w.list.items[index].id],
        !is_real(w.list.items, index) ==> w.range_to(index).list.selected_ids
            == w.list.selected_ids,
        w.range_to(index).app.requests == w.app.requests,
{
}

/// Selecting everything selects every row that is no placeholder, from the top
/// down; the first selected item is active and anchored. Where there is no such
/// row, nothing changes.
pub proof fn law_select_all_selects_every_real_row<S>(w: ListWorld<S>) -> (rows: Seq<int>)
    ensures
        ({
            let after = w.select_all();
            let ids = after.list.selected_ids;
            if exists|i: int| is_real(w.list.items, i) {
                &&& lists_rows(w.list.items, 0, w.list.items.len() as int, ids, rows)
                &&& ids.len() > 0
                &&& after.list.selected_count == ids.len()
                &&& after.list.selected_index == row_of(w.list.items, Some(ids[0]))
                &&& after.list.anchor_index == after.list.selected_index
                &&& after.list.modified_double_click_candidate is None
                &&& only_reselected(w.list, after.list)
                &&& adds_and_selects(w.app, after.app, ids, Seq::empty())
            } else {
                after == w
            }
        }),
{
    let rows = law_selectable_ids_are_those_of_real_rows(w.list.items);
    if exists|i: int| is_real(w.list.items, i) {
        let i = choose|i: int| is_real(w.list.items, i);
        assert(rows.contains(i));
    } else if rows.len() > 0 {
        assert(is_real(w.list.items, rows[0]));
    }
    lemma_added(w.app.requests);
    rows
}

/// The step down leads to the nearest row below the active one that is no
/// placeholder, or to the first of all where no row is active, and shows it.
/// Where there is none, nothing changes.
pub proof fn law_step_down_leads_to_the_nearest_row_below<S>(
    w: ListWorld<S>,
    strategy: ScrollStrategy,
)
    ensures
        ({
            let from = match w.list.selected_index {
                Some(i) => i + 1,
                None => 0,
            };
            let after = w.select_next(strategy);
            if from >= 0 && exists|k: int| from <= k && is_real(w.list.items, k) {
                match after.list.selected_index {
                    Some(j) => {
                        &&& from <= j
                        &&& is_real(w.list.items, j)
                        &&& forall|k: int| from <= k < j ==> !is_real(w.list.items, k)
                        &&& has_selected(after.list, j)
                        &&& only_reselected(w.list, after.list)
                        &&& adds_and_selects(
                            w.app,
                            after.app,
                            seq![w.list.items[j].id],
                            seq![bare(Op::ScrollTo { index: j as usize, strategy })],
                        )
                    },
                    None => false,
                }
            } else {
                from >= 0 ==> after == w
            }
        }),
{
    let items = w.list.items;
    let from = match w.list.selected_index {
        Some(i) => i + 1,
        None => 0,
    };
    lemma_added(w.app.requests);
    if from >= 0 {
        if exists|k: int| from <= k && is_real(items, k) {
            let k = choose|k: int| from <= k && is_real(items, k);
            let j = lemma_nearest_below(items, from, k);
            assert(is_next_row(items, from, j));
        }
        if let Some(j) = next_row(items, from) {
            assert(is_next_row(items, from, j));
            assert(is_real(items, j));
            assert forall|k: int| from <= k < j implies !is_real(items, k) by {
                assert(is_pending(items[k]));
            }
        }
    }
}

/// Where a row is no placeholder, one at or below `from` is the nearest.
proof fn lemma_nearest_below(items: Seq<ClipboardItem>, from: int, k: int) -> (j: int)
    requires
        0 <= from <= k,
        is_real(items, k),
    ensures
        is_next_row(items, from, j),
    decreases k - from,
{
    if is_next_row(items, from, k) {
        k
    } else {
        let m = choose|m: int| from <= m < k && !is_pending(#[trigger] items[m]);
        lemma_nearest_below(items, from, m)
    }
}

/// The step up leads to the nearest row above the active one that is no
/// placeholder and shows it; from the first row it leads to that row itself.
/// Where there is none, or no row is active, nothing changes.
pub proof fn law_step_up_leads_to_the_nearest_row_above<S>(
    w: ListWorld<S>,
    active: int,
    strategy: ScrollStrategy,
)
    requires
        w.list.selected_index matches Some(i) ==> i == active && i >= 0,
    ensures
        w.list.selected_index is None ==> w.select_previous(strategy) == w,
        w.list.selected_index is Some ==> ({
            let upto = if active > 0 {
                active - 1
            } else {
                0
            };
            let after = w.select_previous(strategy);
            if exists|k: int| k <= upto && is_real(w.list.items, k) {
                match after.list.selected_index {
                    Some(j) => {
                        &&& j <= upto
                        &&& is_real(w.list.items, j)
                        &&& forall|k: int| j < k <= upto ==> !is_real(w.list.items, k)
                        &&& has_selected(after.list, j)
                        &&& only_reselected(w.list, after.list)
                        &&& adds_and_selects(
                            w.app,
                            after.app,
                            seq![w.list.items[j].id],
                            seq![bare(Op::ScrollTo { index: j as usize, strategy })],
                        )
                    },
                    None => false,
                }
            } else {
                after == w
            }
        }),
{
    let items = w.list.items;
    lemma_added(w.app.requests);
    if w.list.selected_index is Some {
        let upto = if active > 0 {
            active - 1
        } else {
            0
        };
        if exists|k: int| k <= upto && is_real(items, k) {
            let k = choose|k: int| k <= upto && is_real(items, k);
            let j = lemma_nearest_above(items, upto, k);
            assert(is_previous_row(items, upto, j));
        }
        if let Some(j) = previous_row(items, upto) {
            assert(is_previous_row(items, upto, j));
            assert(is_real(items, j));
            assert forall|k: int| j < k <= upto implies !is_real(items, k) by {
                if k < items.len() {
                    assert(is_pending(items[k]));
                }
            }
        }
    }
}

/// Where a row is no placeholder, one at or above `upto` is the nearest.
proof fn lemma_nearest_above(items: Seq<ClipboardItem>, upto: int, k: int) -> (j: int)
    requires
        k <= upto,
        is_real(items, k),
    ensures
        is_previous_row(items, upto, j),
    decreases upto - k,
{
    if is_previous_row(items, upto, k) {
        k
    } else {
        let m = choose|m: int|
            k < m <= upto && m < items.len() && !is_pending(#[trigger] items[m]);
        lemma_nearest_above(items, upto, m)
    }
}

/// A selection of several items is reduced to the one that was selected first,
/// which becomes active and anchored; anything else is left alone.
pub proof fn law_reducing_keeps_the_first_item<S>(w: ListWorld<S>)
    requires
        w.list.wf(),
    ensures
        ({
            let ids = w.list.selected_ids;
            let after = w.reduce();
            if ids.len() > 1 && (exists|i: int|
                0 <= i < w.list.items.len() && (#[trigger] w.list.items[i]).id == ids[0]) {
                &&& w.reduces()
                &&& after.list.selected_ids == seq![ids[0]]
                &&& after.list.selected_count == 1
                &&& after.list.selected_index == row_of(w.list.items, Some(ids[0]))
                &&& after.list.anchor_index == after.list.selected_index
                &&& after.list.modified_double_click_candidate is None
                &&& only_reselected(w.list, after.list)
                &&& adds_and_selects(w.app, after.app, seq![ids[0]], Seq::empty())
            } else {
                &&& !w.reduces()
                &&& after == w
            }
        }),
{
    let ids = w.list.selected_ids;
    if ids.len() > 1 {
        law_items_are_found_in_their_first_row(w.list.items, ids[0]);
    }
    lemma_added(w.app.requests);
}

/// An item that is edited in place becomes the only selected one, active,
/// anchored and hovered; one that is not in the list changes nothing.
pub proof fn law_locking_selects_and_hovers_the_item<S>(w: ListWorld<S>, id: i64)
    ensures
        ({
            let after = w.lock(id);
            match row_of(w.list.items, Some(id)) {
                Some(i) => {
                    &&& has_selected(after.list, i)
                    &&& after.list.selected_ids == seq![id]
                    &&& after.list.hovered_index == Some(i)
                    &&& after.list.modified_double_click_candidate is None
                    &&& only_reselected(
                        ListModel { hovered_index: Some(i), ..w.list },
                        after.list,
                    )
                    &&& adds_and_selects(w.app, after.app, seq![id], Seq::empty())
                },
                None => after == w,
            }
        }),
{
    law_items_are_found_in_their_first_row(w.list.items, id);
    lemma_added(w.app.requests);
}

} // verus!
