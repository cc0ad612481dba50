//! What bringing the clipboard list up to date is for.

use vstd::prelude::*;

use crate::app_state::{AppModel, Op, RequestModel, ScrollStrategy};
use crate::clipboard_list::{world, ListModel, ListWorld};
use crate::filters::lemma_filter_member;
use crate::items::{
    any_item, first_row, id_at, ids_of, is_combined, is_pending, latest_row, lemma_first_row,
    lemma_found_row, lemma_selectable_ids, outside_station, row_of, selectable, selectable_with_id,
    stands_for,
};
use crate::list_sync::available;
use crate::rows::{refreshed, rows};
use crate::selection_laws::{
    adds, adds_and_selects, bare, has_selected, is_real, law_items_are_found_in_their_first_row,
    law_latest_row_was_used_last, lemma_added, only_reselected,
};
use crate::types::{ClipboardItem, ContentType, PendingImageView};
use crate::usage_order::{
    is_usage_order, law_newest_first_keeps_every_row, law_usage_reorder_keeps_every_row,
    leading_favorites, lemma_leading_favorites, stably_newest_first, used_at,
};

verus! {

/// Whether a row was used last of all, and of several that were, is the last.
pub open spec fn used_last(items: Seq<ClipboardItem>, i: int) -> bool {
    &&& 0 <= i < items.len()
    &&& forall|j: int|
        0 <= j < items.len() ==> (#[trigger] items[j]).updated_at < items[i].updated_at || (
        items[j].updated_at == items[i].updated_at && j <= i)
}

/// Whether a row was used last of those that are no placeholders, and of several
/// that were, is the last.
pub open spec fn used_last_of_real(items: Seq<ClipboardItem>, i: int) -> bool {
    &&& is_real(items, i)
    &&& forall|j: int|
        0 <= j < items.len() && (#[trigger] items[j]).meta_type@ != "pending-image"@
            ==> items[j].updated_at < items[i].updated_at || (items[j].updated_at
            == items[i].updated_at && j <= i)
}

/// Whether a row is the first that is no placeholder.
pub open spec fn first_real(items: Seq<ClipboardItem>, i: int) -> bool {
    &&& is_real(items, i)
    &&& forall|j: int| 0 <= j < i ==> (#[trigger] items[j]).meta_type@ == "pending-image"@
}

/// Whether `after` is a list with these rows instead of those of `before`, with
/// the pending images of the application.
pub open spec fn holds_rows<S>(
    before: ListModel<S>,
    after: ListModel<S>,
    items: Seq<ClipboardItem>,
    sizes: Seq<S>,
    pending: Seq<PendingImageView>,
) -> bool {
    after == (ListModel {
        items,
        item_sizes: sizes,
        pending_images: pending,
        selected_ids: after.selected_ids,
        selected_count: after.selected_count,
        selected_index: after.selected_index,
        anchor_index: after.anchor_index,
        hovered_index: after.hovered_index,
        modified_double_click_candidate: after.modified_double_click_candidate,
        last_selected_id: after.last_selected_id,
        ..before
    })
}

/// Whether the application forgot the news of used items and differs otherwise
/// only by what is selected and by requests that were added.
pub open spec fn took_usage(
    before: AppModel,
    after: AppModel,
    ids: Seq<i64>,
    requests: Seq<RequestModel>,
) -> bool {
    adds_and_selects(
        AppModel { usage_touched: Seq::empty(), usage_force_reload: false, ..before },
        after,
        ids,
        requests,
    )
}

/// The latest used row is shown where that is wanted: it is scrolled to the top,
/// and selected alone, unless it is a placeholder.
pub proof fn law_latest_row_is_shown_where_wanted<S>(w: ListWorld<S>) -> (i: int)
    ensures
        w.show_latest(false) == w,
        w.list.items.len() == 0 ==> w.show_latest(true) == w,
        w.list.items.len() > 0 ==> {
            let after = w.show_latest(true);
            let scroll = seq![
                bare(Op::ScrollTo { index: i as usize, strategy: ScrollStrategy::Top }),
            ];
            &&& used_last(w.list.items, i)
            &&& is_real(w.list.items, i) ==> {
                &&& has_selected(after.list, i)
                &&& only_reselected(w.list, after.list)
                &&& adds_and_selects(w.app, after.app, seq![w.list.items[i].id], scroll)
            }
            &&& !is_real(w.list.items, i) ==> after.list == w.list && adds(
                w.app,
                after.app,
                scroll,
            )
        },
{
    let items = w.list.items;
    lemma_added(w.app.requests);
    law_latest_row_was_used_last(items, any_item());
    let i = latest_row(items, any_item());
    if items.len() > 0 {
        assert((any_item())(items[0]));
        assert forall|j: int| 0 <= j < items.len() implies (#[trigger] items[j]).updated_at
            < items[i].updated_at || (items[j].updated_at == items[i].updated_at && j <= i) by {
            assert((any_item())(items[j]));
        }
    }
    i
}

/// After a use of items, where the settings ask for it, the last request scrolls
/// to the row that was used last, and where that is no placeholder, its item is
/// the only selected one for the list and for the application, active and
/// anchored. Where the settings do not ask, nothing is asked for.
pub proof fn law_use_of_items_shows_the_latest<S>(
    w: ListWorld<S>,
    items: Seq<ClipboardItem>,
    sizes: Seq<S>,
) -> (i: int)
    ensures
        ({
            let after = w.after_usage(items, sizes);
            &&& after.list.items == items
            &&& after.list.item_sizes == sizes
            &&& after.app.usage_touched.len() == 0
            &&& !after.app.usage_force_reload
            &&& w.app.settings.auto_scroll_to_top && items.len() > 0 ==> {
                &&& used_last(items, i)
                &&& after.app.requests == w.app.requests + seq![
                    bare(Op::ScrollTo { index: i as usize, strategy: ScrollStrategy::Top }),
                ]
                &&& is_real(items, i) ==> has_selected(after.list, i)
                    && after.app.selected_ids == seq![items[i].id]
            }
            &&& !w.app.settings.auto_scroll_to_top || items.len() == 0 ==> after.app.requests
                == w.app.requests
        }),
{
    lemma_added(w.app.requests);
    law_latest_row_is_shown_where_wanted(
        if w.moves_rows() {
            w.moved(items, sizes)
        } else {
            w.replaced(items, sizes)
        },
    )
}

/// What is kept of the selection when other rows are shown: those items that are
/// still rows and no placeholders.
pub open spec fn still_there(items: Seq<ClipboardItem>) -> spec_fn(i64) -> bool {
    |id: i64| exists|i: int| is_real(items, i) && (#[trigger] items[i]).id == id
}

/// What is still there is what can be selected.
proof fn lemma_still_there(items: Seq<ClipboardItem>)
    ensures
        still_there(items) == available(items),
{
    assert forall|id: i64| #[trigger] (still_there(items))(id) == (available(items))(id) by {
        lemma_selectable_ids(items, id);
        if (still_there(items))(id) {
            let i = choose|i: int| is_real(items, i) && (#[trigger] items[i]).id == id;
            assert(items[i].id == id && !is_pending(items[i]));
        }
        if (available(items))(id) {
            let i = choose|i: int|
                0 <= i < items.len() && (#[trigger] items[i]).id == id && !is_pending(items[i]);
            assert(is_real(items, i));
        }
    }
    assert(still_there(items) =~= available(items));
}

/// After a reload the selection is what was selected and is still there, in its
/// order. The item that was active stays active and the item that was the anchor
/// stays the anchor, where they are still selected; else the first selected item
/// is. The pointer stays on the item that it was on, if that can be selected.
pub proof fn law_reload_keeps_rows_on_their_items<S>(
    w: ListWorld<S>,
    items: Seq<ClipboardItem>,
    sizes: Seq<S>,
)
    requires
        w.app.selected_ids.filter(still_there(items)).len() > 0,
    ensures
        ({
            let after = w.resync(items, sizes);
            let ids = after.list.selected_ids;
            &&& ids == w.app.selected_ids.filter(still_there(items))
            &&& after.list.selected_count == ids.len()
            &&& took_usage(w.app, after.app, ids, Seq::empty())
            &&& holds_rows(w.list, after.list, items, sizes, w.app.pending_images)
            &&& after.list.modified_double_click_candidate
                == w.list.modified_double_click_candidate
            &&& after.list.last_selected_id == w.list.last_selected_id
            &&& forall|i: int|
                w.list.selected_index == Some(i) && 0 <= i < w.list.items.len() && ids.contains(
                    (#[trigger] w.list.items[i]).id,
                ) ==> id_at(items, after.list.selected_index) == Some(w.list.items[i].id)
            &&& (forall|i: int|
                w.list.selected_index == Some(i) && 0 <= i < w.list.items.len() ==> !ids.contains(
                    (#[trigger] w.list.items[i]).id,
                )) ==> id_at(items, after.list.selected_index) == Some(ids[0])
            &&& forall|i: int|
                w.list.anchor_index == Some(i) && 0 <= i < w.list.items.len() && ids.contains(
                    (#[trigger] w.list.items[i]).id,
                ) ==> id_at(items, after.list.anchor_index) == Some(w.list.items[i].id)
            &&& (forall|i: int|
                w.list.anchor_index == Some(i) && 0 <= i < w.list.items.len() ==> !ids.contains(
                    (#[trigger] w.list.items[i]).id,
                )) ==> id_at(items, after.list.anchor_index) == Some(ids[0])
        }),
{
    lemma_still_there(items);
    lemma_added(w.app.requests);
    let kept = w.app.selected_ids.filter(available(items));
    assert forall|id: i64| #[trigger] kept.contains(id) implies row_of(items, Some(id)) is Some
        && items[row_of(items, Some(id)).unwrap()].id == id && 0 <= row_of(
        items,
        Some(id),
    ).unwrap() < items.len() by {
        let k = kept.index_of(id);
        w.app.selected_ids.lemma_filter_pred(available(items), k);
        assert((still_there(items))(id));
        law_items_are_found_in_their_first_row(items, id);
    }
    assert(kept.contains(kept[0]));
    if let Some(id) = id_at(w.list.items, w.list.selected_index) {
        law_items_are_found_in_their_first_row(items, id);
        let i = w.list.selected_index.unwrap();
        assert(w.list.items[i].id == id);
    }
    if let Some(id) = id_at(w.list.items, w.list.anchor_index) {
        law_items_are_found_in_their_first_row(items, id);
        let i = w.list.anchor_index.unwrap();
        assert(w.list.items[i].id == id);
    }
}

/// The hovered row after a reload is the first row of the item that was hovered,
/// if that is no placeholder; else no row is hovered.
pub proof fn law_reload_keeps_the_pointer_on_its_item<S>(
    w: ListWorld<S>,
    items: Seq<ClipboardItem>,
    sizes: Seq<S>,
)
    ensures
        ({
            let after = w.resync(items, sizes).list.hovered_index;
            match id_at(w.list.items, w.list.hovered_index) {
                Some(id) => match row_of(items, Some(id)) {
                    Some(i) => after == (if is_real(items, i) {
                        Some(i)
                    } else {
                        None
                    }),
                    None => after is None,
                },
                None => after is None,
            }
        }),
{
    if let Some(id) = id_at(w.list.items, w.list.hovered_index) {
        law_items_are_found_in_their_first_row(items, id);
    }
}

/// Where a reload leaves nothing of the selection, the row at the place of the
/// active one is selected, or the first that is no placeholder; nothing where
/// there is none.
pub proof fn law_reload_selects_something_else_where_nothing_is_left<S>(
    w: ListWorld<S>,
    items: Seq<ClipboardItem>,
    sizes: Seq<S>,
    i: int,
)
    requires
        w.app.selected_ids.filter(still_there(items)).len() == 0,
    ensures
        ({
            let after = w.resync(items, sizes);
            let place = w.list.selected_index;
            let keeps_place = place matches Some(p) && is_real(items, p);
            &&& holds_rows(w.list, after.list, items, sizes, w.app.pending_images)
            &&& place == Some(i) && is_real(items, i) ==> has_selected(after.list, i) && took_usage(
                w.app,
                after.app,
                seq![items[i].id],
                Seq::empty(),
            )
            &&& !keeps_place && first_real(items, i) ==> has_selected(after.list, i) && took_usage(
                w.app,
                after.app,
                seq![items[i].id],
                Seq::empty(),
            )
            &&& (forall|k: int| !is_real(items, k)) ==> {
                &&& after.list.selected_ids.len() == 0
                &&& after.list.selected_count == 0
                &&& after.list.selected_index is None
                &&& after.list.anchor_index is None
                &&& took_usage(w.app, after.app, w.app.selected_ids, Seq::empty())
            }
        }),
{
    lemma_still_there(items);
    lemma_added(w.app.requests);
    lemma_found_row(items, selectable());
    if first_real(items, i) {
        assert forall|j: int| 0 <= j < i implies !(selectable())(#[trigger] items[j]) by {}
        lemma_first_row(items, selectable(), i);
    }
    if let Some(k) = first_row(items, selectable()) {
        assert(is_real(items, k));
    }
    if let Some(p) = w.list.selected_index {
        if 0 <= p < items.len() && !is_pending(items[p]) {
            assert(is_real(items, p));
        }
    }
}

/// The item that a fresh start goes back to: the active one, or else the one that
/// was active last.
pub open spec fn last_active<S>(list: ListModel<S>) -> Option<i64> {
    match id_at(list.items, list.selected_index) {
        Some(active) => Some(active),
        None => list.last_selected_id,
    }
}

/// Whether a fresh start of `before` shows these rows, remembers the item that was
/// last active, and leaves no row hovered and nothing begun.
pub open spec fn started_afresh<S>(
    before: ListWorld<S>,
    after: ListWorld<S>,
    items: Seq<ClipboardItem>,
    sizes: Seq<S>,
) -> bool {
    &&& holds_rows(before.list, after.list, items, sizes, before.app.pending_images)
    &&& after.list.last_selected_id == last_active(before.list)
    &&& after.list.hovered_index is None
    &&& after.list.modified_double_click_candidate is None
}

/// Where the settings ask for it, a fresh start scrolls to the row that was used
/// last of those that are no placeholders, and selects it alone.
pub proof fn law_fresh_start_shows_the_latest<S>(
    w: ListWorld<S>,
    items: Seq<ClipboardItem>,
    sizes: Seq<S>,
    i: int,
)
    requires
        w.app.settings.auto_scroll_to_top,
        used_last_of_real(items, i),
    ensures
        started_afresh(w, w.restart(items, sizes), items, sizes),
        has_selected(w.restart(items, sizes).list, i),
        took_usage(
            w.app,
            w.restart(items, sizes).app,
            seq![items[i].id],
            seq![bare(Op::ScrollTo { index: i as usize, strategy: ScrollStrategy::Top })],
        ),
{
    lemma_added(w.app.requests);
    law_latest_row_was_used_last(items, selectable());
    assert((selectable())(items[i]));
    let l = latest_row(items, selectable());
    assert((selectable())(items[l]));
    assert(items[l].meta_type@ != "pending-image"@);
    assert(l == i);
}

/// Where the settings do not ask for the latest, a fresh start goes back to the
/// item that was last active, if it is a row that is no placeholder: it selects it
/// alone and scrolls to it.
pub proof fn law_fresh_start_goes_back_to_the_last_active_item<S>(
    w: ListWorld<S>,
    items: Seq<ClipboardItem>,
    sizes: Seq<S>,
    i: int,
)
    requires
        !w.app.settings.auto_scroll_to_top,
        is_real(items, i),
        last_active(w.list) == Some(items[i].id),
        forall|j: int| 0 <= j < i && is_real(items, j) ==> (#[trigger] items[j]).id != items[i].id,
    ensures
        started_afresh(w, w.restart(items, sizes), items, sizes),
        has_selected(w.restart(items, sizes).list, i),
        took_usage(
            w.app,
            w.restart(items, sizes).app,
            seq![items[i].id],
            seq![bare(Op::ScrollTo { index: i as usize, strategy: ScrollStrategy::Top })],
        ),
{
    lemma_added(w.app.requests);
    let wanted = selectable_with_id(items[i].id);
    assert forall|j: int| 0 <= j < i implies !wanted(#[trigger] items[j]) by {
        if wanted(items[j]) {
            assert(is_real(items, j));
        }
    }
    lemma_first_row(items, wanted, i);
}

/// Where the item that was last active is no row, a fresh start selects the first
/// row that is no placeholder, and scrolls nowhere.
pub proof fn law_fresh_start_begins_at_the_first_row<S>(
    w: ListWorld<S>,
    items: Seq<ClipboardItem>,
    sizes: Seq<S>,
    i: int,
)
    requires
        !w.app.settings.auto_scroll_to_top,
        first_real(items, i),
        forall|j: int|
            is_real(items, j) ==> last_active(w.list) != Some((#[trigger] items[j]).id),
    ensures
        started_afresh(w, w.restart(items, sizes), items, sizes),
        has_selected(w.restart(items, sizes).list, i),
        took_usage(w.app, w.restart(items, sizes).app, seq![items[i].id], Seq::empty()),
{
    lemma_added(w.app.requests);
    assert forall|j: int| 0 <= j < i implies !(selectable())(#[trigger] items[j]) by {}
    lemma_first_row(items, selectable(), i);
    if let Some(last) = last_active(w.list) {
        lemma_found_row(items, selectable_with_id(last));
        if let Some(k) = first_row(items, selectable_with_id(last)) {
            assert(is_real(items, k));
        }
    }
}

/// Where there is no row but placeholders, a fresh start selects nothing.
pub proof fn law_fresh_start_selects_no_placeholder<S>(
    w: ListWorld<S>,
    items: Seq<ClipboardItem>,
    sizes: Seq<S>,
)
    requires
        forall|k: int| !is_real(items, k),
    ensures
        started_afresh(w, w.restart(items, sizes), items, sizes),
        w.restart(items, sizes).list.selected_ids.len() == 0,
        w.restart(items, sizes).list.selected_count == 0,
        w.restart(items, sizes).list.selected_index is None,
        w.restart(items, sizes).list.anchor_index is None,
        w.restart(items, sizes).app.selected_ids == w.app.selected_ids,
{
    lemma_found_row(items, selectable());
    if let Some(k) = first_row(items, selectable()) {
        assert(is_real(items, k));
    }
    if let Some(last) = last_active(w.list) {
        lemma_found_row(items, selectable_with_id(last));
        if let Some(k) = first_row(items, selectable_with_id(last)) {
            assert(is_real(items, k));
        }
    }
    assert(!is_real(items, latest_row(items, selectable())));
}

/// Moving rows after a use keeps the selection and asks for nothing: the active,
/// the anchor and the hovered row are the first rows of the items that they were
/// on.
pub proof fn law_moving_rows_changes_no_selection<S>(
    w: ListWorld<S>,
    items: Seq<ClipboardItem>,
    sizes: Seq<S>,
)
    ensures
        ({
            let after = w.moved(items, sizes);
            &&& after.list == (ListModel {
                items,
                item_sizes: sizes,
                selected_index: after.list.selected_index,
                anchor_index: after.list.anchor_index,
                hovered_index: after.list.hovered_index,
                ..w.list
            })
            &&& took_usage(w.app, after.app, w.app.selected_ids, Seq::empty())
            &&& after.list.selected_index == row_of(
                items,
                id_at(w.list.items, w.list.selected_index),
            )
            &&& after.list.anchor_index == row_of(items, id_at(w.list.items, w.list.anchor_index))
            &&& after.list.hovered_index == row_of(
                items,
                id_at(w.list.items, w.list.hovered_index),
            )
        }),
{
    lemma_added(w.app.requests);
}

/// Other rows shown after a use keep the active, the anchor and the hovered row
/// on their items, wherever those are still rows, and select what a reload
/// selects.
pub proof fn law_rows_shown_after_a_use_keep_their_items<S>(
    w: ListWorld<S>,
    items: Seq<ClipboardItem>,
    sizes: Seq<S>,
    id: i64,
)
    ensures
        ({
            let after = w.replaced(items, sizes);
            let reload = w.resync(items, sizes);
            let there = exists|i: int| 0 <= i < items.len() && (#[trigger] items[i]).id == id;
            &&& after.app == reload.app
            &&& after.list.selected_ids == reload.list.selected_ids
            &&& after.list.selected_count == reload.list.selected_count
            &&& holds_rows(w.list, after.list, items, sizes, w.app.pending_images)
            &&& id_at(w.list.items, w.list.selected_index) == Some(id) && there ==> id_at(
                items,
                after.list.selected_index,
            ) == Some(id)
            &&& id_at(w.list.items, w.list.anchor_index) == Some(id) && there ==> id_at(
                items,
                after.list.anchor_index,
            ) == Some(id)
            &&& id_at(w.list.items, w.list.hovered_index) == Some(id) && there ==> id_at(
                items,
                after.list.hovered_index,
            ) == Some(id)
            &&& id_at(w.list.items, w.list.hovered_index) == Some(id) && !there
                ==> after.list.hovered_index is None
        }),
{
    law_items_are_found_in_their_first_row(items, id);
}

/// Whether a row holds the item with an id.
pub open spec fn is_row(items: Seq<ClipboardItem>, id: i64) -> bool {
    exists|i: int| 0 <= i < items.len() && (#[trigger] items[i]).id == id
}

/// The rows' ids are those that rows have.
proof fn lemma_ids_of_rows(items: Seq<ClipboardItem>, id: i64)
    ensures
        ids_of(items).contains(id) == is_row(items, id),
{
    if ids_of(items).contains(id) {
        let i = ids_of(items).index_of(id);
        assert(items[i].id == id);
    }
    if is_row(items, id) {
        let i = choose|i: int| 0 <= i < items.len() && (#[trigger] items[i]).id == id;
        assert(ids_of(items)[i] == id);
    }
}

/// The ids of the items outside the transfer station are those that such items
/// have.
proof fn lemma_ids_outside_station(items: Seq<ClipboardItem>, id: i64)
    ensures
        ids_of(items.filter(outside_station())).contains(id) == is_outside_station(items, id),
{
    let kept = items.filter(outside_station());
    let outside = ids_of(kept);
    if outside.contains(id) {
        let k = outside.index_of(id);
        items.lemma_filter_pred(outside_station(), k);
        lemma_filter_member(items, outside_station(), k);
        let i = choose|i: int| 0 <= i < items.len() && #[trigger] items[i] == kept[k];
        assert(items[i].id == id);
    }
    if is_outside_station(items, id) {
        let i = choose|i: int|
            0 <= i < items.len() && (#[trigger] items[i]).id == id && (items[i].content_type
                != ContentType::File || !items[i].file_data.transfer);
        items.lemma_filter_contains(outside_station(), i);
        let k = kept.index_of(items[i]);
        assert(outside[k] == id);
    }
}

/// A use is shown by moving rows alone exactly if the rows are the items outside
/// the transfer station, none of them twice, every row has its size, and the news
/// is about rows, is some, and asks for no reload.
pub proof fn law_rows_are_moved_only_where_that_is_enough<S>(w: ListWorld<S>)
    ensures
        w.moves_rows() <==> {
            &&& !w.app.transfer_filter_active
            &&& !w.app.usage_force_reload
            &&& w.app.usage_touched.len() > 0
            &&& w.list.item_sizes.len() == w.list.items.len()
            &&& forall|i: int, j: int|
                0 <= i < j < w.list.items.len() ==> (#[trigger] w.list.items[i]).id != (
                #[trigger] w.list.items[j]).id
            &&& forall|id: i64| #[trigger]
                is_row(w.list.items, id) <==> is_outside_station(w.app.items, id)
            &&& forall|k: int|
                0 <= k < w.app.usage_touched.len() ==> is_row(
                    w.list.items,
                    #[trigger] w.app.usage_touched[k],
                )
        },
{
    let items = w.list.items;
    let local = ids_of(items);
    let outside = ids_of(w.app.items.filter(outside_station()));
    let touched = w.app.usage_touched;
    assert forall|id: i64| #[trigger] is_row(items, id) == local.contains(id) by {
        lemma_ids_of_rows(items, id);
    }
    assert forall|id: i64| #[trigger] is_outside_station(w.app.items, id) == outside.contains(
        id,
    ) by {
        lemma_ids_outside_station(w.app.items, id);
    }
    assert(local.no_duplicates() <==> forall|i: int, j: int|
        0 <= i < j < items.len() ==> (#[trigger] items[i]).id != (#[trigger] items[j]).id) by {
        if local.no_duplicates() {
            assert forall|i: int, j: int| 0 <= i < j < items.len() implies (
            #[trigger] items[i]).id != (#[trigger] items[j]).id by {
                assert(local[i] != local[j]);
            }
        }
        if forall|i: int, j: int|
            0 <= i < j < items.len() ==> (#[trigger] items[i]).id != (#[trigger] items[j]).id {
            assert forall|i: int, j: int| 0 <= i < local.len() && 0 <= j < local.len() && i
                != j implies local[i] != local[j] by {
                assert(items[i].id == local[i] && items[j].id == local[j]);
            }
        }
    }
    assert(local.to_set() == outside.to_set() <==> forall|id: i64| #[trigger]
        is_row(items, id) <==> is_outside_station(w.app.items, id)) by {
        if local.to_set() == outside.to_set() {
            assert forall|id: i64| #[trigger] is_row(items, id) <==> is_outside_station(
                w.app.items,
                id,
            ) by {
                assert(local.to_set().contains(id) == outside.to_set().contains(id));
            }
        }
        if forall|id: i64| #[trigger] is_row(items, id) <==> is_outside_station(w.app.items, id) {
            assert forall|id: i64| local.to_set().contains(id) <==> outside.to_set().contains(
                id,
            ) by {
                assert(is_row(items, id) == local.contains(id));
            }
            assert(local.to_set() =~= outside.to_set());
        }
    }
    assert((forall|k: int| 0 <= k < touched.len() ==> local.contains(#[trigger] touched[k]))
        <==> (forall|k: int| 0 <= k < touched.len() ==> is_row(items, #[trigger] touched[k])));
}

/// Whether an id is that of an item outside the transfer station.
pub open spec fn is_outside_station(items: Seq<ClipboardItem>, id: i64) -> bool {
    exists|i: int|
        0 <= i < items.len() && (#[trigger] items[i]).id == id && (items[i].content_type
            != ContentType::File || !items[i].file_data.transfer)
}

/// Hiding the window drops the rows and everything that is open in the list, and
/// keeps the active item in mind.
pub proof fn law_hiding_drops_rows_and_panels<S>(list: ListModel<S>)
    ensures
        ({
            let after = list.released();
            &&& after.items.len() == 0
            &&& after.item_sizes.len() == 0
            &&& after.selected_ids.len() == 0
            &&& after.selected_count == 0
            &&& after.selected_index is None
            &&& after.anchor_index is None
            &&& after.hovered_index is None
            &&& !after.context_menu_visible
            &&& after.context_menu_item is None
            &&& !after.tag_picker_visible
            &&& after.tag_picker_item_id == -1
            &&& after.confirm_dialog is None
            &&& after.editing_note_id == -1
            &&& !after.escape_consumed_inline
            &&& after.modified_double_click_candidate is None
            &&& after.last_selected_id == (match id_at(list.items, list.selected_index) {
                Some(id) => Some(id),
                None => list.last_selected_id,
            })
            &&& after.recording_hotkey_id == list.recording_hotkey_id
            &&& after.recording_hotkey_format == list.recording_hotkey_format
            &&& after.pending_images == list.pending_images
            &&& after.card_height_mode == list.card_height_mode
            &&& after.context_menu_is_batch == list.context_menu_is_batch
            &&& after.tag_picker_anchor == list.tag_picker_anchor
            &&& after.tag_picker_is_batch == list.tag_picker_is_batch
            &&& after.theme == list.theme
            &&& after.last_lang_version == list.last_lang_version
        }),
{
}

/// Where a search puts favorites first, the first row, or a toggled item where
/// that is a row, is scrolled to the top and selected alone unless it is a
/// placeholder, and no row is hovered. Otherwise nothing changes.
pub proof fn law_favorites_first_brings_up_what_was_toggled<S>(w: ListWorld<S>, id: i64, i: int)
    ensures
        ({
            let first = w.app.settings.search_favorites_first && w.app.filters.keyword_set
                && w.list.items.len() > 0;
            let left = ListModel { hovered_index: None, ..w.list };
            let top = w.top_if_favorites_first();
            let toggled = w.reselect_toggled(id);
            let scroll = |k: int|
                seq![bare(Op::ScrollTo { index: k as usize, strategy: ScrollStrategy::Top })];
            &&& !first ==> top == w && toggled == w
            &&& first ==> {
                &&& only_reselected(left, top.list)
                &&& only_reselected(left, toggled.list)
                &&& top.app.requests == w.app.requests + scroll(0)
                &&& is_real(w.list.items, 0) ==> has_selected(top.list, 0)
                    && top.app.selected_ids == seq![w.list.items[0].id]
                &&& !is_real(w.list.items, 0) ==> top.list == left && top.app.selected_ids
                    == w.app.selected_ids
                &&& row_of(w.list.items, Some(id)) is None ==> toggled == top
                &&& row_of(w.list.items, Some(id)) == Some(i) ==> {
                    &&& toggled.app.requests == w.app.requests + scroll(i)
                    &&& is_real(w.list.items, i) ==> has_selected(toggled.list, i)
                        && toggled.app.selected_ids == seq![id]
                    &&& !is_real(w.list.items, i) ==> toggled.list == left
                        && toggled.app.selected_ids == w.app.selected_ids
                }
            }
        }),
{
    lemma_added(w.app.requests);
    law_items_are_found_in_their_first_row(w.list.items, id);
}

/// A stored item that is a row is brought up: scrolled to the top, and selected
/// alone unless it is a placeholder. Anything else changes nothing.
pub proof fn law_bringing_up_shows_the_item<S>(w: ListWorld<S>, id: i64, i: int)
    ensures
        id <= 0 || row_of(w.list.items, Some(id)) is None ==> w.bring_up(id) == w,
        id > 0 && row_of(w.list.items, Some(id)) == Some(i) ==> {
            let after = w.bring_up(id);
            &&& after.app.requests == w.app.requests + seq![
                bare(Op::ScrollTo { index: i as usize, strategy: ScrollStrategy::Top }),
            ]
            &&& is_real(w.list.items, i) ==> has_selected(after.list, i) && after.app.selected_ids
                == seq![id] && only_reselected(w.list, after.list)
            &&& !is_real(w.list.items, i) ==> after.list == w.list && after.app.selected_ids
                == w.app.selected_ids
        },
{
    lemma_added(w.app.requests);
    law_items_are_found_in_their_first_row(w.list.items, id);
}

/// The rows are one placeholder for each pending image, in their order, and then
/// the items, in theirs.
pub proof fn law_placeholders_come_before_the_items(
    combined: Seq<ClipboardItem>,
    pending: Seq<PendingImageView>,
    items: Seq<ClipboardItem>,
)
    requires
        is_combined(combined, pending, items),
    ensures
        combined.len() == pending.len() + items.len(),
        forall|i: int|
            0 <= i < items.len() ==> combined[pending.len() + i] == #[trigger] items[i],
        forall|i: int|
            0 <= i < pending.len() ==> {
                let shown = #[trigger] combined[i];
                &&& shown.meta_type@ == "pending-image"@
                &&& shown.id == -2 - i
                &&& shown.content_type == ContentType::Image
                &&& shown.content_hash == pending[i].raw_hash
                &&& shown.image_width == pending[i].width
                &&& shown.image_height == pending[i].height
                &&& shown.source_app_name == pending[i].source_name
                &&& shown.source_app_icon == pending[i].source_icon
                &&& shown.created_at == pending[i].copied_at
                &&& shown.updated_at == pending[i].copied_at
            },
        forall|i: int, j: int|
            0 <= i < j < pending.len() ==> (#[trigger] combined[i]).id != (
            #[trigger] combined[j]).id,
{
    assert forall|i: int| 0 <= i < items.len() implies combined[pending.len() + i]
        == #[trigger] items[i] by {
        assert(combined.skip(pending.len() as int)[i] == items[i]);
    }
    assert forall|i: int, j: int| 0 <= i < j < pending.len() implies (#[trigger] combined[i]).id
        != (#[trigger] combined[j]).id by {
        assert(stands_for(combined[i], pending[i], i));
        assert(stands_for(combined[j], pending[j], j));
    }
}

/// Of the rows, the used ones get the application's time of use, and nothing else
/// of any row changes.
pub proof fn law_only_times_of_use_are_refreshed(
    items: Seq<ClipboardItem>,
    app_items: Seq<ClipboardItem>,
    touched: Seq<i64>,
    i: int,
    k: int,
)
    requires
        0 <= i < items.len(),
    ensures
        refreshed(items, app_items, touched).len() == items.len(),
        ({
            let after = refreshed(items, app_items, touched)[i];
            &&& after == (ClipboardItem { updated_at: after.updated_at, ..items[i] })
            &&& touched.contains(items[i].id) && row_of(app_items, Some(items[i].id)) == Some(k)
                ==> after.updated_at == app_items[k].updated_at
            &&& !touched.contains(items[i].id) || row_of(app_items, Some(items[i].id)) is None
                ==> after.updated_at == items[i].updated_at
        }),
{
}

/// A list in order of creation is left as it is. Otherwise the latest used rows
/// come first and those that were used at the same time keep their order; where
/// favorites come first, among the favorites at the top and among the other rows.
pub proof fn law_used_rows_come_first<S>(
    before: Seq<(ClipboardItem, S)>,
    after: Seq<(ClipboardItem, S)>,
    sort_by_created: bool,
    favorites_first: bool,
    split: int,
    time: i64,
)
    requires
        is_usage_order(before, after, sort_by_created, favorites_first),
        favorites_first ==> {
            &&& 0 <= split <= before.len()
            &&& forall|i: int| 0 <= i < split ==> (#[trigger] before[i]).0.is_favorite
            &&& split < before.len() ==> !before[split].0.is_favorite
        },
        !favorites_first ==> split == 0,
    ensures
        sort_by_created ==> after == before,
        !sort_by_created ==> {
            &&& after.len() == before.len()
            &&& forall|i: int, j: int|
                0 <= i <= j < after.len() && (i < split <==> j < split) ==> (
                #[trigger] after[i]).0.updated_at >= (#[trigger] after[j]).0.updated_at
            &&& after.take(split).filter(|p: (ClipboardItem, S)| p.0.updated_at == time)
                == before.take(split).filter(|p: (ClipboardItem, S)| p.0.updated_at == time)
            &&& after.skip(split).filter(|p: (ClipboardItem, S)| p.0.updated_at == time)
                == before.skip(split).filter(|p: (ClipboardItem, S)| p.0.updated_at == time)
            &&& forall|i: int| 0 <= i < split ==> (#[trigger] after[i]).0.is_favorite
        },
{
    if !sort_by_created {
        law_usage_reorder_keeps_every_row(
            before,
            after,
            sort_by_created,
            favorites_first,
        );
        let at = |p: (ClipboardItem, S)| p.0.updated_at == time;
        assert(at =~= used_at::<S>(time));
        if favorites_first {
            lemma_leading_favorites(before, split);
            assert(leading_favorites(before) == split);
            let head = after.take(split);
            let tail = after.skip(split);
            assert(stably_newest_first(before.take(split), head));
            assert(stably_newest_first(before.skip(split), tail));
            assert(head.filter(used_at(time)) == before.take(split).filter(used_at(time)));
            assert(tail.filter(used_at(time)) == before.skip(split).filter(used_at(time)));
            assert forall|i: int, j: int| 0 <= i <= j < after.len() && (i < split <==> j
                < split) implies (#[trigger] after[i]).0.updated_at >= (
            #[trigger] after[j]).0.updated_at by {
                if i < split {
                    assert(head[i].0.updated_at >= head[j].0.updated_at);
                } else {
                    assert(tail[i - split].0.updated_at >= tail[j - split].0.updated_at);
                }
            }
            law_newest_first_keeps_every_row(before.take(split), head);
            assert forall|i: int| 0 <= i < split implies (#[trigger] after[i]).0.is_favorite by {
                assert(head[i] == after[i]);
                head.to_multiset_ensures();
                before.take(split).to_multiset_ensures();
                assert(head.to_multiset().count(head[i]) > 0);
                assert(before.take(split).contains(head[i]));
                let k = before.take(split).index_of(head[i]);
                assert(before[k].0.is_favorite);
            }
        } else {
            assert(after.take(0) =~= Seq::<(ClipboardItem, S)>::empty());
            assert(before.take(0) =~= Seq::<(ClipboardItem, S)>::empty());
            assert(after.skip(0) =~= after);
            assert(before.skip(0) =~= before);
            assert(after.filter(used_at(time)) == before.filter(used_at(time)));
        }
    }
}

/// The list scrolls over a row for each item, and over one more where there is an
/// item.
pub proof fn law_last_item_scrolls_into_view<S>(list: ListModel<S>)
    ensures
        list.item_sizes.len() == 0 <==> list.scrolled_rows() == 0,
        list.scrolled_rows() > 0 ==> list.scrolled_rows() == list.item_sizes.len() + 1,
{
}

/// New sizes are taken over exactly where the settings ask for cards of another
/// height. The items and what is selected stay, unless the latest row is to be
/// shown.
pub proof fn law_cards_get_the_height_of_the_settings<S>(
    w: ListWorld<S>,
    scroll_to_top: bool,
    sizes: Seq<S>,
)
    ensures
        ({
            let after = w.refresh_settings(scroll_to_top, sizes);
            let same = w.list.card_height_mode@ == w.app.settings.card_height_mode@;
            let resized = ListModel {
                card_height_mode: w.app.settings.card_height_mode,
                item_sizes: sizes,
                ..w.list
            };
            &&& after.list.card_height_mode@ == w.app.settings.card_height_mode@
            &&& same ==> after.list.item_sizes == w.list.item_sizes
            &&& !same ==> after.list.item_sizes == sizes
            &&& after.list.items == w.list.items
            &&& !scroll_to_top && same ==> after == w
            &&& !scroll_to_top && !same ==> after == world(resized, w.app)
            &&& scroll_to_top && same ==> after == w.show_latest(true)
            &&& scroll_to_top && !same ==> after == world(resized, w.app).show_latest(true)
        }),
{
}

/// Rows that are moved after a use stay where they are where the list is sorted by
/// creation, and otherwise come newest first; only where a search puts favorites
/// first, and not they alone are shown, the favorites in front stay in front.
pub proof fn law_moved_rows_come_newest_first<S>(
    w: ListWorld<S>,
    items: Seq<ClipboardItem>,
    sizes: Seq<S>,
    split: int,
)
    requires
        w.orders_by_use(items, sizes),
        0 <= split <= w.list.items.len(),
        forall|i: int| 0 <= i < split ==> (#[trigger] w.list.items[i]).is_favorite,
        split < w.list.items.len() ==> !w.list.items[split].is_favorite,
    ensures
        ({
            let grouped = w.app.settings.search_favorites_first && w.app.filters.keyword_set
                && !w.app.filters.favorites_only;
            &&& items.len() == w.list.items.len()
            &&& w.app.settings.sort_by_created ==> forall|i: int|
                0 <= i < items.len() ==> (#[trigger] items[i]).id == w.list.items[i].id
            &&& !w.app.settings.sort_by_created ==> forall|i: int, j: int|
                0 <= i <= j < items.len() && (!grouped || (i < split <==> j < split)) ==> (
                #[trigger] items[i]).updated_at >= (#[trigger] items[j]).updated_at
            &&& !w.app.settings.sort_by_created && grouped ==> forall|i: int|
                0 <= i < split ==> (#[trigger] items[i]).is_favorite
        }),
{
    let grouped = w.app.settings.search_favorites_first && w.app.filters.keyword_set
        && !w.app.filters.favorites_only;
    let by_created = w.app.settings.sort_by_created;
    let fresh = refreshed(w.list.items, w.app.items, w.app.usage_touched);
    let before = rows(fresh, w.list.item_sizes);
    let after = rows(items, sizes);
    let cut = if grouped {
        split
    } else {
        0
    };
    assert forall|i: int| 0 <= i < before.len() implies (#[trigger] before[i]).0.is_favorite
        == w.list.items[i].is_favorite && before[i].0.id == w.list.items[i].id by {
        assert(fresh[i].is_favorite == w.list.items[i].is_favorite);
    }
    law_used_rows_come_first(before, after, by_created, grouped, cut, 0);
    assert(after.len() == before.len());
    assert forall|i: int| 0 <= i < items.len() implies (#[trigger] items[i]) == after[i].0 by {}
}

} // verus!
