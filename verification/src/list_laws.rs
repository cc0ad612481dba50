//! What holds of the clipboard list as a whole.

use vstd::prelude::*;

use crate::app_state::{Op, ScrollStrategy};
use crate::click::{double_click_kind, paste_click_mode, Modifiers, PasteClickMode};
use crate::clipboard_list::{
    is_next_row, is_previous_row, next_row, previous_row, range_ids, world, ListModel, ListWorld,
};
use crate::filters::lemma_filter_all;
use crate::items::{
    any_item, first_row, id_at, is_first_row, is_pending, latest_row, lemma_found_row,
    lemma_selectable_ids, lemma_some_row, row_of, selectable, selectable_ids, selectable_with_id,
    with_id,
};
use crate::list_keys::ListKey;
use crate::list_menu::{action_target, toolbar_action, ActionTarget, CardAction};
use crate::list_panels::recording_format;
use crate::list_sync::available;
use crate::rows::{refreshed, rows};
use crate::text::begins_with;
use crate::types::ClipboardItem;
use crate::usage_order::{is_usage_order, law_usage_reorder_keeps_every_row};

verus! {

impl<S> ListModel<S> {
    /// Whether every selected item is a row that can be selected.
    pub open spec fn selection_is_alive(self) -> bool {
        forall|k: int|
            0 <= k < self.selected_ids.len() ==> selectable_ids(self.items).contains(
                #[trigger] self.selected_ids[k],
            )
    }
}

impl<S> ListWorld<S> {
    /// Whether the list and the application agree on what is selected.
    pub open spec fn in_step(self) -> bool {
        self.list.selected_ids == self.app.selected_ids
    }
}

/// The item of a row that can be selected is one of those that can.
proof fn lemma_row_is_available(items: Seq<ClipboardItem>, i: int)
    requires
        0 <= i < items.len(),
        !is_pending(items[i]),
    ensures
        selectable_ids(items).contains(items[i].id),
{
    lemma_selectable_ids(items, items[i].id);
}

/// The items of some rows that can be selected are among those of all rows.
proof fn lemma_part_is_available(items: Seq<ClipboardItem>, lo: int, hi: int, id: i64)
    requires
        0 <= lo <= hi <= items.len(),
        selectable_ids(items.subrange(lo, hi)).contains(id),
    ensures
        selectable_ids(items).contains(id),
{
    let part = items.subrange(lo, hi);
    lemma_selectable_ids(part, id);
    lemma_selectable_ids(items, id);
    let i = choose|i: int|
        0 <= i < part.len() && (#[trigger] part[i]).id == id && !is_pending(part[i]);
    assert(items[lo + i].id == id);
}

/// Changing the selection keeps the list and the application in step.
pub proof fn law_selecting_keeps_in_step<S>(
    w: ListWorld<S>,
    index: int,
    id: i64,
    strategy: ScrollStrategy,
)
    requires
        w.in_step(),
    ensures
        w.select(index).in_step(),
        w.select_in_view(index, strategy).in_step(),
        w.toggle(index).in_step(),
        w.range_to(index).in_step(),
        w.select_all().in_step(),
        w.select_next(strategy).in_step(),
        w.select_previous(strategy).in_step(),
        w.reduce().in_step(),
        w.lock(id).in_step(),
{
}

/// A click, a double click, a right click and a move of the pointer keep the
/// list and the application in step.
pub proof fn law_pointing_keeps_in_step<S>(w: ListWorld<S>, index: int, modifiers: Modifiers)
    requires
        w.in_step(),
    ensures
        w.click(index, modifiers).in_step(),
        w.double_click(index, modifiers).in_step(),
        w.right_click(index).in_step(),
        w.hover(index, modifiers).in_step(),
{
}

/// Showing other rows brings the list and the application in step, wherever
/// there is a row that can be selected.
pub proof fn law_other_rows_bring_in_step<S>(
    w: ListWorld<S>,
    items: Seq<ClipboardItem>,
    sizes: Seq<S>,
    i: int,
)
    requires
        0 <= i < items.len(),
        !is_pending(items[i]),
    ensures
        w.restart(items, sizes).in_step(),
        w.restart(items, sizes).list.selected_ids.len() == 1,
        w.resync(items, sizes).in_step(),
        w.resync(items, sizes).list.selected_ids.len() > 0,
{
    lemma_some_row(items, selectable(), i);
    lemma_found_row(items, selectable());
    if let Some(id) = w.list.remembering().last_selected_id {
        lemma_found_row(items, selectable_with_id(id));
    }
}

/// Where every selected item is a row that can be selected, selecting rows keeps
/// that so.
proof fn lemma_selecting_stays_alive<S>(w: ListWorld<S>, index: int, strategy: ScrollStrategy)
    requires
        w.list.wf(),
        w.list.selection_is_alive(),
        index >= 0,
        w.list.anchor_index matches Some(a) ==> a >= 0,
    ensures
        w.select(index).list.selection_is_alive(),
        w.select_in_view(index, strategy).list.selection_is_alive(),
        w.toggle(index).list.selection_is_alive(),
        w.range_to(index).list.selection_is_alive(),
        w.select_all().list.selection_is_alive(),
        w.select_next(strategy).list.selection_is_alive(),
        w.select_previous(strategy).list.selection_is_alive(),
        w.reduce().list.selection_is_alive(),
{
    let items = w.list.items;
    assert forall|i: int| w.list.can_select(i) implies #[trigger] w.select_in_view(
        i,
        strategy,
    ).list.selection_is_alive() by {
        lemma_row_is_available(items, i);
    }
    if w.list.selected_ids.len() > 0 {
        assert(selectable_ids(items).contains(w.list.selected_ids[0]));
    }
    if w.list.can_select(index) {
        lemma_row_is_available(items, index);
        let id = items[index].id;
        w.list.selected_ids.index_of_first_ensures(id);
        let pushed = w.list.selected_ids.push(id);
        assert forall|k: int| 0 <= k < pushed.len() implies selectable_ids(items).contains(
            #[trigger] pushed[k],
        ) by {
            if k < w.list.selected_ids.len() {
                assert(pushed[k] == w.list.selected_ids[k]);
            }
        }
        let removed = w.list.selected_ids.remove_value(id);
        assert forall|k: int| 0 <= k < removed.len() implies selectable_ids(items).contains(
            #[trigger] removed[k],
        ) by {
            assert(w.list.selected_ids.contains(removed[k]));
        }
    }
    if let Some(anchor) = w.list.anchor_index {
        let ids = range_ids(items, anchor, index);
        assert forall|k: int| 0 <= k < ids.len() implies selectable_ids(items).contains(
            #[trigger] ids[k],
        ) by {
            let n = items.len() as int;
            let lo = crate::clipboard_list::lesser(
                crate::clipboard_list::lesser(anchor, index),
                n,
            );
            let hi = crate::clipboard_list::lesser(
                if anchor <= index {
                    index + 1
                } else {
                    anchor + 1
                },
                n,
            );
            let part = selectable_ids(items.subrange(lo, hi));
            assert(part.contains(ids[k])) by {
                if anchor <= index {
                    assert(ids[k] == part[k]);
                } else {
                    assert(ids[k] == part[part.len() - 1 - k]);
                }
            }
            lemma_part_is_available(items, lo, hi, ids[k]);
        }
    }
    assert(w.select_all().list.selection_is_alive());
}

/// The same for selecting a row from any state of the list's panels.
proof fn lemma_select_stays_alive<S>(w: ListWorld<S>, index: int)
    requires
        w.list.selection_is_alive(),
    ensures
        w.select(index).list.selection_is_alive(),
{
    if w.list.can_select(index) {
        lemma_row_is_available(w.list.items, index);
    }
}

/// The same for showing a row.
proof fn lemma_showing_stays_alive<S>(w: ListWorld<S>, id: i64)
    requires
        w.list.selection_is_alive(),
    ensures
        w.show_latest(true).list.selection_is_alive(),
        w.bring_up(id).list.selection_is_alive(),
        w.top_if_favorites_first().list.selection_is_alive(),
        w.reselect_toggled(id).list.selection_is_alive(),
{
    let items = w.list.items;
    let left = world(ListModel { hovered_index: None, ..w.list }, w.app);
    lemma_select_stays_alive(w, latest_row(items, any_item()));
    lemma_select_stays_alive(left, 0);
    if let Some(i) = row_of(items, Some(id)) {
        lemma_select_stays_alive(w, i);
        lemma_select_stays_alive(left, i);
    }
}

/// The same for clicks.
proof fn lemma_clicking_stays_alive<S>(w: ListWorld<S>, index: int, modifiers: Modifiers)
    requires
        w.list.wf(),
        w.list.selection_is_alive(),
        index >= 0,
        w.list.anchor_index matches Some(a) ==> a >= 0,
    ensures
        w.click(index, modifiers).list.selection_is_alive(),
{
    let unbegun = world(w.list.without_candidate(), w.app);
    lemma_selecting_stays_alive(w, index, ScrollStrategy::Top);
    lemma_selecting_stays_alive(unbegun, index, ScrollStrategy::Top);
}

/// The same for double clicks, right clicks and moves of the pointer.
proof fn lemma_pointing_stays_alive<S>(w: ListWorld<S>, index: int, modifiers: Modifiers)
    requires
        w.list.selection_is_alive(),
    ensures
        w.hover(index, modifiers).list.selection_is_alive(),
        w.double_click(index, modifiers).list.selection_is_alive(),
        w.right_click(index).list.selection_is_alive(),
{
    let entered = world(ListModel { hovered_index: Some(index), ..w.list }, w.app);
    let unbegun = world(w.list.without_candidate(), w.app);
    lemma_select_stays_alive(entered, index);
    lemma_select_stays_alive(unbegun, index);
}

/// The same for editing an item in place that can be selected.
proof fn lemma_locking_stays_alive<S>(w: ListWorld<S>, id: i64)
    requires
        w.list.selection_is_alive(),
    ensures
        (row_of(w.list.items, Some(id)) matches Some(i) ==> !is_pending(w.list.items[i]))
            ==> w.lock(id).list.selection_is_alive(),
        selectable_ids(w.list.items).contains(id) ==> w.lock(id).list.selection_is_alive(),
{
    let items = w.list.items;
    if let Some(i) = row_of(items, Some(id)) {
        lemma_found_row(items, with_id(id));
        if !is_pending(items[i]) {
            lemma_row_is_available(items, i);
        }
    }
}

/// No placeholder is ever selected: where every selected item is a row that can
/// be selected, that stays so when rows are selected, when a row is shown, and
/// with every click and move of the pointer. An item that is edited in place is
/// selected too; the toolbar and the keys edit none that is a placeholder.
pub proof fn law_placeholders_are_never_selected<S>(
    w: ListWorld<S>,
    index: int,
    id: i64,
    strategy: ScrollStrategy,
    modifiers: Modifiers,
)
    requires
        w.list.wf(),
        w.list.selection_is_alive(),
        index >= 0,
        w.list.anchor_index matches Some(a) ==> a >= 0,
    ensures
        w.select(index).list.selection_is_alive(),
        w.select_in_view(index, strategy).list.selection_is_alive(),
        w.toggle(index).list.selection_is_alive(),
        w.range_to(index).list.selection_is_alive(),
        w.select_all().list.selection_is_alive(),
        w.select_next(strategy).list.selection_is_alive(),
        w.select_previous(strategy).list.selection_is_alive(),
        w.reduce().list.selection_is_alive(),
        w.show_latest(true).list.selection_is_alive(),
        w.bring_up(id).list.selection_is_alive(),
        w.top_if_favorites_first().list.selection_is_alive(),
        w.reselect_toggled(id).list.selection_is_alive(),
        w.hover(index, modifiers).list.selection_is_alive(),
        w.click(index, modifiers).list.selection_is_alive(),
        w.double_click(index, modifiers).list.selection_is_alive(),
        w.right_click(index).list.selection_is_alive(),
        (row_of(w.list.items, Some(id)) matches Some(i) ==> !is_pending(w.list.items[i]))
            ==> w.lock(id).list.selection_is_alive(),
{
    lemma_selecting_stays_alive(w, index, strategy);
    lemma_showing_stays_alive(w, id);
    lemma_clicking_stays_alive(w, index, modifiers);
    lemma_pointing_stays_alive(w, index, modifiers);
    lemma_locking_stays_alive(w, id);
}

/// Toggling a row never leaves nothing selected, and toggling a row twice that
/// was not selected restores the selection.
pub proof fn law_toggle_never_empties_the_selection<S>(w: ListWorld<S>, index: int)
    requires
        w.list.selected_ids.len() > 0,
    ensures
        w.toggle(index).list.selected_ids.len() > 0,
        w.list.can_select(index) && !w.list.selected_ids.contains(w.list.items[index].id)
            ==> w.toggle(index).toggle(index).list.selected_ids == w.list.selected_ids,
{
    if w.list.can_select(index) {
        let id = w.list.items[index].id;
        let ids = w.list.selected_ids;
        ids.index_of_first_ensures(id);
        if !ids.contains(id) {
            let more = ids.push(id);
            more.index_of_first_ensures(id);
            assert(more[ids.len() as int] == id);
            assert(more.contains(id));
            let p = more.index_of_first(id).unwrap();
            assert(p == ids.len()) by {
                if p < ids.len() {
                    assert(ids[p] == id);
                }
            }
            assert(more.remove(p) =~= ids);
        }
    }
}

/// Selecting everything twice is selecting everything once, and it selects
/// exactly the rows that can be selected.
pub proof fn law_select_all_is_idempotent<S>(w: ListWorld<S>)
    ensures
        w.select_all().select_all() == w.select_all(),
        selectable_ids(w.list.items).len() > 0 ==> w.select_all().list.selected_ids
            == selectable_ids(w.list.items),
{
}

/// A range holds the same items from both ends, with the anchor's first.
pub proof fn law_range_is_the_same_from_both_ends(
    items: Seq<ClipboardItem>,
    anchor: int,
    index: int,
)
    requires
        anchor >= 0,
        index >= 0,
    ensures
        range_ids(items, anchor, index) == range_ids(items, index, anchor).reverse(),
{
    let n = items.len() as int;
    if anchor == index {
        let part = items.subrange(
            crate::clipboard_list::lesser(anchor, n),
            crate::clipboard_list::lesser(index + 1, n),
        );
        part.lemma_filter_len(selectable());
        assert(selectable_ids(part).len() <= 1);
    }
    assert(range_ids(items, anchor, index) =~= range_ids(items, index, anchor).reverse());
}

/// The step down and the step up undo each other.
pub proof fn law_step_up_undoes_step_down<S>(
    w: ListWorld<S>,
    i: int,
    down: ScrollStrategy,
    up: ScrollStrategy,
)
    requires
        w.list.selected_index == Some(i),
        w.list.can_select(i),
        next_row(w.list.items, i + 1) is Some,
    ensures
        w.select_next(down).select_previous(up).list.selected_index == Some(i),
        w.select_next(down).select_previous(up).list.selected_ids == seq![w.list.items[i].id],
{
    let items = w.list.items;
    let j = next_row(items, i + 1).unwrap();
    assert(is_next_row(items, i + 1, j));
    assert(is_previous_row(items, j - 1, i));
    let k = previous_row(items, j - 1).unwrap();
    assert(is_previous_row(items, j - 1, k));
    assert(k == i) by {
        if k < i {
            assert(is_pending(items[i]));
        }
        if k > i {
            assert(is_pending(items[k]));
        }
    }
}

/// After other rows are shown, nothing is selected that is not there: every
/// selected item is a row that can be selected, and the count is right. Where the
/// rows take the place of the present ones, the hovered row is no placeholder.
pub proof fn law_other_rows_leave_no_dead_selection<S>(
    w: ListWorld<S>,
    items: Seq<ClipboardItem>,
    sizes: Seq<S>,
)
    ensures
        w.resync(items, sizes).list.selection_is_alive(),
        w.resync(items, sizes).list.wf(),
        w.resync(items, sizes).list.hovered_index matches Some(i) ==> w.resync(
            items,
            sizes,
        ).list.can_select(i),
        w.restart(items, sizes).list.selection_is_alive(),
        w.restart(items, sizes).list.wf(),
        w.replaced(items, sizes).list.selection_is_alive(),
        w.replaced(items, sizes).list.wf(),
{
    let kept = w.app.selected_ids.filter(available(items));
    assert forall|k: int| 0 <= k < kept.len() implies selectable_ids(items).contains(
        #[trigger] kept[k],
    ) by {
        w.app.selected_ids.lemma_filter_pred(available(items), k);
    }
    assert forall|i: int| 0 <= i < items.len() && !is_pending(items[i]) implies selectable_ids(
        items,
    ).contains(#[trigger] items[i].id) by {
        lemma_row_is_available(items, i);
    }
    if let Some(id) = id_at(w.list.items, w.list.hovered_index) {
        lemma_found_row(items, with_id(id));
    }
}

/// A selection of which every item is still there is kept as it is, in its
/// order.
pub proof fn law_other_rows_keep_a_living_selection<S>(
    w: ListWorld<S>,
    items: Seq<ClipboardItem>,
    sizes: Seq<S>,
)
    requires
        w.app.selected_ids.len() > 0,
        forall|k: int|
            0 <= k < w.app.selected_ids.len() ==> selectable_ids(items).contains(
                #[trigger] w.app.selected_ids[k],
            ),
    ensures
        w.resync(items, sizes).list.selected_ids == w.app.selected_ids,
        w.resync(items, sizes).app.selected_ids == w.app.selected_ids,
{
    lemma_filter_all(w.app.selected_ids, available(items));
}

/// Two lists with the same rows hold the same ids.
proof fn lemma_moved_row<S>(
    before: Seq<(ClipboardItem, S)>,
    after: Seq<(ClipboardItem, S)>,
    i: int,
) -> (j: int)
    requires
        after.to_multiset() == before.to_multiset(),
        0 <= i < before.len(),
    ensures
        0 <= j < after.len(),
        after[j] == before[i],
{
    before.to_multiset_ensures();
    after.to_multiset_ensures();
    assert(before.contains(before[i]));
    assert(before.to_multiset().count(before[i]) > 0);
    assert(after.contains(before[i]));
    let j = choose|j: int| 0 <= j < after.len() && after[j] == before[i];
    j
}

/// Where a use of items is shown by moving rows, every row keeps its item and
/// the size of its card, and the active, the anchor and the hovered row stay on
/// the items that they were on.
pub proof fn law_moved_rows_keep_sizes_and_active_items<S>(
    w: ListWorld<S>,
    items: Seq<ClipboardItem>,
    sizes: Seq<S>,
    sort_by_created: bool,
    favorites_first: bool,
)
    requires
        w.moves_rows(),
        items.len() == sizes.len(),
        is_usage_order(
            rows(
                refreshed(w.list.items, w.app.items, w.app.usage_touched),
                w.list.item_sizes,
            ),
            rows(items, sizes),
            sort_by_created,
            favorites_first,
        ),
    ensures
        items.len() == w.list.items.len(),
        forall|i: int|
            0 <= i < w.list.items.len() ==> exists|j: int|
                #![trigger items[j]]
                0 <= j < items.len() && items[j].id == (#[trigger] w.list.items[i]).id && sizes[j]
                    == w.list.item_sizes[i],
        ({
            let before = w.list;
            let after = w.moved(items, sizes).list;
            &&& id_at(after.items, after.selected_index) == id_at(
                before.items,
                before.selected_index,
            )
            &&& id_at(after.items, after.anchor_index) == id_at(
                before.items,
                before.anchor_index,
            )
            &&& id_at(after.items, after.hovered_index) == id_at(
                before.items,
                before.hovered_index,
            )
            &&& after.selected_ids == before.selected_ids
        }),
{
    let old_rows = rows(
        refreshed(w.list.items, w.app.items, w.app.usage_touched),
        w.list.item_sizes,
    );
    let new_rows = rows(items, sizes);
    law_usage_reorder_keeps_every_row(old_rows, new_rows, sort_by_created, favorites_first);
    assert(old_rows.len() == w.list.items.len());
    assert(new_rows.len() == items.len());
    assert forall|i: int| 0 <= i < w.list.items.len() implies exists|j: int|
        #![trigger items[j]]
        0 <= j < items.len() && items[j].id == (#[trigger] w.list.items[i]).id && sizes[j]
            == w.list.item_sizes[i] by {
        let j = lemma_moved_row(old_rows, new_rows, i);
        assert(new_rows[j] == (items[j], sizes[j]));
        assert(old_rows[i].0.id == w.list.items[i].id);
    }
    assert forall|index: Option<int>| #[trigger]
        id_at(items, row_of(items, id_at(w.list.items, index))) == id_at(w.list.items, index) by {
        match id_at(w.list.items, index) {
            Some(id) => {
                let i = index.unwrap();
                assert(w.list.items[i].id == id);
                let j = choose|j: int|
                    #![trigger items[j]]
                    0 <= j < items.len() && items[j].id == w.list.items[i].id && sizes[j]
                        == w.list.item_sizes[i];
                lemma_some_row(items, with_id(id), j);
                lemma_found_row(items, with_id(id));
            },
            None => {},
        }
    }
}

/// A use of items leaves nothing selected that is not there: where other rows are
/// shown for it, whatever was selected before, and where rows are moved, if
/// nothing dead was selected before.
pub proof fn law_use_of_items_leaves_no_dead_selection<S>(
    w: ListWorld<S>,
    items: Seq<ClipboardItem>,
    sizes: Seq<S>,
    sort_by_created: bool,
    favorites_first: bool,
)
    requires
        w.moves_rows() ==> {
            &&& w.list.selection_is_alive()
            &&& items.len() == sizes.len()
            &&& is_usage_order(
                rows(
                    refreshed(w.list.items, w.app.items, w.app.usage_touched),
                    w.list.item_sizes,
                ),
                rows(items, sizes),
                sort_by_created,
                favorites_first,
            )
        },
    ensures
        w.moves_rows() ==> w.moved(items, sizes).list.selection_is_alive(),
        w.after_usage(items, sizes).list.selection_is_alive(),
{
    law_other_rows_leave_no_dead_selection(w, items, sizes);
    if w.moves_rows() {
        let old_rows = rows(
            refreshed(w.list.items, w.app.items, w.app.usage_touched),
            w.list.item_sizes,
        );
        let new_rows = rows(items, sizes);
        law_usage_reorder_keeps_every_row(old_rows, new_rows, sort_by_created, favorites_first);
        let ids = w.list.selected_ids;
        assert forall|k: int| 0 <= k < ids.len() implies selectable_ids(items).contains(
            #[trigger] ids[k],
        ) by {
            assert(selectable_ids(w.list.items).contains(ids[k]));
            lemma_selectable_ids(w.list.items, ids[k]);
            let i = choose|i: int|
                0 <= i < w.list.items.len() && (#[trigger] w.list.items[i]).id == ids[k]
                    && !is_pending(w.list.items[i]);
            let j = lemma_moved_row(old_rows, new_rows, i);
            assert(new_rows[j] == (items[j], sizes[j]));
            assert(old_rows[i].0.id == ids[k] && !is_pending(old_rows[i].0));
            lemma_row_is_available(items, j);
        }
        lemma_showing_stays_alive(w.moved(items, sizes), 0);
    } else {
        lemma_showing_stays_alive(w.replaced(items, sizes), 0);
    }
}

/// Each Escape ends one thing, so after four of them the list has no use for
/// another one.
pub proof fn law_escape_comes_to_an_end<S>(w: ListWorld<S>)
    requires
        w.list.wf(),
    ensures
        !w.escape(false).escape(false).escape(false).escape(false).escapes(),
{
    let a = w.escape(false);
    assert(!a.list.escape_consumed_inline);
    let b = a.escape(false);
    let c = b.escape(false);
    assert(!b.list.escape_consumed_inline);
    assert(b.list.recording_hotkey_id <= 0);
    assert(!c.list.busy());
    assert(c.list.wf());
}

/// An Escape that something edited in place has used is not used again by the
/// window.
pub proof fn law_escape_used_in_place_is_used_once<S>(w: ListWorld<S>)
    requires
        w.list.busy(),
        !w.list.escape_consumed_inline,
    ensures
        w.escape(true).escapes(),
        w.escape(true).escape(false).list == w.escape(false).list,
        w.escape(true).escape(false).app == w.escape(false).app,
{
}

/// The first half of a modified double click leaves the selection as it was, on
/// the only selected item, and needs a bare modifier that pastes.
pub proof fn law_double_click_begins_on_an_unchanged_selection<S>(
    w: ListWorld<S>,
    index: int,
    modifiers: Modifiers,
)
    ensures
        w.click_double(index, modifiers).list.modified_double_click_candidate matches Some(c) ==> {
            &&& w.list.only_selected(index)
            &&& w.click_double(index, modifiers).list.selected_ids == w.list.selected_ids
            &&& c.item_id == w.list.items[index].id
            &&& double_click_kind(modifiers) == Some(c.modifier)
        },
{
}

/// In single-click mode one gesture pastes at most once: the second click of a
/// fast double click asks for nothing.
pub proof fn law_one_paste_per_gesture<S>(w: ListWorld<S>, index: int, modifiers: Modifiers)
    requires
        paste_click_mode(w.app.settings.paste_click_mode@) == PasteClickMode::SingleClick,
    ensures
        w.click(index, modifiers).double_click(index, modifiers).app == w.click(
            index,
            modifiers,
        ).app,
        w.click(index, modifiers).app.requests.len() <= w.app.requests.len() + 2,
{
}

/// A double click with a modifier pastes nothing unless a click has begun it on
/// the same item.
pub proof fn law_modified_double_click_needs_a_beginning<S>(
    w: ListWorld<S>,
    index: int,
    modifiers: Modifiers,
)
    requires
        modifiers.count() > 0,
        w.list.modified_double_click_candidate matches Some(c) ==> c.item_id
            != w.list.items[index].id || double_click_kind(modifiers) != Some(c.modifier),
    ensures
        w.double_click(index, modifiers).app == w.app,
{
}

/// What is done in the toolbar of a card and with the keys selects no placeholder
/// either, as long as the active item is none.
pub proof fn law_actions_select_no_placeholder<S>(
    w: ListWorld<S>,
    name: Seq<char>,
    default_format: String,
    key: ListKey,
    modifiers: Modifiers,
)
    requires
        w.list.wf(),
        w.list.selection_is_alive(),
        id_at(w.list.items, w.list.selected_index) matches Some(id) ==> selectable_ids(
            w.list.items,
        ).contains(id),
        w.list.anchor_index matches Some(a) ==> a >= 0,
    ensures
        w.choose_in_toolbar(name, default_format).list.selection_is_alive(),
        w.press(key, modifiers).list.selection_is_alive(),
{
    lemma_toolbar_stays_alive(w, name, default_format);
    lemma_primary_keys_stay_alive(w, key, modifiers.shift);
    lemma_plain_keys_stay_alive(w, key, modifiers.shift);
}

/// The same for the toolbar.
proof fn lemma_toolbar_stays_alive<S>(w: ListWorld<S>, name: Seq<char>, default_format: String)
    requires
        w.list.selection_is_alive(),
    ensures
        w.choose_in_toolbar(name, default_format).list.selection_is_alive(),
{
    if let Some(i) = w.list.hovered_index {
        if w.list.can_select(i) {
            lemma_row_is_available(w.list.items, i);
            lemma_select_stays_alive(w, i);
            lemma_act_stays_alive(
                w.select(i),
                toolbar_action(name),
                action_target(w.list.items[i]@, w.app.pinned_status_uid@),
                default_format,
            );
        }
    }
}

/// The same for an action on an item that can be selected.
proof fn lemma_act_stays_alive<S>(
    w: ListWorld<S>,
    action: CardAction,
    target: ActionTarget,
    default_format: String,
)
    requires
        w.list.selection_is_alive(),
        selectable_ids(w.list.items).contains(target.id),
    ensures
        action matches CardAction::Item(a) ==> w.act(
            a,
            target,
            default_format,
        ).list.selection_is_alive(),
{
    lemma_edit_stays_alive(w, target.id, target.note);
    let format = recording_format(w.list.items, target.id, default_format);
    let recording = world(
        ListModel {
            confirm_dialog: None,
            recording_hotkey_format: format@,
            recording_hotkey_id: target.id,
            ..w.list.panels_dismissed()
        },
        w.app.asking(Op::StartItemHotkeyRecording { id: target.id, format }),
    );
    lemma_locking_stays_alive(recording, target.id);
}

/// The same for editing a note.
proof fn lemma_edit_stays_alive<S>(w: ListWorld<S>, id: i64, text: Option<String>)
    requires
        w.list.selection_is_alive(),
        selectable_ids(w.list.items).contains(id),
    ensures
        w.edit_note(id, text).list.selection_is_alive(),
{
    let editing = world(ListModel { editing_note_id: id, ..w.list }, w.app);
    lemma_locking_stays_alive(editing, id);
}

/// The same for the keys with the primary modifier.
proof fn lemma_primary_keys_stay_alive<S>(w: ListWorld<S>, key: ListKey, shift: bool)
    requires
        w.list.wf(),
        w.list.selection_is_alive(),
        w.list.anchor_index matches Some(a) ==> a >= 0,
    ensures
        w.press_primary(key, shift).list.selection_is_alive(),
{
    let after = w.press_primary(key, shift).list;
    if key is A {
        lemma_selecting_stays_alive(w, 0, ScrollStrategy::Top);
    } else {
        assert(after.items == w.list.items && after.selected_ids == w.list.selected_ids);
    }
}

/// The same for the keys without the primary modifier.
proof fn lemma_plain_keys_stay_alive<S>(w: ListWorld<S>, key: ListKey, shift: bool)
    requires
        w.list.wf(),
        w.list.selection_is_alive(),
        id_at(w.list.items, w.list.selected_index) matches Some(id) ==> selectable_ids(
            w.list.items,
        ).contains(id),
        w.list.anchor_index matches Some(a) ==> a >= 0,
    ensures
        w.press_plain(key, shift).list.selection_is_alive(),
{
    let after = w.press_plain(key, shift).list;
    match key {
        ListKey::Up => {
            lemma_selecting_stays_alive(w.dismiss(), 0, ScrollStrategy::Top);
        },
        ListKey::Down => {
            lemma_selecting_stays_alive(w.dismiss(), 0, ScrollStrategy::Bottom);
        },
        ListKey::F2 => {
            if let Some(id) = id_at(w.list.items, w.list.selected_index) {
                lemma_edit_stays_alive(
                    w,
                    id,
                    Some(w.list.items[w.list.selected_index.unwrap()].note),
                );
            }
        },
        ListKey::Escape => {
            lemma_selecting_stays_alive(w, 0, ScrollStrategy::Top);
        },
        _ => {
            assert(after.items == w.list.items && after.selected_ids == w.list.selected_ids);
        },
    }
}

/// A placeholder is not touched: a click on it and its toolbar do nothing, and a
/// double click and a right click only end what a click has begun.
pub proof fn law_placeholders_ignore_clicks<S>(
    w: ListWorld<S>,
    index: int,
    modifiers: Modifiers,
    name: Seq<char>,
    default_format: String,
)
    requires
        w.list.is_placeholder(index),
    ensures
        w.click(index, modifiers) == w,
        w.double_click(index, modifiers) == world(w.list.without_candidate(), w.app),
        w.right_click(index) == world(w.list.without_candidate(), w.app),
        w.list.hovered_index == Some(index) && !begins_with(name, "batch_"@) && name
            != "merge_selected"@ ==> w.choose_in_toolbar(name, default_format) == w,
{
}

/// Moving the pointer never changes a selection of several items, and nothing at
/// all while an item is edited in place.
pub proof fn law_pointer_keeps_a_multi_selection<S>(
    w: ListWorld<S>,
    index: int,
    modifiers: Modifiers,
)
    ensures
        w.list.selected_ids.len() > 1 ==> w.hover(index, modifiers).list.selected_ids
            == w.list.selected_ids,
        w.list.locked_item() is Some ==> w.hover(index, modifiers) == w,
{
}

/// The item that was active when the window was hidden is active again when its
/// rows are shown, unless the settings ask for the latest used item.
pub proof fn law_hidden_window_remembers_the_active_item<S>(
    w: ListWorld<S>,
    items: Seq<ClipboardItem>,
    sizes: Seq<S>,
    id: i64,
    i: int,
)
    requires
        id_at(w.list.items, w.list.selected_index) == Some(id),
        first_row(items, selectable_with_id(id)) == Some(i),
        !w.app.settings.auto_scroll_to_top,
    ensures
        ({
            let shown = world(w.list.released(), w.app).restart(items, sizes);
            &&& shown.list.selected_ids == seq![id]
            &&& shown.list.selected_index == Some(i)
            &&& shown.app.selected_ids == seq![id]
        }),
{
    lemma_found_row(items, selectable_with_id(id));
    assert(is_first_row(items, selectable_with_id(id), i));
}

/// The item that was active when the window was hidden is remembered while there
/// is no row, or none but placeholders: nothing is selected then, and the item is
/// active again when its rows are shown, unless the settings ask for the latest
/// used item.
pub proof fn law_empty_rows_keep_the_remembered_item<S>(
    w: ListWorld<S>,
    placeholders: Seq<ClipboardItem>,
    placeholder_sizes: Seq<S>,
    items: Seq<ClipboardItem>,
    sizes: Seq<S>,
    id: i64,
    i: int,
)
    requires
        id_at(w.list.items, w.list.selected_index) == Some(id),
        forall|k: int| 0 <= k < placeholders.len() ==> is_pending(#[trigger] placeholders[k]),
        first_row(items, selectable_with_id(id)) == Some(i),
        !w.app.settings.auto_scroll_to_top,
    ensures
        ({
            let empty = world(w.list.released(), w.app).restart(placeholders, placeholder_sizes);
            let shown = empty.restart(items, sizes);
            &&& empty.list.selected_ids == Seq::<i64>::empty()
            &&& empty.list.selected_index is None
            &&& empty.list.last_selected_id == Some(id)
            &&& shown.list.selected_ids == seq![id]
            &&& shown.list.selected_index == Some(i)
            &&& shown.app.selected_ids == seq![id]
        }),
{
    lemma_found_row(placeholders, selectable_with_id(id));
    lemma_found_row(placeholders, selectable());
    lemma_found_row(items, selectable_with_id(id));
    assert(is_first_row(items, selectable_with_id(id), i));
}

} // verus!
