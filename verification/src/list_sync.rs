//! How the clipboard list follows the application state.

use vstd::prelude::*;

use crate::app_state::{AppState, Op, ScrollStrategy};
use crate::clipboard_list::{world, ClipboardListView, ListModel, ListWorld, TagPickerAnchor};
use crate::filters::{lemma_filter_all, lemma_filter_start, lemma_filter_step};
use crate::ids::contains_id;
use crate::items::{
    any_item, can_incrementally_sync_usage, collect_selectable_ids, combine_with_pending, first_row,
    first_selectable_row, id_at, incremental_sync_is_safe, is_combined, is_pending, item_id_at,
    item_index, item_is_pending, latest_item_row, latest_row, position_of_item, row, row_of,
    selectable, selectable_ids, selectable_row_of, selectable_with_id,
};
use crate::rows::{
    compute_sizes, estimates, join_rows, refresh_usage, refreshed, rows, sized, split_rows,
};
use crate::text::str_eq;
use crate::theme::ClippiTheme;
use crate::types::{copy_pending, ClipboardItem, PendingImageView};
use crate::usage_order::{is_usage_order, reorder_usage_pairs};

verus! {

/// Holds of the ids of items that can be selected.
pub open spec fn available(items: Seq<ClipboardItem>) -> spec_fn(i64) -> bool {
    |id: i64| selectable_ids(items).contains(id)
}

/// The row of an item, where the item is one of `kept`.
pub open spec fn kept_row(
    items: Seq<ClipboardItem>,
    kept: Seq<i64>,
    id: Option<i64>,
) -> Option<int> {
    match row_of(items, id) {
        Some(i) => if kept.contains(items[i].id) {
            Some(i)
        } else {
            None
        },
        None => None,
    }
}

/// The row that replaces a selection of which nothing is left: the one at the
/// same place, if it can be selected, else the first that can.
pub open spec fn fallback_row(items: Seq<ClipboardItem>, index: Option<int>) -> Option<int> {
    match index {
        Some(i) => if 0 <= i < items.len() && !is_pending(items[i]) {
            Some(i)
        } else {
            first_row(items, selectable())
        },
        None => first_row(items, selectable()),
    }
}

/// The row of an item, where it can be selected.
pub open spec fn selectable_row(items: Seq<ClipboardItem>, id: Option<i64>) -> Option<int> {
    match row_of(items, id) {
        Some(i) => if is_pending(items[i]) {
            None
        } else {
            Some(i)
        },
        None => None,
    }
}

/// A row, if there is one; else another one.
pub open spec fn row_or(row: Option<int>, other: Option<int>) -> Option<int> {
    match row {
        Some(i) => Some(i),
        None => other,
    }
}

/// A row, if the list is that long.
pub open spec fn row_within(row: Option<int>, len: nat) -> Option<int> {
    match row {
        Some(i) => if i < len {
            Some(i)
        } else {
            None
        },
        None => None,
    }
}

impl<S> ListModel<S> {
    /// The same list with other rows.
    pub open spec fn with_items(
        self,
        items: Seq<ClipboardItem>,
        sizes: Seq<S>,
        pending: Seq<PendingImageView>,
    ) -> Self {
        ListModel { items, item_sizes: sizes, pending_images: pending, ..self }
    }

    /// How many rows the list scrolls over: one for each item, and an empty one
    /// after the last.
    pub open spec fn scrolled_rows(self) -> nat {
        if self.item_sizes.len() == 0 {
            0
        } else {
            self.item_sizes.len() + 1
        }
    }

    /// The same list without rows and with nothing open, the active item
    /// remembered.
    pub open spec fn released(self) -> Self {
        ListModel {
            items: Seq::empty(),
            item_sizes: Seq::empty(),
            confirm_dialog: None,
            editing_note_id: -1i64,
            escape_consumed_inline: false,
            ..self.remembering().deselected().panels_dismissed()
        }
    }
}

impl<S> ListWorld<S> {
    /// A row selected, where it can be, and scrolled to in any case.
    pub open spec fn select_and_scroll(self, index: int) -> Self {
        self.select(index).ask(
            Op::ScrollTo { index: index as usize, strategy: ScrollStrategy::Top },
        )
    }

    /// The latest used of the items that can be selected shown, where the
    /// settings ask for it; else the item that was last active, if it is there;
    /// and if nothing is selected then, the first that can be.
    pub open spec fn settle(self) -> Self {
        let items = self.list.items;
        let shown = if self.app.settings.auto_scroll_to_top && items.len() > 0 {
            self.select_and_scroll(latest_row(items, selectable()))
        } else {
            match self.list.last_selected_id {
                Some(id) => match first_row(items, selectable_with_id(id)) {
                    Some(i) => self.select_and_scroll(i),
                    None => self,
                },
                None => self,
            }
        };
        if shown.list.selected_index is None {
            match first_row(items, selectable()) {
                Some(i) => shown.select(i),
                None => shown,
            }
        } else {
            shown
        }
    }

    /// Other rows shown from a fresh start.
    pub open spec fn restart(self, items: Seq<ClipboardItem>, sizes: Seq<S>) -> Self {
        world(
            self.list.remembering().with_items(
                items,
                sizes,
                self.app.pending_images,
            ).deselected(),
            self.app.usage_taken(),
        ).settle()
    }

    /// The selection carried over to rows that have changed: the application's
    /// selected items that are still there, with the active and the anchor row
    /// on the same items, if they are still selected.
    pub open spec fn reconcile(
        self,
        active: Option<i64>,
        anchor: Option<i64>,
        index: Option<int>,
    ) -> Self {
        let items = self.list.items;
        let kept = self.app.selected_ids.filter(available(items));
        let list = self.list.with_selection(kept);
        if kept.len() > 0 {
            let first = row_of(items, Some(kept[0]));
            world(
                list.with_rows(
                    row_or(kept_row(items, kept, active), first),
                    row_or(kept_row(items, kept, anchor), first),
                ),
                self.app,
            ).mirrored()
        } else {
            let cleared = world(list.with_rows(None, None), self.app);
            match fallback_row(items, index) {
                Some(i) => cleared.select(i),
                None => cleared,
            }
        }
    }

    /// An item hovered, where it is a row that can be selected; else nothing.
    pub open spec fn hover_item(self, id: Option<i64>) -> Self {
        world(
            ListModel { hovered_index: selectable_row(self.list.items, id), ..self.list },
            self.app,
        )
    }

    /// Other rows shown in place of the present ones.
    pub open spec fn resync(self, items: Seq<ClipboardItem>, sizes: Seq<S>) -> Self {
        let before = self.list;
        world(
            before.with_items(items, sizes, self.app.pending_images),
            self.app.usage_taken(),
        ).reconcile(
            id_at(before.items, before.selected_index),
            id_at(before.items, before.anchor_index),
            before.selected_index,
        ).hover_item(id_at(before.items, before.hovered_index))
    }

    /// The latest used item shown, where the settings ask for it.
    pub open spec fn show_latest(self, wanted: bool) -> Self {
        if wanted && self.list.items.len() > 0 {
            self.select_and_scroll(latest_row(self.list.items, any_item()))
        } else {
            self
        }
    }

    /// Whether the settings ask for cards of another height.
    pub open spec fn heights_differ(self) -> bool {
        self.list.card_height_mode@ != self.app.settings.card_height_mode@
    }

    /// The settings taken over, with these sizes where cards have another height.
    pub open spec fn refresh_settings(self, scroll_to_top: bool, sizes: Seq<S>) -> Self {
        let resized = if self.heights_differ() {
            world(
                ListModel {
                    card_height_mode: self.app.settings.card_height_mode,
                    item_sizes: sizes,
                    ..self.list
                },
                self.app,
            )
        } else {
            self
        };
        resized.show_latest(scroll_to_top)
    }

    /// Whether a use of items can be shown by moving rows alone.
    pub open spec fn moves_rows(self) -> bool {
        incremental_sync_is_safe(
            self.list.items,
            self.list.item_sizes.len(),
            self.app.items,
            self.app.usage_touched,
            self.app.transfer_filter_active,
            self.app.usage_force_reload,
        )
    }

    /// Whether these are the rows of the list in the order of use, with the times
    /// of the items that were used. Favorites stay in front where a search puts
    /// them there, unless there is nothing else.
    pub open spec fn orders_by_use(self, items: Seq<ClipboardItem>, sizes: Seq<S>) -> bool {
        is_usage_order(
            rows(
                refreshed(self.list.items, self.app.items, self.app.usage_touched),
                self.list.item_sizes,
            ),
            rows(items, sizes),
            self.app.settings.sort_by_created,
            self.app.favorites_first() && !self.app.filters.favorites_only,
        )
    }

    /// The present rows in another order, with the same items active, anchored
    /// and hovered.
    pub open spec fn moved(self, items: Seq<ClipboardItem>, sizes: Seq<S>) -> Self {
        let before = self.list;
        world(
            ListModel {
                items,
                item_sizes: sizes,
                selected_index: row_of(items, id_at(before.items, before.selected_index)),
                anchor_index: row_of(items, id_at(before.items, before.anchor_index)),
                hovered_index: row_of(items, id_at(before.items, before.hovered_index)),
                ..before
            },
            self.app.usage_taken(),
        )
    }

    /// Other rows shown after a use of items, with the same items active,
    /// anchored and hovered, as far as they are still there.
    pub open spec fn replaced(self, items: Seq<ClipboardItem>, sizes: Seq<S>) -> Self {
        let before = self.list;
        let after = self.resync(items, sizes);
        world(
            ListModel {
                selected_index: row_or(
                    row_of(items, id_at(before.items, before.selected_index)),
                    row_within(after.list.selected_index, items.len()),
                ),
                anchor_index: row_or(
                    row_of(items, id_at(before.items, before.anchor_index)),
                    row_within(after.list.anchor_index, items.len()),
                ),
                hovered_index: row_of(items, id_at(before.items, before.hovered_index)),
                ..after.list
            },
            after.app,
        )
    }

    /// The list as a use of items leaves it, shown in these rows.
    pub open spec fn after_usage(self, items: Seq<ClipboardItem>, sizes: Seq<S>) -> Self {
        let shown = if self.moves_rows() {
            self.moved(items, sizes)
        } else {
            self.replaced(items, sizes)
        };
        shown.show_latest(self.app.settings.auto_scroll_to_top)
    }

    /// The first row made the active one and shown, where favorites come first.
    pub open spec fn top_if_favorites_first(self) -> Self {
        if self.app.favorites_first() && self.list.items.len() > 0 {
            world(ListModel { hovered_index: None, ..self.list }, self.app).select_and_scroll(0)
        } else {
            self
        }
    }

    /// A toggled item made the active one and shown, where favorites come first;
    /// the first row where the item is gone.
    pub open spec fn reselect_toggled(self, id: i64) -> Self {
        if self.app.favorites_first() && self.list.items.len() > 0 {
            let list = ListModel { hovered_index: None, ..self.list };
            match row_of(list.items, Some(id)) {
                Some(i) => world(list, self.app).select_and_scroll(i),
                None => world(list, self.app).top_if_favorites_first(),
            }
        } else {
            self
        }
    }

    /// An item made the active one and shown, where it is a row.
    pub open spec fn bring_up(self, id: i64) -> Self {
        match row_of(self.list.items, Some(id)) {
            Some(i) => if id > 0 {
                self.select_and_scroll(i)
            } else {
                self
            },
            None => self,
        }
    }
}

/// Collects the ids that belong to items that can be selected.
fn keep_available(ids: &[i64], items: &[ClipboardItem]) -> (r: Vec<i64>)
    ensures
        r@ == ids@.filter(available(items@)),
{
    let all = collect_selectable_ids(items);
    let ghost keep = available(items@);
    let mut r: Vec<i64> = Vec::new();
    let mut i: usize = 0;
    proof {
        lemma_filter_start(ids@, keep);
    }
    while i < ids.len()
        invariant
            0 <= i <= ids.len(),
            all@ == selectable_ids(items@),
            keep == available(items@),
            r@ == ids@.take(i as int).filter(keep),
        decreases ids.len() - i,
    {
        proof {
            lemma_filter_step(ids@, keep, i as int);
        }
        if contains_id(all.as_slice(), ids[i]) {
            r.push(ids[i]);
        }
        i += 1;
    }
    assert(ids@.take(i as int) =~= ids@);
    r
}

/// The row of an item, where the item is one of `kept`.
fn find_kept_row(items: &[ClipboardItem], kept: &[i64], id: Option<i64>) -> (r: Option<usize>)
    ensures
        row(r) == kept_row(items@, kept@, id),
{
    match item_index(items, id) {
        Some(i) => {
            if contains_id(kept, items[i].id) {
                Some(i)
            } else {
                None
            }
        },
        None => None,
    }
}

impl<S> ClipboardListView<S> {
    /// A list of these items, with nothing selected and nothing open.
    pub fn new<F: Fn(&ClipboardItem, &String) -> S>(
        items: Vec<ClipboardItem>,
        app: &AppState,
        theme: ClippiTheme,
        lang_version: u64,
        estimate: &F,
    ) -> (r: Self)
        requires
            estimates(*estimate),
        ensures
            sized(r@.item_sizes, items@, app@.settings.card_height_mode, *estimate),
            r@ == (ListModel {
                items: items@,
                pending_images: Seq::empty(),
                item_sizes: r@.item_sizes,
                card_height_mode: app@.settings.card_height_mode,
                selected_ids: Seq::empty(),
                selected_index: None,
                anchor_index: None,
                hovered_index: None,
                context_menu_visible: false,
                context_menu_item: None,
                context_menu_is_batch: false,
                tag_picker_visible: false,
                tag_picker_anchor: TagPickerAnchor::Unplaced,
                tag_picker_item_id: -1i64,
                tag_picker_is_batch: false,
                selected_count: 0,
                editing_note_id: -1i64,
                confirm_dialog: None,
                last_selected_id: None,
                theme,
                last_lang_version: lang_version,
                recording_hotkey_id: -1i64,
                recording_hotkey_format: Seq::empty(),
                escape_consumed_inline: false,
                modified_double_click_candidate: None,
            }),
            r@.wf(),
    {
        let card_height_mode = app.settings.card_height_mode.clone();
        let item_sizes = compute_sizes(items.as_slice(), &card_height_mode, estimate);
        ClipboardListView {
            items,
            pending_images: Vec::new(),
            item_sizes,
            card_height_mode,
            selected_ids: Vec::new(),
            selected_index: None,
            anchor_index: None,
            hovered_index: None,
            context_menu_visible: false,
            context_menu_item: None,
            context_menu_is_batch: false,
            tag_picker_visible: false,
            tag_picker_anchor: TagPickerAnchor::Unplaced,
            tag_picker_item_id: -1,
            tag_picker_is_batch: false,
            selected_count: 0,
            editing_note_id: -1,
            confirm_dialog: None,
            last_selected_id: None,
            theme,
            last_lang_version: lang_version,
            recording_hotkey_id: -1,
            recording_hotkey_format: String::new(),
            escape_consumed_inline: false,
            modified_double_click_candidate: None,
        }
    }

    /// How many rows the list scrolls over: one for each item, and an empty one
    /// at the end so that the last item can scroll fully into view.
    pub fn row_count(&self) -> (r: usize)
        requires
            self@.item_sizes.len() < usize::MAX,
        ensures
            r == self@.scrolled_rows(),
    {
        if self.item_sizes.len() == 0 {
            0
        } else {
            self.item_sizes.len() + 1
        }
    }

    /// Selects a row, where it can be selected, and scrolls to it.
    fn select_and_scroll_to(&mut self, index: usize, app: &mut AppState)
        requires
            old(self)@.wf(),
        ensures
            world(final(self)@, final(app)@) == world(old(self)@, old(app)@).select_and_scroll(
                index as int,
            ),
            final(self)@.wf(),
    {
        self.select_index_without_scroll(index, app);
        app.request(Op::ScrollTo { index, strategy: ScrollStrategy::Top });
    }

    /// Remembers the active item.
    fn remember_active(&mut self)
        ensures
            final(self)@ == old(self)@.remembering(),
    {
        let active = item_id_at(self.items.as_slice(), self.selected_index);
        if active.is_some() {
            self.last_selected_id = active;
        }
    }

    /// Drops the selection, the hovered row and any double click that has begun.
    fn deselect(&mut self)
        ensures
            final(self)@ == old(self)@.deselected(),
    {
        self.selected_ids.clear();
        self.selected_index = None;
        self.anchor_index = None;
        self.selected_count = 0;
        self.hovered_index = None;
        self.modified_double_click_candidate = None;
    }

    /// Shows the placeholders of the pending images and these items as the rows.
    fn replace_rows<F: Fn(&ClipboardItem, &String) -> S>(
        &mut self,
        items: Vec<ClipboardItem>,
        app: &AppState,
        estimate: &F,
    )
        requires
            estimates(*estimate),
            app@.pending_images.len() <= i64::MAX - 2,
        ensures
            is_combined(final(self)@.items, app@.pending_images, items@),
            sized(
                final(self)@.item_sizes,
                final(self)@.items,
                old(self)@.card_height_mode,
                *estimate,
            ),
            final(self)@ == old(self)@.with_items(
                final(self)@.items,
                final(self)@.item_sizes,
                app@.pending_images,
            ),
    {
        self.pending_images = copy_pending(app.pending_images.as_slice());
        let combined = combine_with_pending(self.pending_images.as_slice(), items);
        self.item_sizes = compute_sizes(combined.as_slice(), &self.card_height_mode, estimate);
        self.items = combined;
    }

    /// Selects what a fresh start selects.
    fn settle(&mut self, app: &mut AppState)
        requires
            old(self)@.wf(),
        ensures
            world(final(self)@, final(app)@) == world(old(self)@, old(app)@).settle(),
            final(self)@.items == old(self)@.items,
            final(self)@.item_sizes == old(self)@.item_sizes,
            final(self)@.wf(),
    {
        if app.settings.auto_scroll_to_top && self.items.len() > 0 {
            let latest = latest_item_row(self.items.as_slice(), false);
            self.select_and_scroll_to(latest, app);
        } else if let Some(last_selected_id) = self.last_selected_id {
            if let Some(index) = selectable_row_of(self.items.as_slice(), last_selected_id) {
                self.select_and_scroll_to(index, app);
            }
        }
        if self.selected_index.is_none() {
            if let Some(index) = first_selectable_row(self.items.as_slice()) {
                self.select_index_without_scroll(index, app);
            }
        }
    }

    /// Shows other items from a fresh start.
    pub fn set_items<F: Fn(&ClipboardItem, &String) -> S>(
        &mut self,
        items: Vec<ClipboardItem>,
        app: &mut AppState,
        estimate: &F,
    )
        requires
            estimates(*estimate),
            old(app)@.pending_images.len() <= i64::MAX - 2,
        ensures
            is_combined(final(self)@.items, old(app)@.pending_images, items@),
            sized(
                final(self)@.item_sizes,
                final(self)@.items,
                old(self)@.card_height_mode,
                *estimate,
            ),
            world(final(self)@, final(app)@) == world(old(self)@, old(app)@).restart(
                final(self)@.items,
                final(self)@.item_sizes,
            ),
            final(self)@.wf(),
    {
        app.clear_usage_sync_request();
        self.remember_active();
        self.replace_rows(items, app, estimate);
        self.deselect();
        self.settle(app);
    }

    /// Whether a search puts favorites before the other items.
    fn favorites_first_active(app: &AppState) -> (r: bool)
        ensures
            r == app@.favorites_first(),
    {
        app.settings.search_favorites_first && app.filters.keyword_set
    }

    /// Makes the first row the active one and shows it, where favorites come
    /// first.
    pub fn select_and_scroll_to_top_if_favorites_first(&mut self, app: &mut AppState)
        requires
            old(self)@.wf(),
        ensures
            world(final(self)@, final(app)@) == world(
                old(self)@,
                old(app)@,
            ).top_if_favorites_first(),
            final(self)@.wf(),
    {
        if Self::favorites_first_active(app) && self.items.len() > 0 {
            self.hovered_index = None;
            self.select_and_scroll_to(0, app);
        }
    }

    /// Keeps a toggled item active and shows it at its new place, where favorites
    /// come first; the first row where the item is gone.
    pub fn reselect_toggled_item_if_favorites_first(&mut self, item_id: i64, app: &mut AppState)
        requires
            old(self)@.wf(),
        ensures
            world(final(self)@, final(app)@) == world(old(self)@, old(app)@).reselect_toggled(
                item_id,
            ),
            final(self)@.wf(),
    {
        if !Self::favorites_first_active(app) || self.items.len() == 0 {
            return;
        }
        self.hovered_index = None;
        match position_of_item(self.items.as_slice(), item_id) {
            Some(index) => self.select_and_scroll_to(index, app),
            None => self.select_and_scroll_to_top_if_favorites_first(app),
        }
    }

    /// Makes an item the active one and shows it, where it is a row.
    pub fn scroll_to_item_if_visible(&mut self, item_id: i64, app: &mut AppState)
        requires
            old(self)@.wf(),
        ensures
            world(final(self)@, final(app)@) == world(old(self)@, old(app)@).bring_up(item_id),
            final(self)@.wf(),
    {
        if item_id <= 0 {
            return;
        }
        if let Some(index) = position_of_item(self.items.as_slice(), item_id) {
            self.select_and_scroll_to(index, app);
        }
    }

    /// Drops the list's own copies of the items while the window is hidden. The
    /// active item is remembered.
    pub fn release_items_for_hide(&mut self, app: &mut AppState)
        ensures
            final(self)@ == old(self)@.released(),
            final(app)@ == old(app)@.asking(Op::ReleaseImages),
            final(self)@.wf(),
    {
        self.remember_active();
        self.items = Vec::new();
        self.item_sizes = Vec::new();
        self.deselect();
        self.dismiss_all_panels();
        self.confirm_dialog = None;
        self.editing_note_id = -1;
        self.escape_consumed_inline = false;
        app.request(Op::ReleaseImages);
    }

    /// Dismisses the context menu and the tag picker.
    pub fn dismiss_all_panels(&mut self)
        ensures
            final(self)@ == old(self)@.panels_dismissed(),
    {
        self.context_menu_visible = false;
        self.context_menu_item = None;
        self.hovered_index = None;
        self.tag_picker_visible = false;
        self.tag_picker_item_id = -1;
    }

    /// Keeps the active and the anchor row on the same items, where they are
    /// still selected.
    fn keep_rows(&mut self, active: Option<i64>, anchor: Option<i64>)
        requires
            old(self)@.selected_ids.len() > 0,
        ensures
            final(self)@ == ({
                let list = old(self)@;
                let first = row_of(list.items, Some(list.selected_ids[0]));
                list.with_rows(
                    row_or(kept_row(list.items, list.selected_ids, active), first),
                    row_or(kept_row(list.items, list.selected_ids, anchor), first),
                )
            }),
    {
        let first = position_of_item(self.items.as_slice(), self.selected_ids[0]);
        let active_row = find_kept_row(
            self.items.as_slice(),
            self.selected_ids.as_slice(),
            active,
        );
        let anchor_row = find_kept_row(
            self.items.as_slice(),
            self.selected_ids.as_slice(),
            anchor,
        );
        self.selected_index = match active_row {
            Some(i) => Some(i),
            None => first,
        };
        self.anchor_index = match anchor_row {
            Some(i) => Some(i),
            None => first,
        };
    }

    /// The row that replaces a selection of which nothing is left.
    fn find_fallback_row(&self, index: Option<usize>) -> (r: Option<usize>)
        ensures
            row(r) == fallback_row(self@.items, row(index)),
    {
        match index {
            Some(i) => {
                if i < self.items.len() && !item_is_pending(&self.items[i]) {
                    Some(i)
                } else {
                    first_selectable_row(self.items.as_slice())
                }
            },
            None => first_selectable_row(self.items.as_slice()),
        }
    }

    /// Carries the selection over to rows that have changed.
    fn reconcile_selection(
        &mut self,
        previous_selected_id: Option<i64>,
        previous_anchor_id: Option<i64>,
        previous_selected_index: Option<usize>,
        app: &mut AppState,
    )
        ensures
            world(final(self)@, final(app)@) == world(old(self)@, old(app)@).reconcile(
                previous_selected_id,
                previous_anchor_id,
                row(previous_selected_index),
            ),
            final(self)@.items == old(self)@.items,
            final(self)@.item_sizes == old(self)@.item_sizes,
            final(self)@.wf(),
    {
        let kept = keep_available(app.selected_ids.as_slice(), self.items.as_slice());
        let kept_count = kept.len();
        self.selected_ids = kept;
        self.selected_count = kept_count;
        assert(self@ == old(self)@.with_selection(kept@));
        if kept_count > 0 {
            self.keep_rows(previous_selected_id, previous_anchor_id);
            if kept_count != app.selected_ids.len() {
                app.range_select(self.selected_ids.as_slice());
            } else {
                proof {
                    lemma_filter_all(old(app)@.selected_ids, available(self.items@));
                }
            }
        } else {
            self.selected_index = None;
            self.anchor_index = None;
            let fallback = self.find_fallback_row(previous_selected_index);
            if let Some(index) = fallback {
                self.select_index_without_scroll(index, app);
            }
        }
    }

    /// Hovers an item, where it is a row that can be selected; else nothing.
    fn hover_item(&mut self, id: Option<i64>)
        ensures
            final(self)@ == (ListModel {
                hovered_index: selectable_row(old(self)@.items, id),
                ..old(self)@
            }),
    {
        self.hovered_index = match item_index(self.items.as_slice(), id) {
            Some(i) => {
                if item_is_pending(&self.items[i]) {
                    None
                } else {
                    Some(i)
                }
            },
            None => None,
        };
    }

    /// Carries the selection and the hovered row over to rows that have changed.
    fn reconcile_selection_after_items_changed(
        &mut self,
        previous_selected_id: Option<i64>,
        previous_anchor_id: Option<i64>,
        previous_hovered_id: Option<i64>,
        previous_selected_index: Option<usize>,
        app: &mut AppState,
    )
        ensures
            world(final(self)@, final(app)@) == world(old(self)@, old(app)@).reconcile(
                previous_selected_id,
                previous_anchor_id,
                row(previous_selected_index),
            ).hover_item(previous_hovered_id),
            final(self)@.items == old(self)@.items,
            final(self)@.item_sizes == old(self)@.item_sizes,
            final(self)@.wf(),
    {
        self.reconcile_selection(
            previous_selected_id,
            previous_anchor_id,
            previous_selected_index,
            app,
        );
        self.hover_item(previous_hovered_id);
    }

    /// Brings the list up to date with the visible items, keeping what of the
    /// interaction state still applies.
    pub fn sync_items_from_state<F: Fn(&ClipboardItem, &String) -> S>(
        &mut self,
        visible_items: Vec<ClipboardItem>,
        app: &mut AppState,
        estimate: &F,
    )
        requires
            estimates(*estimate),
            old(app)@.pending_images.len() <= i64::MAX - 2,
        ensures
            is_combined(final(self)@.items, old(app)@.pending_images, visible_items@),
            sized(
                final(self)@.item_sizes,
                final(self)@.items,
                old(self)@.card_height_mode,
                *estimate,
            ),
            world(final(self)@, final(app)@) == world(old(self)@, old(app)@).resync(
                final(self)@.items,
                final(self)@.item_sizes,
            ),
            final(self)@.wf(),
    {
        app.clear_usage_sync_request();
        let previous_selected_id = item_id_at(self.items.as_slice(), self.selected_index);
        let previous_anchor_id = item_id_at(self.items.as_slice(), self.anchor_index);
        let previous_hovered_id = item_id_at(self.items.as_slice(), self.hovered_index);
        let previous_selected_index = self.selected_index;
        self.replace_rows(visible_items, app, estimate);
        self.reconcile_selection_after_items_changed(
            previous_selected_id,
            previous_anchor_id,
            previous_hovered_id,
            previous_selected_index,
            app,
        );
    }

    /// Shows the latest used item.
    fn show_latest_item(&mut self, app: &mut AppState)
        requires
            old(self)@.wf(),
        ensures
            world(final(self)@, final(app)@) == world(old(self)@, old(app)@).show_latest(true),
            final(self)@.wf(),
    {
        if self.items.len() > 0 {
            let latest = latest_item_row(self.items.as_slice(), true);
            self.select_and_scroll_to(latest, app);
        }
    }

    /// Moves the rows after a use of items, which keep their sizes.
    fn move_rows(&mut self, touched: &[i64], app: &AppState)
        requires
            old(self)@.item_sizes.len() == old(self)@.items.len(),
        ensures
            final(self)@.item_sizes.len() == final(self)@.items.len(),
            is_usage_order(
                rows(refreshed(old(self)@.items, app@.items, touched@), old(self)@.item_sizes),
                rows(final(self)@.items, final(self)@.item_sizes),
                app@.settings.sort_by_created,
                app@.favorites_first() && !app@.filters.favorites_only,
            ),
            final(self)@ == (ListModel {
                items: final(self)@.items,
                item_sizes: final(self)@.item_sizes,
                ..old(self)@
            }),
    {
        let mut items: Vec<ClipboardItem> = Vec::new();
        let mut sizes: Vec<S> = Vec::new();
        std::mem::swap(&mut items, &mut self.items);
        std::mem::swap(&mut sizes, &mut self.item_sizes);
        refresh_usage(&mut items, app.items.as_slice(), touched);
        let mut pairs = join_rows(items, sizes);
        let favorites_first = Self::favorites_first_active(app) && !app.filters.favorites_only;
        reorder_usage_pairs(&mut pairs, app.settings.sort_by_created, favorites_first);
        let (new_items, new_sizes) = split_rows(pairs);
        self.items = new_items;
        self.item_sizes = new_sizes;
    }

    /// Puts the active, the anchor and the hovered row on these items, as far as
    /// they are there.
    fn find_rows_again(
        &mut self,
        selected_id: Option<i64>,
        anchor_id: Option<i64>,
        hovered_id: Option<i64>,
    )
        ensures
            final(self)@ == ({
                let list = old(self)@;
                ListModel {
                    selected_index: row_or(
                        row_of(list.items, selected_id),
                        row_within(list.selected_index, list.items.len()),
                    ),
                    anchor_index: row_or(
                        row_of(list.items, anchor_id),
                        row_within(list.anchor_index, list.items.len()),
                    ),
                    hovered_index: row_of(list.items, hovered_id),
                    ..list
                }
            }),
    {
        let n = self.items.len();
        let active_row = self.selected_index;
        let anchor_row = self.anchor_index;
        self.selected_index = match item_index(self.items.as_slice(), selected_id) {
            Some(i) => Some(i),
            None => match active_row {
                Some(i) if i < n => Some(i),
                _ => None,
            },
        };
        self.anchor_index = match item_index(self.items.as_slice(), anchor_id) {
            Some(i) => Some(i),
            None => match anchor_row {
                Some(i) if i < n => Some(i),
                _ => None,
            },
        };
        self.hovered_index = item_index(self.items.as_slice(), hovered_id);
    }

    /// Brings the list up to date after a use of items. Where that is safe, the
    /// used rows are moved and nothing else is touched; otherwise the list is
    /// brought up to date with the visible items.
    pub fn sync_items_from_state_for_usage<F: Fn(&ClipboardItem, &String) -> S>(
        &mut self,
        visible_items: Vec<ClipboardItem>,
        app: &mut AppState,
        estimate: &F,
    )
        requires
            old(self)@.wf(),
            estimates(*estimate),
            old(app)@.pending_images.len() <= i64::MAX - 2,
        ensures
            world(old(self)@, old(app)@).moves_rows() ==> {
                &&& final(self)@.item_sizes.len() == final(self)@.items.len()
                &&& world(old(self)@, old(app)@).orders_by_use(
                    final(self)@.items,
                    final(self)@.item_sizes,
                )
            },
            !world(old(self)@, old(app)@).moves_rows() ==> {
                &&& is_combined(final(self)@.items, old(app)@.pending_images, visible_items@)
                &&& sized(
                    final(self)@.item_sizes,
                    final(self)@.items,
                    old(self)@.card_height_mode,
                    *estimate,
                )
            },
            world(final(self)@, final(app)@) == world(old(self)@, old(app)@).after_usage(
                final(self)@.items,
                final(self)@.item_sizes,
            ),
            final(self)@.wf(),
    {
        let ghost before = world(self@, app@);
        let (touched, force_full_reload) = app.take_usage_sync_request();
        let selected_id = item_id_at(self.items.as_slice(), self.selected_index);
        let anchor_id = item_id_at(self.items.as_slice(), self.anchor_index);
        let hovered_id = item_id_at(self.items.as_slice(), self.hovered_index);
        let safe = can_incrementally_sync_usage(
            self.items.as_slice(),
            self.item_sizes.len(),
            app.items.as_slice(),
            touched.as_slice(),
            app.transfer_filter_active,
            force_full_reload,
        );
        if safe {
            self.move_rows(touched.as_slice(), app);
            self.selected_index = item_index(self.items.as_slice(), selected_id);
            self.anchor_index = item_index(self.items.as_slice(), anchor_id);
            self.hovered_index = item_index(self.items.as_slice(), hovered_id);
            assert(world(self@, app@) == before.moved(self@.items, self@.item_sizes));
        } else {
            self.sync_items_from_state(visible_items, app, estimate);
            self.find_rows_again(selected_id, anchor_id, hovered_id);
            assert(world(self@, app@) == before.replaced(self@.items, self@.item_sizes));
        }
        if app.settings.auto_scroll_to_top {
            self.show_latest_item(app);
        }
    }

    /// Takes over the settings that the list depends on, and shows the latest
    /// used item where that is wanted.
    pub fn refresh_settings_from_state<F: Fn(&ClipboardItem, &String) -> S>(
        &mut self,
        scroll_to_top: bool,
        app: &mut AppState,
        estimate: &F,
    )
        requires
            old(self)@.wf(),
            estimates(*estimate),
        ensures
            world(old(self)@, old(app)@).heights_differ() ==> sized(
                final(self)@.item_sizes,
                old(self)@.items,
                old(app)@.settings.card_height_mode,
                *estimate,
            ),
            world(final(self)@, final(app)@) == world(old(self)@, old(app)@).refresh_settings(
                scroll_to_top,
                final(self)@.item_sizes,
            ),
            final(self)@.wf(),
    {
        if !str_eq(self.card_height_mode.as_str(), app.settings.card_height_mode.as_str()) {
            self.card_height_mode = app.settings.card_height_mode.clone();
            self.item_sizes = compute_sizes(
                self.items.as_slice(),
                &self.card_height_mode,
                estimate,
            );
        }
        if scroll_to_top {
            self.show_latest_item(app);
        }
    }
}

} // verus!
