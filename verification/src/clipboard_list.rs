//! The clipboard list: its state and its selection.

use vstd::prelude::*;

use crate::app_state::{AppModel, AppState, Op, ScrollStrategy};
use crate::click::ModifiedDoubleClickCandidate;
use crate::ids::position_of_id;
use crate::items::{
    collect_selectable_ids, id_at, is_pending, item_is_pending, position_of_item, row, row_of,
    selectable_ids,
};
use crate::theme::ClippiTheme;
use crate::types::{ClipboardItem, ItemModel, PendingImageView};

verus! {

/// A question that the list asks before it deletes something.
#[derive(Debug, Clone, PartialEq, Eq)]
pub enum ConfirmDialogState {
    /// Delete one item.
    Single { id: i64 },
    /// Delete the selected items.
    Batch { count: usize },
    /// Delete one entry of the transfer station.
    Transfer { hash: String },
    /// Delete several entries of the transfer station.
    TransferBatch { hashes: Vec<String> },
}

/// The contents of a `ConfirmDialogState`.
#[verifier::ext_equal]
pub ghost enum ConfirmModel {
    Single { id: i64 },
    Batch { count: nat },
    Transfer { hash: String },
    TransferBatch { hashes: Seq<String> },
}

impl View for ConfirmDialogState {
    type V = ConfirmModel;

    open spec fn view(&self) -> ConfirmModel {
        match *self {
            ConfirmDialogState::Single { id } => ConfirmModel::Single { id },
            ConfirmDialogState::Batch { count } => ConfirmModel::Batch { count: count as nat },
            ConfirmDialogState::Transfer { hash } => ConfirmModel::Transfer { hash },
            ConfirmDialogState::TransferBatch { hashes } => ConfirmModel::TransferBatch {
                hashes: hashes@,
            },
        }
    }
}

/// What the tag picker is placed at.
#[derive(Clone, Copy, Debug, PartialEq, Eq, Structural)]
pub enum TagPickerAnchor {
    /// Nothing yet.
    Unplaced,
    /// A row of the list.
    Row { index: usize },
    /// The place where the context menu was opened.
    ContextMenu,
    /// The place where the pointer was last seen.
    Pointer,
}

/// The clipboard list. `S` is what the program knows of the size of a card.
pub struct ClipboardListView<S> {
    /// The rows: placeholders of pending images, then the visible items.
    pub items: Vec<ClipboardItem>,
    pub pending_images: Vec<PendingImageView>,
    /// The size of each row's card.
    pub item_sizes: Vec<S>,
    pub card_height_mode: String,
    /// The selected items, in the order in which they were selected.
    pub selected_ids: Vec<i64>,
    /// The active row.
    pub selected_index: Option<usize>,
    /// The row from which a range is selected.
    pub anchor_index: Option<usize>,
    pub hovered_index: Option<usize>,
    pub context_menu_visible: bool,
    pub context_menu_item: Option<ClipboardItem>,
    pub context_menu_is_batch: bool,
    pub tag_picker_visible: bool,
    pub tag_picker_anchor: TagPickerAnchor,
    /// The item that the tag picker is about; -1 for none or several.
    pub tag_picker_item_id: i64,
    pub tag_picker_is_batch: bool,
    /// How many items are selected.
    pub selected_count: usize,
    /// The item whose note is being edited; -1 for none.
    pub editing_note_id: i64,
    pub confirm_dialog: Option<ConfirmDialogState>,
    /// The item that was last active, kept while the rows are gone.
    pub last_selected_id: Option<i64>,
    pub theme: ClippiTheme,
    pub last_lang_version: u64,
    /// The item whose hotkey is being recorded; -1 for none.
    pub recording_hotkey_id: i64,
    pub recording_hotkey_format: String,
    /// Whether the next Escape has already been dealt with.
    pub escape_consumed_inline: bool,
    pub modified_double_click_candidate: Option<ModifiedDoubleClickCandidate>,
}

/// The contents of a `ClipboardListView`.
#[verifier::ext_equal]
pub ghost struct ListModel<S> {
    pub items: Seq<ClipboardItem>,
    pub pending_images: Seq<PendingImageView>,
    pub item_sizes: Seq<S>,
    pub card_height_mode: String,
    pub selected_ids: Seq<i64>,
    pub selected_index: Option<int>,
    pub anchor_index: Option<int>,
    pub hovered_index: Option<int>,
    pub context_menu_visible: bool,
    pub context_menu_item: Option<ItemModel>,
    pub context_menu_is_batch: bool,
    pub tag_picker_visible: bool,
    pub tag_picker_anchor: TagPickerAnchor,
    pub tag_picker_item_id: i64,
    pub tag_picker_is_batch: bool,
    pub selected_count: int,
    pub editing_note_id: i64,
    pub confirm_dialog: Option<ConfirmModel>,
    pub last_selected_id: Option<i64>,
    pub theme: ClippiTheme,
    pub last_lang_version: u64,
    pub recording_hotkey_id: i64,
    pub recording_hotkey_format: Seq<char>,
    pub escape_consumed_inline: bool,
    pub modified_double_click_candidate: Option<ModifiedDoubleClickCandidate>,
}

impl<S> View for ClipboardListView<S> {
    type V = ListModel<S>;

    open spec fn view(&self) -> ListModel<S> {
        ListModel {
            items: self.items@,
            pending_images: self.pending_images@,
            item_sizes: self.item_sizes@,
            card_height_mode: self.card_height_mode,
            selected_ids: self.selected_ids@,
            selected_index: row(self.selected_index),
            anchor_index: row(self.anchor_index),
            hovered_index: row(self.hovered_index),
            context_menu_visible: self.context_menu_visible,
            context_menu_item: match self.context_menu_item {
                Some(item) => Some(item@),
                None => None,
            },
            context_menu_is_batch: self.context_menu_is_batch,
            tag_picker_visible: self.tag_picker_visible,
            tag_picker_anchor: self.tag_picker_anchor,
            tag_picker_item_id: self.tag_picker_item_id,
            tag_picker_is_batch: self.tag_picker_is_batch,
            selected_count: self.selected_count as int,
            editing_note_id: self.editing_note_id,
            confirm_dialog: match self.confirm_dialog {
                Some(dialog) => Some(dialog@),
                None => None,
            },
            last_selected_id: self.last_selected_id,
            theme: self.theme,
            last_lang_version: self.last_lang_version,
            recording_hotkey_id: self.recording_hotkey_id,
            recording_hotkey_format: self.recording_hotkey_format@,
            escape_consumed_inline: self.escape_consumed_inline,
            modified_double_click_candidate: self.modified_double_click_candidate,
        }
    }
}

impl<S> ListModel<S> {
    /// The count of selected items is that of the selection.
    pub open spec fn wf(self) -> bool {
        self.selected_count == self.selected_ids.len()
    }

    /// Whether a row can be selected.
    pub open spec fn can_select(self, index: int) -> bool {
        0 <= index < self.items.len() && !is_pending(self.items[index])
    }

    /// Whether a row is a placeholder.
    pub open spec fn is_placeholder(self, index: int) -> bool {
        0 <= index < self.items.len() && is_pending(self.items[index])
    }

    /// The same list with other items selected.
    pub open spec fn with_selection(self, ids: Seq<i64>) -> Self {
        ListModel { selected_ids: ids, selected_count: ids.len() as int, ..self }
    }

    /// The same list with other active and anchor rows.
    pub open spec fn with_rows(self, active: Option<int>, anchor: Option<int>) -> Self {
        ListModel { selected_index: active, anchor_index: anchor, ..self }
    }

    /// The same list with no modified double click begun.
    pub open spec fn without_candidate(self) -> Self {
        ListModel { modified_double_click_candidate: None, ..self }
    }

    /// The same list with a row as its only selection.
    pub open spec fn selecting(self, index: int) -> Self {
        self.without_candidate().with_selection(seq![self.items[index].id]).with_rows(
            Some(index),
            Some(index),
        )
    }

    /// The same list with the active item remembered.
    pub open spec fn remembering(self) -> Self {
        match id_at(self.items, self.selected_index) {
            Some(id) => ListModel { last_selected_id: Some(id), ..self },
            None => self,
        }
    }

    /// The same list with nothing selected, hovered or begun.
    pub open spec fn deselected(self) -> Self {
        ListModel {
            hovered_index: None,
            ..self.without_candidate().with_selection(Seq::empty()).with_rows(None, None)
        }
    }

    /// The same list with no floating panel.
    pub open spec fn panels_dismissed(self) -> Self {
        ListModel {
            context_menu_visible: false,
            context_menu_item: None,
            hovered_index: None,
            tag_picker_visible: false,
            tag_picker_item_id: -1i64,
            ..self
        }
    }

    /// Whether a floating panel is open or something is edited in place.
    pub open spec fn busy(self) -> bool {
        ||| self.context_menu_visible
        ||| self.tag_picker_visible
        ||| self.confirm_dialog is Some
        ||| self.editing_note_id > 0
        ||| self.recording_hotkey_id > 0
    }
}

/// The clipboard list together with the application state.
#[verifier::ext_equal]
pub ghost struct ListWorld<S> {
    pub list: ListModel<S>,
    pub app: AppModel,
}

/// The clipboard list together with the application state.
pub open spec fn world<S>(list: ListModel<S>, app: AppModel) -> ListWorld<S> {
    ListWorld { list, app }
}

/// Whether row `i` is the first at or after `from` that can be selected.
pub open spec fn is_next_row(items: Seq<ClipboardItem>, from: int, i: int) -> bool {
    &&& from <= i < items.len()
    &&& !is_pending(items[i])
    &&& forall|j: int| from <= j < i ==> is_pending(#[trigger] items[j])
}

/// The first row at or after `from` that can be selected.
pub open spec fn next_row(items: Seq<ClipboardItem>, from: int) -> Option<int> {
    if exists|i: int| is_next_row(items, from, i) {
        Some(choose|i: int| is_next_row(items, from, i))
    } else {
        None
    }
}

/// Whether row `i` is the last at or before `upto` that can be selected.
pub open spec fn is_previous_row(items: Seq<ClipboardItem>, upto: int, i: int) -> bool {
    &&& 0 <= i <= upto
    &&& i < items.len()
    &&& !is_pending(items[i])
    &&& forall|j: int| i < j <= upto && j < items.len() ==> is_pending(#[trigger] items[j])
}

/// The last row at or before `upto` that can be selected.
pub open spec fn previous_row(items: Seq<ClipboardItem>, upto: int) -> Option<int> {
    if exists|i: int| is_previous_row(items, upto, i) {
        Some(choose|i: int| is_previous_row(items, upto, i))
    } else {
        None
    }
}

/// The lesser of two numbers.
pub open spec fn lesser(a: int, b: int) -> int {
    if a <= b {
        a
    } else {
        b
    }
}

/// The items that a range from `anchor` to `index` selects, the anchor first.
pub open spec fn range_ids(items: Seq<ClipboardItem>, anchor: int, index: int) -> Seq<i64> {
    let n = items.len() as int;
    if anchor <= index {
        selectable_ids(items.subrange(lesser(anchor, n), lesser(index + 1, n)))
    } else {
        selectable_ids(items.subrange(lesser(index, n), lesser(anchor + 1, n))).reverse()
    }
}

impl<S> ListWorld<S> {
    /// One more piece of work asked for.
    pub open spec fn ask(self, op: Op) -> Self {
        world(self.list, self.app.asking(op))
    }

    /// One more piece of work asked for, about the selected items.
    pub open spec fn ask_for_selected(self, op: Op) -> Self {
        world(self.list, self.app.asking_for(op, self.list.selected_ids))
    }

    /// A row made the only selection, where it can be selected.
    pub open spec fn select(self, index: int) -> Self {
        if self.list.can_select(index) {
            world(
                self.list.selecting(index),
                self.app.selecting(seq![self.list.items[index].id]),
            )
        } else {
            self
        }
    }

    /// A row made the only selection and scrolled to, where it can be selected.
    pub open spec fn select_in_view(self, index: int, strategy: ScrollStrategy) -> Self {
        if self.list.can_select(index) {
            self.ask(Op::ScrollTo { index: index as usize, strategy }).select(index)
        } else {
            self
        }
    }

    /// The list's selection carried over to the application.
    pub open spec fn mirrored(self) -> Self {
        world(self.list, self.app.selecting(self.list.selected_ids))
    }

    /// A row added to the selection or taken out of it. The last selected item
    /// stays selected.
    pub open spec fn toggle(self, index: int) -> Self {
        let list = self.list.without_candidate();
        let id = list.items[index].id;
        if !list.can_select(index) {
            world(list, self.app)
        } else if !list.selected_ids.contains(id) {
            world(
                list.with_selection(list.selected_ids.push(id)).with_rows(
                    Some(index),
                    Some(index),
                ),
                self.app,
            ).mirrored()
        } else if list.selected_ids.len() <= 1 {
            world(list, self.app)
        } else {
            let ids = list.selected_ids.remove_value(id);
            let remaining = row_of(list.items, Some(ids[0]));
            world(
                list.with_selection(ids).with_rows(
                    if list.selected_index == Some(index) {
                        remaining
                    } else {
                        list.selected_index
                    },
                    if list.anchor_index == Some(index) {
                        remaining
                    } else {
                        list.anchor_index
                    },
                ),
                self.app,
            ).mirrored()
        }
    }

    /// The rows from the anchor to a row selected; the row alone where there is
    /// no anchor.
    pub open spec fn range_to(self, index: int) -> Self {
        let list = self.list.without_candidate();
        match list.anchor_index {
            None => world(list, self.app).select(index),
            Some(anchor) => world(
                list.with_selection(range_ids(list.items, anchor, index)).with_rows(
                    Some(index),
                    Some(anchor),
                ),
                self.app,
            ).mirrored(),
        }
    }

    /// Every row selected that can be.
    pub open spec fn select_all(self) -> Self {
        let ids = selectable_ids(self.list.items);
        if ids.len() == 0 {
            self
        } else {
            let first = row_of(self.list.items, Some(ids[0]));
            world(
                self.list.without_candidate().with_selection(ids).with_rows(first, first),
                self.app,
            ).mirrored()
        }
    }

    /// The next row below the active one selected.
    pub open spec fn select_next(self, strategy: ScrollStrategy) -> Self {
        let from = match self.list.selected_index {
            Some(i) => i + 1,
            None => 0,
        };
        match next_row(self.list.items, from) {
            Some(i) => self.select_in_view(i, strategy),
            None => self,
        }
    }

    /// The next row above the active one selected; the active row itself where
    /// it is the first.
    pub open spec fn select_previous(self, strategy: ScrollStrategy) -> Self {
        match self.list.selected_index {
            Some(active) => {
                let upto = if active > 0 {
                    active - 1
                } else {
                    0
                };
                match previous_row(self.list.items, upto) {
                    Some(i) => self.select_in_view(i, strategy),
                    None => self,
                }
            },
            None => self,
        }
    }

    /// The selection reduced to its first item, where that is still a row.
    pub open spec fn reduce(self) -> Self {
        if self.reduces() {
            let id = self.list.selected_ids[0];
            let first = row_of(self.list.items, Some(id));
            world(
                self.list.without_candidate().with_selection(seq![id]).with_rows(first, first),
                self.app,
            ).mirrored()
        } else {
            self
        }
    }

    /// Whether the selection can be reduced to its first item.
    pub open spec fn reduces(self) -> bool {
        &&& self.list.selected_count > 1
        &&& row_of(self.list.items, Some(self.list.selected_ids[0])) is Some
    }

    /// An item made the only selection and hovered, where it is a row.
    pub open spec fn lock(self, id: i64) -> Self {
        match row_of(self.list.items, Some(id)) {
            Some(i) => world(
                ListModel {
                    hovered_index: Some(i),
                    ..self.list.without_candidate().with_selection(seq![id]).with_rows(
                        Some(i),
                        Some(i),
                    )
                },
                self.app,
            ).mirrored(),
            None => self,
        }
    }
}

/// A row that is the next one is the one that `next_row` finds.
proof fn lemma_next_row(items: Seq<ClipboardItem>, from: int, i: int)
    requires
        is_next_row(items, from, i),
    ensures
        next_row(items, from) == Some(i),
{
    let k = choose|k: int| is_next_row(items, from, k);
    assert(is_next_row(items, from, k));
    if k < i {
        assert(is_pending(items[k]));
    }
    if i < k {
        assert(is_pending(items[i]));
    }
}

/// A row that is the previous one is the one that `previous_row` finds.
proof fn lemma_previous_row(items: Seq<ClipboardItem>, upto: int, i: int)
    requires
        is_previous_row(items, upto, i),
    ensures
        previous_row(items, upto) == Some(i),
{
    let k = choose|k: int| is_previous_row(items, upto, k);
    assert(is_previous_row(items, upto, k));
    if k < i {
        assert(is_pending(items[i]));
    }
    if i < k {
        assert(is_pending(items[k]));
    }
}

/// The ids in opposite order.
fn reversed_ids(ids: &[i64]) -> (r: Vec<i64>)
    ensures
        r@ == ids@.reverse(),
{
    let mut r: Vec<i64> = Vec::new();
    let mut i: usize = ids.len();
    while i > 0
        invariant
            0 <= i <= ids.len(),
            r@.len() == ids.len() - i,
            forall|k: int| 0 <= k < r@.len() ==> #[trigger] r@[k] == ids@[ids@.len() - 1 - k],
        decreases i,
    {
        i -= 1;
        r.push(ids[i]);
    }
    assert(r@ =~= ids@.reverse());
    r
}

/// Collects the items that a range from `anchor` to `index` selects, the anchor
/// first.
pub fn collect_range_ids(items: &[ClipboardItem], anchor: usize, index: usize) -> (r: Vec<i64>)
    ensures
        r@ == range_ids(items@, anchor as int, index as int),
{
    let n = items.len();
    if anchor <= index {
        let lo = if anchor < n {
            anchor
        } else {
            n
        };
        let hi = if index < n {
            index + 1
        } else {
            n
        };
        collect_selectable_ids(vstd::slice::slice_subrange(items, lo, hi))
    } else {
        let lo = if index < n {
            index
        } else {
            n
        };
        let hi = if anchor < n {
            anchor + 1
        } else {
            n
        };
        let ids = collect_selectable_ids(vstd::slice::slice_subrange(items, lo, hi));
        reversed_ids(ids.as_slice())
    }
}

impl<S> ClipboardListView<S> {
    /// Makes a row the only selection, where it can be selected.
    pub fn select_index_without_scroll(&mut self, index: usize, app: &mut AppState)
        requires
            old(self)@.wf(),
        ensures
            world(final(self)@, final(app)@) == world(old(self)@, old(app)@).select(index as int),
            final(self)@.wf(),
    {
        if index >= self.items.len() || item_is_pending(&self.items[index]) {
            return;
        }
        let item_id = self.items[index].id;
        self.selected_ids.clear();
        self.selected_ids.push(item_id);
        self.selected_index = Some(index);
        self.anchor_index = Some(index);
        self.selected_count = 1;
        self.modified_double_click_candidate = None;
        app.select_single(item_id);
        assert(self.selected_ids@ =~= seq![item_id]);
    }

    /// Makes a row the only selection and scrolls to it, where it can be
    /// selected.
    pub fn select_index(&mut self, index: usize, strategy: ScrollStrategy, app: &mut AppState)
        requires
            old(self)@.wf(),
        ensures
            world(final(self)@, final(app)@) == world(old(self)@, old(app)@).select_in_view(
                index as int,
                strategy,
            ),
            final(self)@.wf(),
    {
        if index >= self.items.len() || item_is_pending(&self.items[index]) {
            return;
        }
        app.request(Op::ScrollTo { index, strategy });
        self.select_index_without_scroll(index, app);
    }

    /// Adds a row to the selection, or takes it out. The last selected item
    /// stays selected.
    pub fn toggle_index(&mut self, index: usize, app: &mut AppState)
        requires
            old(self)@.wf(),
        ensures
            world(final(self)@, final(app)@) == world(old(self)@, old(app)@).toggle(index as int),
            final(self)@.wf(),
    {
        self.modified_double_click_candidate = None;
        if index >= self.items.len() || item_is_pending(&self.items[index]) {
            return;
        }
        let item_id = self.items[index].id;
        match position_of_id(self.selected_ids.as_slice(), item_id) {
            Some(pos) => {
                if self.selected_ids.len() <= 1 {
                    return;
                }
                self.selected_ids.remove(pos);
                assert(self.selected_ids@ == old(self)@.selected_ids.remove_value(item_id));
                let remaining = position_of_item(self.items.as_slice(), self.selected_ids[0]);
                if self.selected_index == Some(index) {
                    self.selected_index = remaining;
                }
                if self.anchor_index == Some(index) {
                    self.anchor_index = remaining;
                }
            },
            None => {
                self.selected_ids.push(item_id);
                self.anchor_index = Some(index);
                self.selected_index = Some(index);
            },
        }
        self.selected_count = self.selected_ids.len();
        app.range_select(self.selected_ids.as_slice());
    }

    /// Selects from the anchor to a row; the row alone where there is no anchor.
    pub fn range_select_to_index(&mut self, index: usize, app: &mut AppState)
        requires
            old(self)@.wf(),
        ensures
            world(final(self)@, final(app)@) == world(old(self)@, old(app)@).range_to(
                index as int,
            ),
            final(self)@.wf(),
    {
        self.modified_double_click_candidate = None;
        match self.anchor_index {
            None => {
                self.select_index_without_scroll(index, app);
            },
            Some(anchor) => {
                self.selected_ids = collect_range_ids(self.items.as_slice(), anchor, index);
                self.selected_index = Some(index);
                self.selected_count = self.selected_ids.len();
                app.range_select(self.selected_ids.as_slice());
            },
        }
    }

    /// Selects every row that can be selected. Doing it again changes nothing.
    pub fn select_all_visible(&mut self, app: &mut AppState)
        requires
            old(self)@.wf(),
        ensures
            world(final(self)@, final(app)@) == world(old(self)@, old(app)@).select_all(),
            final(self)@.wf(),
    {
        let ids = collect_selectable_ids(self.items.as_slice());
        if ids.len() == 0 {
            return;
        }
        self.selected_index = position_of_item(self.items.as_slice(), ids[0]);
        self.anchor_index = self.selected_index;
        self.selected_count = ids.len();
        self.selected_ids = ids;
        self.modified_double_click_candidate = None;
        app.range_select(self.selected_ids.as_slice());
    }

    /// Selects the next row below the active one.
    pub fn select_next(&mut self, strategy: ScrollStrategy, app: &mut AppState)
        requires
            old(self)@.wf(),
        ensures
            world(final(self)@, final(app)@) == world(old(self)@, old(app)@).select_next(strategy),
            final(self)@.wf(),
    {
        let n = self.items.len();
        let start = match self.selected_index {
            Some(index) => {
                if index < n {
                    index + 1
                } else {
                    n
                }
            },
            None => 0,
        };
        let ghost from = match self@.selected_index {
            Some(i) => i + 1,
            None => 0,
        };
        let mut i: usize = start;
        while i < n
            invariant
                start <= i <= n,
                n == self.items@.len(),
                from == start || (from >= n && start == n),
                from == (match self@.selected_index {
                    Some(i) => i + 1,
                    None => 0,
                }),
                self@ == old(self)@,
                app@ == old(app)@,
                self@.wf(),
                forall|j: int| start <= j < i ==> is_pending(#[trigger] self.items@[j]),
            decreases n - i,
        {
            if !item_is_pending(&self.items[i]) {
                proof {
                    lemma_next_row(self.items@, from, i as int);
                }
                self.select_index(i, strategy, app);
                return;
            }
            i += 1;
        }
    }

    /// Selects the next row above the active one; the active row itself where it
    /// is the first.
    pub fn select_previous(&mut self, strategy: ScrollStrategy, app: &mut AppState)
        requires
            old(self)@.wf(),
        ensures
            world(final(self)@, final(app)@) == world(old(self)@, old(app)@).select_previous(
                strategy,
            ),
            final(self)@.wf(),
    {
        match self.selected_index {
            None => {},
            Some(index) => {
                let n = self.items.len();
                let upto = if index > 0 {
                    index - 1
                } else {
                    0
                };
                let mut i: usize = if upto < n {
                    upto + 1
                } else {
                    n
                };
                while i > 0
                    invariant
                        0 <= i <= n,
                        i <= upto + 1,
                        n == self.items@.len(),
                        self@ == old(self)@,
                        app@ == old(app)@,
                        self@.wf(),
                        self.selected_index == Some(index),
                        upto == (if index > 0 {
                            index - 1
                        } else {
                            0
                        }),
                        forall|j: int|
                            i <= j <= upto && j < n ==> is_pending(#[trigger] self.items@[j]),
                    decreases i,
                {
                    i -= 1;
                    if !item_is_pending(&self.items[i]) {
                        proof {
                            lemma_previous_row(self.items@, upto as int, i as int);
                        }
                        self.select_index(i, strategy, app);
                        return;
                    }
                }
            },
        }
    }

    /// The selected item, if exactly one is selected.
    pub fn single_selected_id(&self) -> (r: Option<i64>)
        ensures
            r == (if self@.selected_ids.len() == 1 {
                Some(self@.selected_ids[0])
            } else {
                None
            }),
    {
        if self.selected_ids.len() == 1 {
            Some(self.selected_ids[0])
        } else {
            None
        }
    }

    /// Reduces a selection of several items to its first one. Says whether it
    /// did.
    pub fn reduce_to_single_selection(&mut self, app: &mut AppState) -> (r: bool)
        requires
            old(self)@.wf(),
        ensures
            r == world(old(self)@, old(app)@).reduces(),
            world(final(self)@, final(app)@) == world(old(self)@, old(app)@).reduce(),
            final(self)@.wf(),
    {
        if self.selected_count <= 1 {
            return false;
        }
        let first_id = self.selected_ids[0];
        match position_of_item(self.items.as_slice(), first_id) {
            Some(index) => {
                self.selected_ids.clear();
                self.selected_ids.push(first_id);
                self.selected_index = Some(index);
                self.anchor_index = Some(index);
                self.selected_count = 1;
                self.modified_double_click_candidate = None;
                app.select_single(first_id);
                assert(self.selected_ids@ =~= seq![first_id]);
                true
            },
            None => false,
        }
    }

    /// Makes an item the only selection and the hovered one, where it is a row.
    pub fn lock_selection_to_item(&mut self, item_id: i64, app: &mut AppState)
        requires
            old(self)@.wf(),
        ensures
            world(final(self)@, final(app)@) == world(old(self)@, old(app)@).lock(item_id),
            final(self)@.wf(),
    {
        match position_of_item(self.items.as_slice(), item_id) {
            None => {},
            Some(index) => {
                self.selected_ids.clear();
                self.selected_ids.push(item_id);
                self.selected_index = Some(index);
                self.anchor_index = Some(index);
                self.selected_count = 1;
                self.modified_double_click_candidate = None;
                self.hovered_index = Some(index);
                app.select_single(item_id);
                assert(self.selected_ids@ =~= seq![item_id]);
            },
        }
    }
}

} // verus!
