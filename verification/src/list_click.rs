//! Clicks on the cards of the clipboard list, and pasting.

use vstd::prelude::*;

use crate::app_state::{AppState, Op};
use crate::click::{
    additive_selection_modifier, card_click_action, card_modifier, classify_card_modifier,
    double_click_kind, modified_double_click_kind, paste_click_mode, resolve_card_click_action,
    CardClickAction, ModifiedDoubleClickCandidate, ModifiedPasteModifier, Modifiers, PasteClickMode,
};
use crate::clipboard_list::{world, ClipboardListView, ListModel, ListWorld};
use crate::ids::contains_id;
use crate::items::{
    is_transfer_entry, item_is_pending, item_is_transfer_entry, position_of_item, row, row_of,
};
use crate::types::{ClipboardItem, ContentType, FileModel};

verus! {

/// What opening an entry of the transfer station does: it shows the local file,
/// if there is one, else it fetches the content.
pub open spec fn open_op(file_data: FileModel) -> Op {
    if file_data.files.len() > 0 && file_data.files[0].path@.len() > 0 {
        Op::OpenTransferLocation { path: file_data.files[0].path }
    } else {
        Op::DownloadTransfer { hash: file_data.remote_hash }
    }
}

/// What opening an entry of the transfer station does.
fn choose_open_op(item: &ClipboardItem) -> (r: Op)
    ensures
        r == open_op(item@.file_data),
{
    let files = item.file_data.files.as_slice();
    if files.len() > 0 && files[0].path.as_str().unicode_len() > 0 {
        Op::OpenTransferLocation { path: files[0].path.clone() }
    } else {
        Op::DownloadTransfer { hash: item.file_data.remote_hash.clone() }
    }
}

impl<S> ListModel<S> {
    /// Whether an item is the only selected one and a row.
    pub open spec fn single_row(self) -> Option<int> {
        if self.selected_ids.len() == 1 {
            row_of(self.items, Some(self.selected_ids[0]))
        } else {
            None
        }
    }

    /// Whether the item of a row is the only selected one.
    pub open spec fn only_selected(self, index: int) -> bool {
        &&& self.selected_ids.len() == 1
        &&& 0 <= index < self.items.len()
        &&& self.selected_ids[0] == self.items[index].id
    }
}

impl<S> ListWorld<S> {
    /// A piece of work asked for that uses items, and the list brought up to date
    /// after it.
    pub open spec fn use_items(self, op: Op) -> Self {
        self.ask(op).ask(Op::SyncListForUsage)
    }

    /// The selected items pasted, and the list brought up to date after it.
    pub open spec fn paste_batch(self, plain: bool) -> Self {
        self.ask_for_selected(Op::BatchPaste { plain }).ask(Op::SyncListForUsage)
    }

    /// A piece of work asked for that changes items, and the list brought up to
    /// date after it.
    pub open spec fn change_items(self, op: Op) -> Self {
        self.ask(op).ask(Op::SyncList)
    }

    /// The floating panels dismissed.
    pub open spec fn dismiss(self) -> Self {
        world(self.list.panels_dismissed(), self.app)
    }

    /// The selected items pasted; an open panel dismissed instead.
    pub open spec fn paste_selected(self, plain: bool) -> Self {
        if self.list.busy() {
            self.dismiss()
        } else if self.list.selected_ids.len() > 1 {
            self.paste_batch(plain)
        } else if self.list.single_row() is Some {
            let id = self.list.selected_ids[0];
            if plain {
                self.use_items(Op::PasteItemPlain { id })
            } else {
                self.use_items(Op::PasteItem { id, plain: false })
            }
        } else {
            self.ask(Op::SyncListForUsage)
        }
    }

    /// The only selected item pasted as a bitmap, if it is an image; else the
    /// selected items pasted. An open panel is dismissed instead.
    pub open spec fn paste_bitmap_or_default(self) -> Self {
        if self.list.busy() {
            self.dismiss()
        } else {
            match self.list.single_row() {
                Some(i) => if self.list.items[i].content_type == ContentType::Image {
                    self.use_items(Op::PasteImageAsBitmap { id: self.list.selected_ids[0] })
                } else {
                    self.paste_selected(self.app.settings.copy_as_plain_text)
                },
                None => self.paste_selected(self.app.settings.copy_as_plain_text),
            }
        }
    }

    /// The item of a row pasted with its formatting; an entry of the transfer
    /// station opened instead.
    pub open spec fn paste_row(self, index: int) -> Self {
        if 0 <= index < self.list.items.len() {
            let item = self.list.items[index];
            if is_transfer_entry(item) {
                self.change_items(open_op(item@.file_data))
            } else {
                self.use_items(Op::PasteItem { id: item.id, plain: false })
            }
        } else {
            self
        }
    }

    /// A click on a card in single-click mode.
    pub open spec fn click_single(self, index: int, modifiers: Modifiers) -> Self {
        if 0 <= index < self.list.items.len() {
            let item = self.list.items[index];
            let start = world(self.list.without_candidate(), self.app);
            match card_click_action(
                PasteClickMode::SingleClick,
                self.list.selected_ids.contains(item.id),
                self.list.selected_ids.len(),
                card_modifier(modifiers),
                item.content_type == ContentType::Image,
            ) {
                CardClickAction::Noop => start,
                CardClickAction::SelectSingle => start.select(index),
                CardClickAction::ToggleSelect => start.toggle(index),
                CardClickAction::RangeSelect => start.range_to(index),
                CardClickAction::PasteDefault => start.paste_row(index),
                CardClickAction::PastePlain => start.use_items(
                    Op::PasteItemPlain { id: item.id },
                ),
                CardClickAction::PasteBitmap => start.use_items(
                    Op::PasteImageAsBitmap { id: item.id },
                ),
            }
        } else {
            self
        }
    }

    /// The selection after a click on a card in double-click mode.
    pub open spec fn click_selects(self, index: int, modifiers: Modifiers) -> Self {
        if modifiers.additive() {
            self.toggle(index)
        } else if modifiers.shift {
            self.range_to(index)
        } else {
            self.select(index)
        }
    }

    /// A click on a card in double-click mode. Where it leaves the only selected
    /// item selected, it may be the first half of a modified double click.
    pub open spec fn click_double(self, index: int, modifiers: Modifiers) -> Self {
        let after = self.click_selects(index, modifiers);
        let candidate = match double_click_kind(modifiers) {
            Some(modifier) => if self.list.only_selected(index) && after.list.selected_ids
                == self.list.selected_ids {
                Some(
                    ModifiedDoubleClickCandidate {
                        item_id: self.list.items[index].id,
                        modifier,
                    },
                )
            } else {
                None
            },
            None => None,
        };
        world(
            ListModel { modified_double_click_candidate: candidate, ..after.list },
            after.app,
        )
    }

    /// A click on a card.
    pub open spec fn click(self, index: int, modifiers: Modifiers) -> Self {
        if self.list.is_placeholder(index) {
            self
        } else {
            match paste_click_mode(self.app.settings.paste_click_mode@) {
                PasteClickMode::SingleClick => self.click_single(index, modifiers),
                PasteClickMode::DoubleClick => self.click_double(index, modifiers),
            }
        }
    }

    /// A card clicked. Where a note is being edited, it is to be stored first.
    pub open spec fn click_card(self, index: int, modifiers: Modifiers) -> Self {
        if self.list.editing_note_id > 0 {
            self
        } else {
            self.click(index, modifiers)
        }
    }

    /// The default paste of a double click: all selected items, if there are
    /// several, else the clicked one.
    pub open spec fn paste_default(self, index: int) -> Self {
        if self.list.selected_ids.len() > 1 {
            self.paste_batch(false)
        } else {
            self.paste_row(index)
        }
    }

    /// Whether the first click of a modified double click was on this row.
    pub open spec fn begun_on(self, index: int, modifier: ModifiedPasteModifier) -> bool {
        &&& 0 <= index < self.list.items.len()
        &&& self.list.modified_double_click_candidate == Some(
            ModifiedDoubleClickCandidate { item_id: self.list.items[index].id, modifier },
        )
    }

    /// A double click on a card. A placeholder is not pasted.
    pub open spec fn double_click(self, index: int, modifiers: Modifiers) -> Self {
        let start = world(self.list.without_candidate(), self.app);
        let item = self.list.items[index];
        if paste_click_mode(self.app.settings.paste_click_mode@) == PasteClickMode::SingleClick
            || self.list.is_placeholder(index) {
            start
        } else {
            match double_click_kind(modifiers) {
                None => if modifiers.count() == 0 {
                    start.paste_default(index)
                } else {
                    start
                },
                Some(ModifiedPasteModifier::Bitmap) => if self.begun_on(
                    index,
                    ModifiedPasteModifier::Bitmap,
                ) && item.content_type == ContentType::Image {
                    start.use_items(Op::PasteImageAsBitmap { id: item.id })
                } else {
                    start
                },
                Some(ModifiedPasteModifier::PlainText) => if self.begun_on(
                    index,
                    ModifiedPasteModifier::PlainText,
                ) {
                    start.use_items(Op::PasteItemPlain { id: item.id })
                } else {
                    start
                },
            }
        }
    }
}

impl<S> ClipboardListView<S> {
    /// Whether a floating panel is open or something is edited in place.
    pub fn has_any_panel_or_editing(&self) -> (r: bool)
        ensures
            r == self@.busy(),
    {
        self.context_menu_visible || self.tag_picker_visible || self.confirm_dialog.is_some()
            || self.editing_note_id > 0 || self.recording_hotkey_id > 0
    }

    /// Dismisses the floating panels, if something is open. Says whether there
    /// was.
    fn guard_panels_before_paste(&mut self) -> (r: bool)
        ensures
            r == old(self)@.busy(),
            final(self)@ == (if r {
                old(self)@.panels_dismissed()
            } else {
                old(self)@
            }),
    {
        if self.has_any_panel_or_editing() {
            self.dismiss_all_panels();
            true
        } else {
            false
        }
    }

    /// The row of the only selected item.
    fn single_selected_row(&self) -> (r: Option<usize>)
        ensures
            row(r) == self@.single_row(),
            r matches Some(i) ==> i < self@.items.len() && self@.selected_ids.len() == 1
                && self@.items[i as int].id == self@.selected_ids[0],
    {
        match self.single_selected_id() {
            Some(id) => position_of_item(self.items.as_slice(), id),
            None => None,
        }
    }

    /// Pastes the selected items and brings the list up to date.
    pub(crate) fn paste_batch(&self, plain: bool, app: &mut AppState)
        ensures
            world(self@, final(app)@) == world(self@, old(app)@).paste_batch(plain),
    {
        app.request_for(Op::BatchPaste { plain }, self.selected_ids.as_slice());
        app.request(Op::SyncListForUsage);
    }

    /// Pastes the selected items; dismisses an open panel instead.
    pub fn action_paste(&mut self, plain: bool, app: &mut AppState)
        ensures
            world(final(self)@, final(app)@) == world(old(self)@, old(app)@).paste_selected(plain),
    {
        if self.guard_panels_before_paste() {
            return;
        }
        if self.selected_ids.len() > 1 {
            self.paste_batch(plain, app);
            return;
        }
        if let Some(index) = self.single_selected_row() {
            let id = self.items[index].id;
            if plain {
                app.request(Op::PasteItemPlain { id });
            } else {
                app.request(Op::PasteItem { id, plain: false });
            }
        }
        app.request(Op::SyncListForUsage);
    }

    /// Pastes the only selected item as a bitmap, if it is an image, else the
    /// selected items; dismisses an open panel instead.
    pub fn action_paste_bitmap_or_default(&mut self, app: &mut AppState)
        ensures
            world(final(self)@, final(app)@) == world(
                old(self)@,
                old(app)@,
            ).paste_bitmap_or_default(),
    {
        if self.guard_panels_before_paste() {
            return;
        }
        if let Some(index) = self.single_selected_row() {
            if self.items[index].content_type == ContentType::Image {
                app.request(Op::PasteImageAsBitmap { id: self.items[index].id });
                app.request(Op::SyncListForUsage);
                return;
            }
        }
        let plain = app.settings.copy_as_plain_text;
        self.action_paste(plain, app);
    }

    /// Handles a click on a card. Where a note is being edited, nothing happens
    /// and the result is true: the note is to be stored first.
    pub fn handle_card_click(&mut self, index: usize, modifiers: Modifiers, app: &mut AppState) -> (
        r: bool)
        requires
            old(self)@.wf(),
        ensures
            r == (old(self)@.editing_note_id > 0),
            world(final(self)@, final(app)@) == world(old(self)@, old(app)@).click_card(
                index as int,
                modifiers,
            ),
            final(self)@.wf(),
    {
        if self.editing_note_id > 0 {
            return true;
        }
        if index < self.items.len() && item_is_pending(&self.items[index]) {
            return false;
        }
        match PasteClickMode::from_settings(app.settings.paste_click_mode.as_str()) {
            PasteClickMode::SingleClick => self.handle_card_click_single(index, modifiers, app),
            PasteClickMode::DoubleClick => self.handle_card_click_double(index, modifiers, app),
        }
        false
    }

    /// Handles a click on a card in single-click mode.
    fn handle_card_click_single(&mut self, index: usize, modifiers: Modifiers, app: &mut AppState)
        requires
            old(self)@.wf(),
        ensures
            world(final(self)@, final(app)@) == world(old(self)@, old(app)@).click_single(
                index as int,
                modifiers,
            ),
            final(self)@.wf(),
    {
        if index >= self.items.len() {
            return;
        }
        let item_id = self.items[index].id;
        let action = resolve_card_click_action(
            PasteClickMode::SingleClick,
            contains_id(self.selected_ids.as_slice(), item_id),
            self.selected_ids.len(),
            classify_card_modifier(modifiers),
            self.items[index].content_type == ContentType::Image,
        );
        self.modified_double_click_candidate = None;
        match action {
            CardClickAction::Noop => {},
            CardClickAction::SelectSingle => self.select_index_without_scroll(index, app),
            CardClickAction::ToggleSelect => self.toggle_index(index, app),
            CardClickAction::RangeSelect => self.range_select_to_index(index, app),
            CardClickAction::PasteDefault => self.single_click_paste_default(index, app),
            CardClickAction::PastePlain => {
                app.request(Op::PasteItemPlain { id: item_id });
                app.request(Op::SyncListForUsage);
            },
            CardClickAction::PasteBitmap => {
                app.request(Op::PasteImageAsBitmap { id: item_id });
                app.request(Op::SyncListForUsage);
            },
        }
    }

    /// Pastes the item of a row with its formatting; opens an entry of the
    /// transfer station instead.
    fn single_click_paste_default(&self, index: usize, app: &mut AppState)
        ensures
            world(self@, final(app)@) == world(self@, old(app)@).paste_row(index as int),
    {
        if index >= self.items.len() {
            return;
        }
        if item_is_transfer_entry(&self.items[index]) {
            let op = choose_open_op(&self.items[index]);
            app.request(op);
            app.request(Op::SyncList);
        } else {
            app.request(Op::PasteItem { id: self.items[index].id, plain: false });
            app.request(Op::SyncListForUsage);
        }
    }

    /// Changes the selection as a click on a card in double-click mode does.
    fn click_selects(&mut self, index: usize, modifiers: Modifiers, app: &mut AppState)
        requires
            old(self)@.wf(),
        ensures
            world(final(self)@, final(app)@) == world(old(self)@, old(app)@).click_selects(
                index as int,
                modifiers,
            ),
            final(self)@.items == old(self)@.items,
            final(self)@.wf(),
    {
        if additive_selection_modifier(modifiers) {
            self.toggle_index(index, app);
        } else if modifiers.shift {
            self.range_select_to_index(index, app);
        } else {
            self.select_index_without_scroll(index, app);
        }
    }

    /// Handles a click on a card in double-click mode.
    fn handle_card_click_double(&mut self, index: usize, modifiers: Modifiers, app: &mut AppState)
        requires
            old(self)@.wf(),
        ensures
            world(final(self)@, final(app)@) == world(old(self)@, old(app)@).click_double(
                index as int,
                modifiers,
            ),
            final(self)@.wf(),
    {
        let only_selected = index < self.items.len() && self.selected_ids.len() == 1
            && self.selected_ids[0] == self.items[index].id;
        let ghost before = world(self@, app@);
        self.click_selects(index, modifiers, app);
        let ghost after = world(self@, app@);
        let mut candidate: Option<ModifiedDoubleClickCandidate> = None;
        if let Some(modifier) = modified_double_click_kind(modifiers) {
            if only_selected {
                let item_id = self.items[index].id;
                if self.selected_ids.len() == 1 && self.selected_ids[0] == item_id {
                    assert(after.list.selected_ids =~= before.list.selected_ids);
                    candidate = Some(ModifiedDoubleClickCandidate { item_id, modifier });
                }
            }
        }
        self.modified_double_click_candidate = candidate;
        assert(world(self@, app@) == world(
            (ListModel { modified_double_click_candidate: candidate, ..after.list }),
            after.app,
        ));
    }

    /// The default paste of a double click: all selected items, if there are
    /// several, else the clicked one.
    fn double_click_paste_default(&self, index: usize, app: &mut AppState)
        ensures
            world(self@, final(app)@) == world(self@, old(app)@).paste_default(index as int),
    {
        if self.selected_ids.len() > 1 {
            self.paste_batch(false, app);
        } else {
            self.single_click_paste_default(index, app);
        }
    }

    /// Handles a double click on a card. With a modifier it pastes only where the
    /// first click left the selection as it was. A placeholder is not pasted.
    pub fn handle_double_click(&mut self, index: usize, modifiers: Modifiers, app: &mut AppState)
        ensures
            world(final(self)@, final(app)@) == world(old(self)@, old(app)@).double_click(
                index as int,
                modifiers,
            ),
    {
        let candidate = self.modified_double_click_candidate;
        self.modified_double_click_candidate = None;
        assert(self@ == old(self)@.without_candidate());
        if let PasteClickMode::SingleClick = PasteClickMode::from_settings(
            app.settings.paste_click_mode.as_str(),
        ) {
            return;
        }
        if index < self.items.len() && item_is_pending(&self.items[index]) {
            return;
        }
        match modified_double_click_kind(modifiers) {
            None => {
                if modifiers.number_of_modifiers() == 0 {
                    self.double_click_paste_default(index, app);
                }
            },
            Some(modifier) => {
                if index >= self.items.len() {
                    return;
                }
                let item_id = self.items[index].id;
                let wanted = ModifiedDoubleClickCandidate { item_id, modifier };
                let begun = match candidate {
                    Some(first) => first == wanted,
                    None => false,
                };
                if !begun {
                    return;
                }
                match modifier {
                    ModifiedPasteModifier::Bitmap => {
                        if self.items[index].content_type == ContentType::Image {
                            app.request(Op::PasteImageAsBitmap { id: item_id });
                            app.request(Op::SyncListForUsage);
                        }
                    },
                    ModifiedPasteModifier::PlainText => {
                        app.request(Op::PasteItemPlain { id: item_id });
                        app.request(Op::SyncListForUsage);
                    },
                }
            },
        }
    }
}

} // verus!
