//! The panels of the clipboard list, and what is edited in place.

use vstd::prelude::*;

use crate::app_state::{AppState, ClipboardListEvent, Op};
use crate::clipboard_list::{
    world, ClipboardListView, ConfirmDialogState, ConfirmModel, ListModel, ListWorld,
    TagPickerAnchor,
};
use crate::filters::{lemma_filter_start, lemma_filter_step};
use crate::items::{
    id_at, is_transfer_entry, item_id_at, item_is_transfer_entry, position_of_item, row_of,
};
use crate::theme::ClippiTheme;
use crate::types::ClipboardItem;

verus! {

/// Holds of the ids of items on the transfer station.
pub open spec fn on_station(items: Seq<ClipboardItem>) -> spec_fn(i64) -> bool {
    |id: i64|
        match row_of(items, Some(id)) {
            Some(i) => is_transfer_entry(items[i]) && items[i].file_data.remote_hash@.len() > 0,
            None => false,
        }
}

/// The name of an item's content on the transfer station.
pub open spec fn station_hash(items: Seq<ClipboardItem>) -> spec_fn(i64) -> String {
    |id: i64| items[row_of(items, Some(id)).unwrap()].file_data.remote_hash
}

/// The names on the transfer station of those of `ids` that are there.
pub open spec fn transfer_hashes(items: Seq<ClipboardItem>, ids: Seq<i64>) -> Seq<String> {
    ids.filter(on_station(items)).map_values(station_hash(items))
}

/// The paste format to record a hotkey with: the item's own, if it has one.
pub open spec fn recording_format(
    items: Seq<ClipboardItem>,
    id: i64,
    default_format: String,
) -> String {
    match row_of(items, Some(id)) {
        Some(i) => if items[i].custom_hotkey_format@.len() > 0 {
            items[i].custom_hotkey_format
        } else {
            default_format
        },
        None => default_format,
    }
}

impl<S> ListModel<S> {
    /// The item that is edited in place.
    pub open spec fn locked_item(self) -> Option<i64> {
        if self.editing_note_id > 0 {
            Some(self.editing_note_id)
        } else if self.recording_hotkey_id > 0 {
            Some(self.recording_hotkey_id)
        } else {
            None
        }
    }

    /// The same list with no hotkey being recorded.
    pub open spec fn not_recording(self) -> Self {
        ListModel {
            recording_hotkey_id: -1i64,
            recording_hotkey_format: Seq::empty(),
            hovered_index: None,
            ..self
        }
    }

    /// The same list with a question asked.
    pub open spec fn asking(self, dialog: ConfirmModel) -> Self {
        ListModel { confirm_dialog: Some(dialog), ..self }
    }

    /// The same list with the context menu closed.
    pub open spec fn menu_hidden(self) -> Self {
        ListModel { context_menu_visible: false, context_menu_item: None, ..self }
    }

    /// The same list with the tag picker open.
    pub open spec fn picking_tags(
        self,
        is_batch: bool,
        item_id: i64,
        anchor: TagPickerAnchor,
    ) -> Self {
        ListModel {
            tag_picker_visible: true,
            tag_picker_anchor: anchor,
            tag_picker_is_batch: is_batch,
            tag_picker_item_id: if is_batch {
                -1i64
            } else {
                item_id
            },
            ..self
        }
    }

    /// Whether exactly the entries of the transfer station are selected.
    pub open spec fn only_station_selected(self) -> bool {
        &&& self.selected_ids.len() > 0
        &&& transfer_hashes(self.items, self.selected_ids).len() == self.selected_ids.len()
    }

    /// The question that precedes deleting the selected items.
    pub open spec fn delete_question(self) -> Option<ConfirmModel> {
        let hashes = transfer_hashes(self.items, self.selected_ids);
        if self.only_station_selected() {
            if hashes.len() == 1 {
                Some(ConfirmModel::Transfer { hash: hashes[0] })
            } else {
                Some(ConfirmModel::TransferBatch { hashes })
            }
        } else if self.selected_count > 1 {
            Some(ConfirmModel::Batch { count: self.selected_ids.len() })
        } else {
            match id_at(self.items, self.selected_index) {
                Some(id) => Some(ConfirmModel::Single { id }),
                None => None,
            }
        }
    }
}

impl<S> ListWorld<S> {
    /// One item's favorite mark toggled, and the item kept active.
    pub open spec fn toggle_favorite(self, id: i64) -> Self {
        self.change_items(Op::ToggleFavorite { id }).ask(Op::ReselectToggled { id })
    }

    /// The selected items' favorite marks toggled.
    pub open spec fn toggle_favorite_batch(self) -> Self {
        self.change_items(Op::BatchToggleFavorite).ask(Op::SelectTop)
    }

    /// The favorite marks of the selected items or of the active one toggled.
    pub open spec fn toggle_favorite_selected(self) -> Self {
        if self.list.selected_count > 1 {
            self.toggle_favorite_batch()
        } else {
            match id_at(self.list.items, self.list.selected_index) {
                Some(id) => self.toggle_favorite(id),
                None => self.ask(Op::SyncList).ask(Op::SelectTop),
            }
        }
    }

    /// The edit page opened for the active item.
    pub open spec fn edit_active(self) -> Self {
        match id_at(self.list.items, self.list.selected_index) {
            Some(id) => self.ask(Op::Emit { event: ClipboardListEvent::OpenEdit(id) }),
            None => self,
        }
    }

    /// An item's note edited in place, from a text or from nothing.
    pub open spec fn edit_note(self, id: i64, text: Option<String>) -> Self {
        world(ListModel { editing_note_id: id, ..self.list }, self.app).lock(id).ask(
            Op::FillNoteEditor { text },
        )
    }

    /// The active item's note edited in place.
    pub open spec fn edit_active_note(self) -> Self {
        match id_at(self.list.items, self.list.selected_index) {
            Some(id) => if id != self.list.editing_note_id {
                self.edit_note(
                    id,
                    Some(self.list.items[self.list.selected_index.unwrap()].note),
                )
            } else {
                self
            },
            None => self,
        }
    }

    /// The note that is being edited stored, and the editing ended.
    pub open spec fn commit_note(self, text: String) -> Self {
        let stored = if self.list.editing_note_id > 0 {
            self.change_items(Op::UpdateNote { id: self.list.editing_note_id, text })
        } else {
            self
        };
        world(
            ListModel { editing_note_id: -1i64, hovered_index: None, ..stored.list },
            stored.app,
        ).ask(Op::FocusList)
    }

    /// A hotkey recorded for an item.
    pub open spec fn record_hotkey(self, id: i64, default_format: String) -> Self {
        let format = recording_format(self.list.items, id, default_format);
        world(
            ListModel {
                confirm_dialog: None,
                recording_hotkey_format: format@,
                recording_hotkey_id: id,
                ..self.list.panels_dismissed()
            },
            self.app.asking(Op::StartItemHotkeyRecording { id, format }),
        ).lock(id)
    }

    /// The paste format of the hotkey that is being recorded changed.
    pub open spec fn choose_format(self, format: String) -> Self {
        if self.list.recording_hotkey_id > 0 {
            world(
                ListModel { recording_hotkey_format: format@, ..self.list },
                self.app.asking(Op::UpdateRecordingFormat { format }),
            )
        } else {
            self
        }
    }

    /// The recording of a hotkey cancelled.
    pub open spec fn cancel_recording(self, consumed: bool) -> Self {
        world(
            ListModel { escape_consumed_inline: consumed, ..self.list.not_recording() },
            self.app.asking(Op::CancelCustomRecording),
        )
    }

    /// The recorded hotkey confirmed, if there is one; else the recording
    /// cancelled.
    pub open spec fn confirm_recording(self) -> Self {
        if self.app.pending_single_hotkey {
            self.ask(Op::ConfirmHotkeyRecording)
        } else {
            self.cancel_recording(true)
        }
    }

    /// Whether Escape does anything in the list.
    pub open spec fn escapes(self) -> bool {
        ||| self.list.escape_consumed_inline
        ||| self.list.busy()
        ||| self.reduces()
    }

    /// The list after Escape: of what is going on, the first thing is ended.
    pub open spec fn escape(self, mark: bool) -> Self {
        if self.list.escape_consumed_inline {
            world(ListModel { escape_consumed_inline: false, ..self.list }, self.app)
        } else if self.list.recording_hotkey_id > 0 {
            self.cancel_recording(mark)
        } else if self.list.busy() {
            world(
                ListModel {
                    editing_note_id: -1i64,
                    confirm_dialog: None,
                    escape_consumed_inline: mark,
                    ..self.list.panels_dismissed()
                },
                self.app,
            )
        } else {
            self.reduce()
        }
    }
}

impl<S> ClipboardListView<S> {
    /// Gives the list the focus.
    pub fn focus(&self, app: &mut AppState)
        ensures
            final(app)@ == old(app)@.asking(Op::FocusList),
    {
        app.request(Op::FocusList);
    }

    /// Toggles the favorite mark of an item and keeps the item active.
    pub(crate) fn request_favorite(id: i64, app: &mut AppState)
        ensures
            final(app)@ == old(app)@.asking(Op::ToggleFavorite { id }).asking(
                Op::SyncList,
            ).asking(Op::ReselectToggled { id }),
    {
        app.request(Op::ToggleFavorite { id });
        app.request(Op::SyncList);
        app.request(Op::ReselectToggled { id });
    }

    /// Toggles the favorite marks of the selected items.
    pub(crate) fn request_batch_favorite(app: &mut AppState)
        ensures
            final(app)@ == old(app)@.asking(Op::BatchToggleFavorite).asking(Op::SyncList).asking(
                Op::SelectTop,
            ),
    {
        app.request(Op::BatchToggleFavorite);
        app.request(Op::SyncList);
        app.request(Op::SelectTop);
    }

    /// Toggles the favorite marks of the selected items or of the active one.
    pub fn action_toggle_favorite(&self, app: &mut AppState)
        ensures
            world(self@, final(app)@) == world(self@, old(app)@).toggle_favorite_selected(),
    {
        if self.selected_count > 1 {
            Self::request_batch_favorite(app);
            return;
        }
        match item_id_at(self.items.as_slice(), self.selected_index) {
            Some(id) => Self::request_favorite(id, app),
            None => {
                app.request(Op::SyncList);
                app.request(Op::SelectTop);
            },
        }
    }

    /// Opens the edit page for the active item.
    pub fn action_edit(&self, app: &mut AppState)
        ensures
            world(self@, final(app)@) == world(self@, old(app)@).edit_active(),
    {
        if let Some(id) = item_id_at(self.items.as_slice(), self.selected_index) {
            app.request(Op::Emit { event: ClipboardListEvent::OpenEdit(id) });
        }
    }

    /// Starts editing an item's note in place, from a text or from nothing.
    pub fn start_note_edit(
        &mut self,
        id: i64,
        initial_text: Option<String>,
        app: &mut AppState,
    )
        requires
            old(self)@.wf(),
        ensures
            world(final(self)@, final(app)@) == world(old(self)@, old(app)@).edit_note(
                id,
                initial_text,
            ),
            final(self)@.wf(),
    {
        self.editing_note_id = id;
        self.lock_selection_to_item(id, app);
        app.request(Op::FillNoteEditor { text: initial_text });
    }

    /// Starts editing the active item's note in place.
    pub fn action_edit_note(&mut self, app: &mut AppState)
        requires
            old(self)@.wf(),
        ensures
            world(final(self)@, final(app)@) == world(old(self)@, old(app)@).edit_active_note(),
            final(self)@.wf(),
    {
        if let Some(index) = self.selected_index {
            if index < self.items.len() && self.items[index].id != self.editing_note_id {
                let id = self.items[index].id;
                let note = self.items[index].note.clone();
                self.start_note_edit(id, Some(note), app);
            }
        }
    }

    /// Stores the note that is being edited and ends the editing.
    pub fn commit_note_edit(&mut self, text: String, app: &mut AppState)
        ensures
            world(final(self)@, final(app)@) == world(old(self)@, old(app)@).commit_note(text),
            final(self)@.wf() == old(self)@.wf(),
    {
        if self.editing_note_id > 0 {
            app.request(Op::UpdateNote { id: self.editing_note_id, text });
            app.request(Op::SyncList);
        }
        self.editing_note_id = -1;
        self.hovered_index = None;
        app.request(Op::FocusList);
    }

    /// Starts recording a hotkey for an item.
    pub fn start_hotkey_recording(&mut self, id: i64, default_format: String, app: &mut AppState)
        requires
            old(self)@.wf(),
        ensures
            world(final(self)@, final(app)@) == world(old(self)@, old(app)@).record_hotkey(
                id,
                default_format,
            ),
            final(self)@.wf(),
    {
        self.dismiss_all_panels();
        self.confirm_dialog = None;
        let mut format = default_format;
        if let Some(index) = position_of_item(self.items.as_slice(), id) {
            if self.items[index].custom_hotkey_format.as_str().unicode_len() > 0 {
                format = self.items[index].custom_hotkey_format.clone();
            }
        }
        self.recording_hotkey_format = format.clone();
        app.request(Op::StartItemHotkeyRecording { id, format });
        self.recording_hotkey_id = id;
        self.lock_selection_to_item(id, app);
    }

    /// Cancels the recording of a hotkey.
    pub fn cancel_hotkey_recording(&mut self, app: &mut AppState)
        ensures
            world(final(self)@, final(app)@) == world(old(self)@, old(app)@).cancel_recording(true),
    {
        app.request(Op::CancelCustomRecording);
        self.finish_hotkey_recording_ui();
        self.escape_consumed_inline = true;
    }

    /// Confirms the recorded hotkey, if there is one; else cancels the recording.
    pub fn confirm_hotkey_recording(&mut self, app: &mut AppState)
        ensures
            world(final(self)@, final(app)@) == world(old(self)@, old(app)@).confirm_recording(),
    {
        if app.pending_single_hotkey {
            app.request(Op::ConfirmHotkeyRecording);
        } else {
            self.cancel_hotkey_recording(app);
        }
    }

    /// Takes the answer to a confirmation: where the hotkey was not accepted, the
    /// recording is cancelled.
    pub fn hotkey_recording_confirmed(&mut self, accepted: bool, app: &mut AppState)
        ensures
            world(final(self)@, final(app)@) == (if accepted {
                world(old(self)@, old(app)@)
            } else {
                world(old(self)@, old(app)@).cancel_recording(true)
            }),
    {
        if !accepted {
            self.cancel_hotkey_recording(app);
        }
    }

    /// Changes the paste format of the hotkey that is being recorded.
    pub fn update_recording_hotkey_format(&mut self, format: String, app: &mut AppState)
        ensures
            world(final(self)@, final(app)@) == world(old(self)@, old(app)@).choose_format(format),
    {
        if self.recording_hotkey_id <= 0 {
            return;
        }
        self.recording_hotkey_format = format.clone();
        app.request(Op::UpdateRecordingFormat { format });
    }

    /// Leaves the recording of a hotkey.
    pub fn finish_hotkey_recording_ui(&mut self)
        ensures
            final(self)@ == old(self)@.not_recording(),
    {
        self.recording_hotkey_id = -1;
        self.recording_hotkey_format = String::new();
        self.hovered_index = None;
    }

    /// The item that is edited in place.
    pub fn inline_locked_item_id(&self) -> (r: Option<i64>)
        ensures
            r == self@.locked_item(),
    {
        if self.editing_note_id > 0 {
            Some(self.editing_note_id)
        } else if self.recording_hotkey_id > 0 {
            Some(self.recording_hotkey_id)
        } else {
            None
        }
    }

    /// The names on the transfer station of the selected items that are there.
    pub fn selected_transfer_hashes(&self) -> (r: Vec<String>)
        ensures
            r@ == transfer_hashes(self@.items, self@.selected_ids),
    {
        let mut r: Vec<String> = Vec::new();
        let mut i: usize = 0;
        let ghost keep = on_station(self@.items);
        let ghost name = station_hash(self@.items);
        proof {
            lemma_filter_start(self@.selected_ids, keep);
        }
        assert(r@ =~= self@.selected_ids.take(0).filter(keep).map_values(name));
        while i < self.selected_ids.len()
            invariant
                0 <= i <= self.selected_ids.len(),
                keep == on_station(self@.items),
                name == station_hash(self@.items),
                r@ == self@.selected_ids.take(i as int).filter(keep).map_values(name),
            decreases self.selected_ids.len() - i,
        {
            let id = self.selected_ids[i];
            let ghost done = self@.selected_ids.take(i as int);
            proof {
                lemma_filter_step(self@.selected_ids, keep, i as int);
            }
            if let Some(index) = position_of_item(self.items.as_slice(), id) {
                let item = &self.items[index];
                if item_is_transfer_entry(item)
                    && item.file_data.remote_hash.as_str().unicode_len() > 0 {
                    r.push(item.file_data.remote_hash.clone());
                    assert(keep(id));
                    assert(done.filter(keep).push(id).map_values(name) =~= done.filter(
                        keep,
                    ).map_values(name).push(name(id)));
                }
            }
            i += 1;
        }
        assert(self@.selected_ids.take(i as int) =~= self@.selected_ids);
        r
    }

    /// Asks whether to delete the selected entries of the transfer station.
    pub(crate) fn show_transfer_batch_delete_confirm(&mut self)
        ensures
            final(self)@ == ({
                let hashes = transfer_hashes(old(self)@.items, old(self)@.selected_ids);
                if hashes.len() == 0 {
                    old(self)@
                } else {
                    old(self)@.asking(ConfirmModel::TransferBatch { hashes })
                }
            }),
    {
        let hashes = self.selected_transfer_hashes();
        if hashes.len() == 0 {
            return;
        }
        self.confirm_dialog = Some(ConfirmDialogState::TransferBatch { hashes });
    }

    /// Asks whether to delete the selected items.
    pub fn action_delete(&mut self)
        ensures
            final(self)@ == (match old(self)@.delete_question() {
                Some(question) => old(self)@.asking(question),
                None => old(self)@,
            }),
    {
        let hashes = self.selected_transfer_hashes();
        if hashes.len() > 0 && hashes.len() == self.selected_ids.len() {
            if hashes.len() == 1 {
                self.confirm_dialog = Some(ConfirmDialogState::Transfer { hash: hashes[0].clone() });
            } else {
                self.confirm_dialog = Some(ConfirmDialogState::TransferBatch { hashes });
            }
        } else if self.selected_count > 1 {
            self.confirm_dialog = Some(
                ConfirmDialogState::Batch { count: self.selected_ids.len() },
            );
        } else if let Some(id) = item_id_at(self.items.as_slice(), self.selected_index) {
            self.confirm_dialog = Some(ConfirmDialogState::Single { id });
        }
    }

    /// Handles Escape. Says whether the list had use for it; otherwise the window
    /// is to be closed.
    fn handle_escape_inner(&mut self, mark_inline_bubble_guard: bool, app: &mut AppState) -> (r:
        bool)
        requires
            old(self)@.wf(),
        ensures
            r == world(old(self)@, old(app)@).escapes(),
            world(final(self)@, final(app)@) == world(old(self)@, old(app)@).escape(
                mark_inline_bubble_guard,
            ),
            final(self)@.wf(),
    {
        if self.escape_consumed_inline {
            self.escape_consumed_inline = false;
            return true;
        }
        if self.recording_hotkey_id > 0 {
            self.cancel_hotkey_recording(app);
            self.escape_consumed_inline = mark_inline_bubble_guard;
            return true;
        }
        if self.has_any_panel_or_editing() {
            self.dismiss_all_panels();
            self.editing_note_id = -1;
            self.confirm_dialog = None;
            self.escape_consumed_inline = mark_inline_bubble_guard;
            return true;
        }
        self.reduce_to_single_selection(app)
    }

    /// Handles Escape that the list sees before the window does.
    pub fn handle_escape(&mut self, app: &mut AppState) -> (r: bool)
        requires
            old(self)@.wf(),
        ensures
            r == world(old(self)@, old(app)@).escapes(),
            world(final(self)@, final(app)@) == world(old(self)@, old(app)@).escape(true),
            final(self)@.wf(),
    {
        self.handle_escape_inner(true, app)
    }

    /// Handles Escape that the window hands down.
    pub fn handle_escape_from_root(&mut self, app: &mut AppState) -> (r: bool)
        requires
            old(self)@.wf(),
        ensures
            r == world(old(self)@, old(app)@).escapes(),
            world(final(self)@, final(app)@) == world(old(self)@, old(app)@).escape(false),
            final(self)@.wf(),
    {
        self.handle_escape_inner(false, app)
    }

    /// Whether the context menu is open.
    pub fn context_menu_visible(&self) -> (r: bool)
        ensures
            r == self@.context_menu_visible,
    {
        self.context_menu_visible
    }

    /// Whether the context menu is about the selected items.
    pub fn context_menu_is_batch(&self) -> (r: bool)
        ensures
            r == self@.context_menu_is_batch,
    {
        self.context_menu_is_batch
    }

    /// Whether the context menu is about selected entries of the transfer
    /// station.
    pub fn context_menu_is_transfer_batch(&self) -> (r: bool)
        ensures
            r == (self@.context_menu_is_batch && self@.only_station_selected()),
    {
        self.context_menu_is_batch && self.selected_ids.len() > 0
            && self.selected_transfer_hashes().len() == self.selected_ids.len()
    }

    /// Whether the selected items can be merged into one.
    pub fn can_merge_selected_items(&self, app: &AppState) -> (r: bool)
        ensures
            r == app@.can_merge_selected,
    {
        app.can_merge_selected
    }

    /// The item that the context menu is about.
    pub fn context_menu_item(&self) -> (r: Option<&ClipboardItem>)
        ensures
            match r {
                Some(item) => self@.context_menu_item == Some(item@),
                None => self@.context_menu_item is None,
            },
    {
        self.context_menu_item.as_ref()
    }

    /// Dismisses the context menu.
    pub fn dismiss_context_menu(&mut self)
        ensures
            final(self)@ == (ListModel { hovered_index: None, ..old(self)@.menu_hidden() }),
    {
        self.hide_context_menu();
        self.hovered_index = None;
    }

    /// Closes the context menu and leaves the hovered row.
    pub fn hide_context_menu(&mut self)
        ensures
            final(self)@ == old(self)@.menu_hidden(),
    {
        self.context_menu_visible = false;
        self.context_menu_item = None;
    }

    /// Paints the list in another theme from now on.
    pub fn set_theme(&mut self, theme: ClippiTheme)
        ensures
            final(self)@ == (ListModel { theme, ..old(self)@ }),
    {
        self.theme = theme;
    }

    /// The question that is being asked.
    pub fn confirm_dialog_state(&self) -> (r: Option<&ConfirmDialogState>)
        ensures
            match r {
                Some(dialog) => self@.confirm_dialog == Some(dialog@),
                None => self@.confirm_dialog is None,
            },
    {
        self.confirm_dialog.as_ref()
    }

    /// Drops the question that is being asked.
    pub fn dismiss_confirm_dialog(&mut self)
        ensures
            final(self)@ == (ListModel { confirm_dialog: None, ..old(self)@ }),
    {
        self.confirm_dialog = None;
    }
}

} // verus!
