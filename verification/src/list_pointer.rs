//! The pointer over the clipboard list, and what each card shows.

use vstd::prelude::*;

use crate::app_state::AppState;
use crate::click::{additive_selection_modifier, Modifiers};
use crate::clipboard_list::{world, ClipboardListView, ListModel, ListWorld};
use crate::ids::{contains_id, position_of_id};
use crate::items::item_is_pending;
use crate::text::{contains_name, holds_name};
use crate::types::{ContentType, FileEntry};

verus! {

impl<S> ListModel<S> {
    /// Whether moving onto a row selects it: it is another row, at most one item
    /// is selected, and no modifier is held that manages the selection.
    pub open spec fn hover_selects(self, index: int, modifiers: Modifiers) -> bool {
        &&& self.hovered_index != Some(index)
        &&& self.selected_ids.len() <= 1
        &&& !modifiers.additive()
        &&& !modifiers.shift
    }

    /// Whether the place of the pointer counts: no item is edited in place, and the
    /// row is no placeholder that would be selected.
    pub open spec fn pointer_counts(self, index: int, modifiers: Modifiers) -> bool {
        self.locked_item() is None && !(self.hover_selects(index, modifiers)
            && self.is_placeholder(index))
    }

    /// The pointer moved off the rows.
    pub open spec fn left(self) -> Self {
        if self.locked_item() is Some {
            self
        } else {
            ListModel { hovered_index: None, ..self }
        }
    }

    /// Whether a card shows a row of the list.
    pub open spec fn is_card(self, index: int, uploads: Seq<String>, card: CardView) -> bool {
        let item = self.items[index];
        let locked = self.locked_item();
        &&& card.selected == (locked == Some(item.id) || self.selected_ids.contains(item.id))
        &&& card.hovered == (locked == Some(item.id) || (locked is None && self.hovered_index
            == Some(index)))
        &&& card.selection_order == selection_order(self.selected_ids, item.id)
        &&& card.editing == (self.editing_note_id == item.id)
        &&& card.recording_hotkey == (self.recording_hotkey_id == item.id)
        &&& card.hotkey_format@ == (if self.recording_hotkey_id == item.id {
            self.recording_hotkey_format
        } else {
            item.custom_hotkey_format@
        })
        &&& card.source_is_uploading == (item.content_type == ContentType::File && is_uploading(
            item.file_data.files@,
            uploads,
        ))
    }
}

impl<S> ListWorld<S> {
    /// The pointer moved over a row.
    pub open spec fn hover(self, index: int, modifiers: Modifiers) -> Self {
        if self.list.locked_item() is Some {
            self
        } else {
            let entered = world(
                ListModel { hovered_index: Some(index), ..self.list },
                self.app,
            );
            if self.list.hover_selects(index, modifiers) {
                entered.select(index)
            } else {
                entered
            }
        }
    }

    /// A right click; on macOS, with Control held, it is an additive click.
    pub open spec fn press_right(self, index: int, mac_control: bool) -> Self {
        if mac_control {
            self.toggle(index)
        } else {
            self.right_click(index)
        }
    }

    /// The row of a right click selected, unless it already is.
    pub open spec fn select_for_menu(self, index: int) -> Self {
        let start = world(self.list.without_candidate(), self.app);
        if self.list.selected_ids.contains(self.list.items[index].id) {
            start
        } else {
            start.select(index)
        }
    }

    /// A right click on a row: the context menu opened for it, or for the
    /// selected items if it is one of several.
    pub open spec fn right_click(self, index: int) -> Self {
        if self.list.can_select(index) {
            let item = self.list.items[index];
            let after = self.select_for_menu(index);
            world(
                ListModel {
                    context_menu_visible: true,
                    context_menu_item: Some(item@),
                    context_menu_is_batch: self.list.selected_ids.len() > 1
                        && self.list.selected_ids.contains(item.id),
                    ..after.list
                },
                after.app,
            )
        } else {
            world(self.list.without_candidate(), self.app)
        }
    }
}

/// What a card shows of the list's state.
#[derive(Debug, Clone, PartialEq, Eq)]
pub struct CardView {
    pub selected: bool,
    pub hovered: bool,
    /// The item's place in the order of selection, counted from one; 0 where it
    /// is not selected.
    pub selection_order: usize,
    pub editing: bool,
    pub recording_hotkey: bool,
    pub hotkey_format: String,
    /// Whether one of the item's files is being uploaded.
    pub source_is_uploading: bool,
}

/// Whether one of the files is being uploaded.
pub open spec fn is_uploading(files: Seq<FileEntry>, uploads: Seq<String>) -> bool {
    exists|k: int| 0 <= k < files.len() && holds_name(uploads, (#[trigger] files[k]).path@)
}

/// An item's place in the order of selection, counted from one; 0 where it is
/// not selected.
pub open spec fn selection_order(ids: Seq<i64>, id: i64) -> int {
    match ids.index_of_first(id) {
        Some(p) => p + 1,
        None => 0,
    }
}

impl<S> ClipboardListView<S> {
    /// Handles a move of the pointer over a row. Says whether the place of the
    /// pointer counts.
    pub fn handle_hover(&mut self, index: usize, modifiers: Modifiers, app: &mut AppState) -> (r:
        bool)
        requires
            old(self)@.wf(),
        ensures
            r == old(self)@.pointer_counts(index as int, modifiers),
            world(final(self)@, final(app)@) == world(old(self)@, old(app)@).hover(
                index as int,
                modifiers,
            ),
            final(self)@.wf(),
    {
        if self.inline_locked_item_id().is_some() {
            return false;
        }
        let same = match self.hovered_index {
            Some(i) => i == index,
            None => false,
        };
        if same {
            return true;
        }
        self.hovered_index = Some(index);
        if self.selected_ids.len() <= 1 && !additive_selection_modifier(modifiers)
            && !modifiers.shift {
            if index < self.items.len() && item_is_pending(&self.items[index]) {
                return false;
            }
            self.select_index_without_scroll(index, app);
        }
        true
    }

    /// Handles a move of the pointer beside the rows.
    pub fn handle_leave(&mut self)
        ensures
            final(self)@ == old(self)@.left(),
    {
        if self.inline_locked_item_id().is_none() {
            self.hovered_index = None;
        }
    }

    /// Handles a right click on a row; on macOS, with Control held, it toggles the
    /// row like an additive click. Says whether the context menu was opened.
    pub fn handle_right_click(&mut self, index: usize, mac_control: bool, app: &mut AppState) -> (r:
        bool)
        requires
            old(self)@.wf(),
        ensures
            r == (!mac_control && old(self)@.can_select(index as int)),
            world(final(self)@, final(app)@) == world(old(self)@, old(app)@).press_right(
                index as int,
                mac_control,
            ),
            final(self)@.wf(),
    {
        if mac_control {
            self.toggle_index(index, app);
            return false;
        }
        self.modified_double_click_candidate = None;
        if index >= self.items.len() || item_is_pending(&self.items[index]) {
            return false;
        }
        let already_selected = contains_id(
            self.selected_ids.as_slice(),
            self.items[index].id,
        );
        let is_batch = self.selected_ids.len() > 1 && already_selected;
        if !already_selected {
            self.select_index_without_scroll(index, app);
        }
        assert(world(self@, app@) == world(old(self)@, old(app)@).select_for_menu(index as int));
        let item = self.items[index].duplicate();
        self.context_menu_visible = true;
        self.context_menu_item = Some(item);
        self.context_menu_is_batch = is_batch;
        true
    }

    /// What the card of a row shows of the list's state.
    pub fn card_view(&self, index: usize, app: &AppState) -> (r: Option<CardView>)
        ensures
            r is Some == (index < self@.items.len()),
            r matches Some(card) ==> self@.is_card(
                index as int,
                app@.pending_transfer_uploads,
                card,
            ),
    {
        if index >= self.items.len() {
            return None;
        }
        let item = &self.items[index];
        let (locked, other_locked) = match self.inline_locked_item_id() {
            Some(id) => (id == item.id, id != item.id),
            None => (false, false),
        };
        let under_pointer = match self.hovered_index {
            Some(i) => i == index,
            None => false,
        };
        proof {
            self@.selected_ids.index_of_first_ensures(item.id);
        }
        let order = match position_of_id(self.selected_ids.as_slice(), item.id) {
            Some(p) => {
                assert(p < self.selected_ids.len());
                p + 1
            },
            None => 0,
        };
        let recording = self.recording_hotkey_id == item.id;
        let hotkey_format = if recording {
            self.recording_hotkey_format.clone()
        } else {
            item.custom_hotkey_format.clone()
        };
        let mut uploading = false;
        if item.content_type == ContentType::File {
            let mut k: usize = 0;
            while k < item.file_data.files.len() && !uploading
                invariant
                    0 <= k <= item.file_data.files.len(),
                    uploading ==> is_uploading(
                        item.file_data.files@,
                        app@.pending_transfer_uploads,
                    ),
                    !uploading ==> forall|j: int|
                        0 <= j < k ==> !holds_name(
                            app@.pending_transfer_uploads,
                            (#[trigger] item.file_data.files@[j]).path@,
                        ),
                decreases item.file_data.files.len() - k,
            {
                if contains_name(
                    app.pending_transfer_uploads.as_slice(),
                    item.file_data.files[k].path.as_str(),
                ) {
                    uploading = true;
                }
                k += 1;
            }
        }
        Some(
            CardView {
                selected: locked || contains_id(self.selected_ids.as_slice(), item.id),
                hovered: locked || (!other_locked && under_pointer),
                selection_order: order,
                editing: self.editing_note_id == item.id,
                recording_hotkey: recording,
                hotkey_format,
                source_is_uploading: uploading,
            },
        )
    }

    /// Takes note of the language that the texts are in. Says whether it is
    /// another one, so that the placeholders of the inputs are to be renewed.
    pub fn refresh_language(&mut self, lang_version: u64) -> (r: bool)
        ensures
            r == (old(self)@.last_lang_version != lang_version),
            final(self)@ == (ListModel { last_lang_version: lang_version, ..old(self)@ }),
    {
        let changed = self.last_lang_version != lang_version;
        self.last_lang_version = lang_version;
        changed
    }
}

} // verus!
