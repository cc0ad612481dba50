//! The tag picker of the clipboard list.

use vstd::prelude::*;

use crate::app_state::{AppState, Op};
use crate::clipboard_list::{world, ClipboardListView, ListModel, ListWorld, TagPickerAnchor};
use crate::ids::contains_id;
use crate::items::{id_at, item_id_at, position_of_item, row_of};
use crate::types::{ClipboardItem, TagInfo, TagState};

verus! {

/// Whether an item carries a tag.
pub open spec fn carries(item: ClipboardItem, tag_id: i64) -> bool {
    exists|k: int| 0 <= k < item.tags@.len() && (#[trigger] item.tags@[k]).id == tag_id
}

/// Whether an item carries a tag.
pub fn item_carries(item: &ClipboardItem, tag_id: i64) -> (r: bool)
    ensures
        r == carries(*item, tag_id),
{
    let mut k: usize = 0;
    while k < item.tags.len()
        invariant
            0 <= k <= item.tags.len(),
            forall|j: int| 0 <= j < k ==> (#[trigger] item.tags@[j]).id != tag_id,
        decreases item.tags.len() - k,
    {
        if item.tags[k].id == tag_id {
            return true;
        }
        k += 1;
    }
    false
}

/// Whether a row is one of `ids` and carries a tag.
pub open spec fn chosen_and_tagged(
    items: Seq<ClipboardItem>,
    ids: Seq<i64>,
    tag_id: i64,
    i: int,
) -> bool {
    0 <= i < items.len() && ids.contains(items[i].id) && carries(items[i], tag_id)
}

/// Whether a row is one of `ids` and does not carry a tag.
pub open spec fn chosen_and_untagged(
    items: Seq<ClipboardItem>,
    ids: Seq<i64>,
    tag_id: i64,
    i: int,
) -> bool {
    0 <= i < items.len() && ids.contains(items[i].id) && !carries(items[i], tag_id)
}

/// How many of the rows that are among `ids` carry a tag.
pub open spec fn batch_tag_state(
    items: Seq<ClipboardItem>,
    ids: Seq<i64>,
    tag_id: i64,
) -> TagState {
    if !exists|i: int| chosen_and_tagged(items, ids, tag_id, i) {
        TagState::Absent
    } else if exists|i: int| chosen_and_untagged(items, ids, tag_id, i) {
        TagState::Partial
    } else {
        TagState::All
    }
}

/// Whether the item of an id carries a tag.
pub open spec fn single_tag_state(
    items: Seq<ClipboardItem>,
    id: i64,
    tag_id: i64,
) -> TagState {
    match row_of(items, Some(id)) {
        Some(i) => if carries(items[i], tag_id) {
            TagState::All
        } else {
            TagState::Absent
        },
        None => TagState::Absent,
    }
}

impl<S> ListModel<S> {
    /// How many of the items that the tag picker is about carry a tag.
    pub open spec fn tag_state(self, tag_id: i64) -> TagState {
        if self.tag_picker_is_batch {
            batch_tag_state(self.items, self.selected_ids, tag_id)
        } else {
            single_tag_state(self.items, self.tag_picker_item_id, tag_id)
        }
    }

    /// The same list with the tag picker closed.
    pub open spec fn picker_hidden(self) -> Self {
        ListModel { tag_picker_visible: false, tag_picker_item_id: -1i64, ..self }
    }
}

impl<S> ListWorld<S> {
    /// The tag picker opened beside the active row.
    pub open spec fn pick_tags(self) -> Self {
        match self.list.selected_index {
            Some(i) => if !self.list.busy() && 0 <= i < self.list.items.len() {
                world(
                    self.list.picking_tags(
                        self.list.selected_count > 1,
                        self.list.items[i].id,
                        TagPickerAnchor::Row { index: i as usize },
                    ),
                    self.app,
                )
            } else {
                self
            },
            None => self,
        }
    }

    /// The tag picker opened from the context menu.
    pub open spec fn pick_tags_from_menu(self) -> Self {
        world(
            self.list.picking_tags(
                self.list.context_menu_is_batch,
                match self.list.context_menu_item {
                    Some(item) => item.id,
                    None => -1i64,
                },
                TagPickerAnchor::ContextMenu,
            ),
            self.app,
        )
    }

    /// The tag picker opened at the pointer: for the selected items, or for the
    /// hovered one, if it is a stored item.
    pub open spec fn pick_tags_hovered(self, is_batch: bool) -> Self {
        if is_batch {
            world(
                self.list.picking_tags(true, -1i64, TagPickerAnchor::Pointer),
                self.app,
            )
        } else {
            match id_at(self.list.items, self.list.hovered_index) {
                Some(id) => if id > 0 {
                    world(
                        self.list.picking_tags(false, id, TagPickerAnchor::Pointer),
                        self.app,
                    )
                } else {
                    self
                },
                None => self,
            }
        }
    }

    /// A tag of the picker toggled: added to all the items where none carries
    /// it, else removed from them.
    pub open spec fn toggle_tag(self, tag_id: i64, state: TagState) -> Self {
        let asked = if self.list.tag_picker_is_batch {
            if state == TagState::Absent {
                self.ask_for_selected(Op::BatchAddTag { tag_id })
            } else {
                self.ask_for_selected(Op::BatchRemoveTag { tag_id })
            }
        } else if self.list.tag_picker_item_id > 0 {
            self.ask(Op::ToggleItemTag { item_id: self.list.tag_picker_item_id, tag_id })
        } else {
            self
        };
        asked.ask(Op::SyncList)
    }

    /// Every tag removed from the items that the picker is about.
    pub open spec fn clear_tags(self) -> Self {
        if self.list.tag_picker_is_batch {
            world(
                self.list.picker_hidden(),
                self.ask_for_selected(Op::ClearTagsForItems).ask(Op::SyncList).app,
            )
        } else if self.list.tag_picker_item_id > 0 {
            self.change_items(Op::ClearItemTags { id: self.list.tag_picker_item_id })
        } else {
            self.ask(Op::SyncList)
        }
    }
}

impl<S> ClipboardListView<S> {
    /// Opens the tag picker.
    fn open_tag_picker(&mut self, is_batch: bool, item_id: i64, anchor: TagPickerAnchor)
        ensures
            final(self)@ == old(self)@.picking_tags(is_batch, item_id, anchor),
    {
        self.tag_picker_visible = true;
        self.tag_picker_anchor = anchor;
        self.tag_picker_is_batch = is_batch;
        self.tag_picker_item_id = if is_batch {
            -1
        } else {
            item_id
        };
    }

    /// Opens the tag picker beside the active row.
    pub fn action_show_tag_picker(&mut self, app: &AppState)
        ensures
            world(final(self)@, app@) == world(old(self)@, app@).pick_tags(),
    {
        if self.has_any_panel_or_editing() {
            return;
        }
        if let Some(index) = self.selected_index {
            if index < self.items.len() {
                let is_batch = self.selected_count > 1;
                let item_id = self.items[index].id;
                self.open_tag_picker(is_batch, item_id, TagPickerAnchor::Row { index });
            }
        }
    }

    /// Opens the tag picker from the context menu.
    pub(crate) fn show_context_menu_tag_picker(&mut self, app: &AppState)
        ensures
            world(final(self)@, app@) == world(old(self)@, app@).pick_tags_from_menu(),
    {
        let item_id = match &self.context_menu_item {
            Some(item) => item.id,
            None => -1,
        };
        let is_batch = self.context_menu_is_batch;
        self.open_tag_picker(is_batch, item_id, TagPickerAnchor::ContextMenu);
    }

    /// Opens the tag picker at the pointer: for the selected items, or for the
    /// hovered one.
    pub(crate) fn show_hover_tag_picker(&mut self, is_batch: bool, app: &AppState)
        ensures
            world(final(self)@, app@) == world(old(self)@, app@).pick_tags_hovered(is_batch),
    {
        if is_batch {
            self.open_tag_picker(true, -1, TagPickerAnchor::Pointer);
            return;
        }
        if let Some(id) = item_id_at(self.items.as_slice(), self.hovered_index) {
            if id > 0 {
                self.open_tag_picker(false, id, TagPickerAnchor::Pointer);
            }
        }
    }

    /// Whether the tag picker is open.
    pub fn tag_picker_visible(&self) -> (r: bool)
        ensures
            r == self@.tag_picker_visible,
    {
        self.tag_picker_visible
    }

    /// Whether the tag picker is about the selected items.
    pub fn tag_picker_is_batch(&self) -> (r: bool)
        ensures
            r == self@.tag_picker_is_batch,
    {
        self.tag_picker_is_batch
    }

    /// Closes the tag picker.
    pub fn hide_tag_picker(&mut self)
        ensures
            final(self)@ == old(self)@.picker_hidden(),
    {
        self.tag_picker_visible = false;
        self.tag_picker_item_id = -1;
    }

    /// How many of the selected items carry a tag.
    fn find_batch_tag_state(&self, tag_id: i64) -> (r: TagState)
        ensures
            r == batch_tag_state(self@.items, self@.selected_ids, tag_id),
    {
        let mut tagged = false;
        let mut untagged = false;
        let mut i: usize = 0;
        while i < self.items.len()
            invariant
                0 <= i <= self.items.len(),
                tagged == (exists|j: int|
                    j < i && chosen_and_tagged(self@.items, self@.selected_ids, tag_id, j)),
                untagged == (exists|j: int|
                    j < i && chosen_and_untagged(self@.items, self@.selected_ids, tag_id, j)),
            decreases self.items.len() - i,
        {
            let ghost at = i as int;
            if contains_id(self.selected_ids.as_slice(), self.items[i].id) {
                if item_carries(&self.items[i], tag_id) {
                    tagged = true;
                    assert(chosen_and_tagged(self@.items, self@.selected_ids, tag_id, at));
                } else {
                    untagged = true;
                    assert(chosen_and_untagged(self@.items, self@.selected_ids, tag_id, at));
                }
            }
            i += 1;
        }
        if !tagged {
            TagState::Absent
        } else if untagged {
            TagState::Partial
        } else {
            TagState::All
        }
    }

    /// Whether the item that the tag picker is about carries a tag.
    fn find_single_tag_state(&self, tag_id: i64) -> (r: TagState)
        ensures
            r == single_tag_state(self@.items, self@.tag_picker_item_id, tag_id),
    {
        match position_of_item(self.items.as_slice(), self.tag_picker_item_id) {
            Some(i) => {
                if item_carries(&self.items[i], tag_id) {
                    TagState::All
                } else {
                    TagState::Absent
                }
            },
            None => TagState::Absent,
        }
    }

    /// The rows of the tag picker: every tag, and how many of the items that the
    /// picker is about carry it.
    pub fn tag_picker_rows(&self, app: &AppState) -> (r: Vec<(TagInfo, TagState)>)
        ensures
            r@ == app@.tags.map_values(|tag: TagInfo| (tag, self@.tag_state(tag.id))),
    {
        let mut r: Vec<(TagInfo, TagState)> = Vec::new();
        let mut i: usize = 0;
        while i < app.tags.len()
            invariant
                0 <= i <= app.tags.len(),
                r@.len() == i,
                forall|j: int|
                    0 <= j < i ==> #[trigger] r@[j] == (
                        app@.tags[j],
                        self@.tag_state(app@.tags[j].id),
                    ),
            decreases app.tags.len() - i,
        {
            let tag_id = app.tags[i].id;
            let state = if self.tag_picker_is_batch {
                self.find_batch_tag_state(tag_id)
            } else {
                self.find_single_tag_state(tag_id)
            };
            r.push((app.tags[i].duplicate(), state));
            i += 1;
        }
        assert(r@ =~= app@.tags.map_values(|tag: TagInfo| (tag, self@.tag_state(tag.id))));
        r
    }

    /// Toggles a tag of the picker: adds it to all the items where none carries
    /// it, else removes it from them.
    pub fn toggle_picker_tag(&self, tag_id: i64, state: TagState, app: &mut AppState)
        ensures
            world(self@, final(app)@) == world(self@, old(app)@).toggle_tag(tag_id, state),
    {
        if self.tag_picker_is_batch {
            if state == TagState::Absent {
                app.request_for(Op::BatchAddTag { tag_id }, self.selected_ids.as_slice());
            } else {
                app.request_for(Op::BatchRemoveTag { tag_id }, self.selected_ids.as_slice());
            }
        } else if self.tag_picker_item_id > 0 {
            app.request(Op::ToggleItemTag { item_id: self.tag_picker_item_id, tag_id });
        }
        app.request(Op::SyncList);
    }

    /// Creates a tag.
    pub fn create_tag_from_picker(&self, name: String, app: &mut AppState)
        ensures
            world(self@, final(app)@) == world(self@, old(app)@).change_items(
                Op::CreateTag { name },
            ),
    {
        app.request(Op::CreateTag { name });
        app.request(Op::SyncList);
    }

    /// Removes every tag from the items that the picker is about.
    pub fn clear_picker_tags(&mut self, app: &mut AppState)
        ensures
            world(final(self)@, final(app)@) == world(old(self)@, old(app)@).clear_tags(),
    {
        let target_id = self.tag_picker_item_id;
        if self.tag_picker_is_batch {
            app.request_for(Op::ClearTagsForItems, self.selected_ids.as_slice());
            self.hide_tag_picker();
        } else if target_id > 0 {
            app.request(Op::ClearItemTags { id: target_id });
        }
        app.request(Op::SyncList);
    }
}

} // verus!
