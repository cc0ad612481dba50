//! The keys that the clipboard list listens to.

use vstd::prelude::*;

use crate::app_state::{AppState, ClipboardListEvent, Op, ScrollStrategy};
use crate::click::{primary_modifier_pressed, Modifiers};
use crate::clipboard_list::{world, ClipboardListView, ListWorld};
use crate::items::{id_at, item_id_at};
use crate::text::str_eq;
use crate::types::{ClipboardItem, ContentType};

verus! {

/// A key that the list listens to.
#[derive(Clone, Copy, Debug, PartialEq, Eq, Structural)]
pub enum ListKey {
    Up,
    Down,
    Left,
    Right,
    /// Page up, page down, home and end.
    Paging,
    Enter,
    Escape,
    Space,
    F2,
    /// Delete and backspace.
    Delete,
    A,
    C,
    D,
    E,
    F,
    T,
    Other,
}

/// The key of an arrow or of moving by pages.
pub open spec fn moving_key(name: Seq<char>) -> Option<ListKey> {
    if name == "up"@ {
        Some(ListKey::Up)
    } else if name == "down"@ {
        Some(ListKey::Down)
    } else if name == "left"@ {
        Some(ListKey::Left)
    } else if name == "right"@ {
        Some(ListKey::Right)
    } else if name == "pageup"@ || name == "pagedown"@ || name == "home"@ || name == "end"@ {
        Some(ListKey::Paging)
    } else {
        None
    }
}

/// The key of a letter.
pub open spec fn letter_key(name: Seq<char>) -> Option<ListKey> {
    if name == "a"@ {
        Some(ListKey::A)
    } else if name == "c"@ {
        Some(ListKey::C)
    } else if name == "d"@ {
        Some(ListKey::D)
    } else if name == "e"@ {
        Some(ListKey::E)
    } else if name == "f"@ {
        Some(ListKey::F)
    } else if name == "t"@ {
        Some(ListKey::T)
    } else {
        None
    }
}

/// The key that a name stands for.
pub open spec fn list_key(name: Seq<char>) -> ListKey {
    if moving_key(name) is Some {
        moving_key(name).unwrap()
    } else if letter_key(name) is Some {
        letter_key(name).unwrap()
    } else if name == "enter"@ {
        ListKey::Enter
    } else if name == "escape"@ {
        ListKey::Escape
    } else if name == "space"@ {
        ListKey::Space
    } else if name == "f2"@ {
        ListKey::F2
    } else if name == "delete"@ || name == "backspace"@ {
        ListKey::Delete
    } else {
        ListKey::Other
    }
}

/// Finds the key of an arrow or of moving by pages.
fn parse_moving_key(name: &str) -> (r: Option<ListKey>)
    ensures
        r == moving_key(name@),
{
    if str_eq(name, "up") {
        Some(ListKey::Up)
    } else if str_eq(name, "down") {
        Some(ListKey::Down)
    } else if str_eq(name, "left") {
        Some(ListKey::Left)
    } else if str_eq(name, "right") {
        Some(ListKey::Right)
    } else if str_eq(name, "pageup") || str_eq(name, "pagedown") || str_eq(name, "home")
        || str_eq(name, "end") {
        Some(ListKey::Paging)
    } else {
        None
    }
}

/// Finds the key of a letter.
fn parse_letter_key(name: &str) -> (r: Option<ListKey>)
    ensures
        r == letter_key(name@),
{
    if str_eq(name, "a") {
        Some(ListKey::A)
    } else if str_eq(name, "c") {
        Some(ListKey::C)
    } else if str_eq(name, "d") {
        Some(ListKey::D)
    } else if str_eq(name, "e") {
        Some(ListKey::E)
    } else if str_eq(name, "f") {
        Some(ListKey::F)
    } else if str_eq(name, "t") {
        Some(ListKey::T)
    } else {
        None
    }
}

impl ListKey {
    /// Finds the key that a name stands for.
    pub fn from_name(name: &str) -> (r: Self)
        ensures
            r == list_key(name@),
    {
        if let Some(key) = parse_moving_key(name) {
            return key;
        }
        if let Some(key) = parse_letter_key(name) {
            return key;
        }
        if str_eq(name, "enter") {
            ListKey::Enter
        } else if str_eq(name, "escape") {
            ListKey::Escape
        } else if str_eq(name, "space") {
            ListKey::Space
        } else if str_eq(name, "f2") {
            ListKey::F2
        } else if str_eq(name, "delete") || str_eq(name, "backspace") {
            ListKey::Delete
        } else {
            ListKey::Other
        }
    }
}

/// Opens an item for a look at it: the original of an image, the place of a
/// file, a path or a link.
pub open spec fn look_op(item: ClipboardItem) -> Option<Op> {
    if item.content_type == ContentType::Image {
        Some(Op::OpenOriginalImage { id: item.id })
    } else if item.meta_type@ == "link"@ || item.meta_type@ == "path"@ || item.content_type
        == ContentType::File {
        Some(Op::OpenItemLocation { id: item.id })
    } else {
        None
    }
}

/// Finds how to open an item for a look at it.
fn find_look_op(item: &ClipboardItem) -> (r: Option<Op>)
    ensures
        r == look_op(*item),
{
    if item.content_type == ContentType::Image {
        Some(Op::OpenOriginalImage { id: item.id })
    } else if str_eq(item.meta_type.as_str(), "link") || str_eq(item.meta_type.as_str(), "path")
        || item.content_type == ContentType::File {
        Some(Op::OpenItemLocation { id: item.id })
    } else {
        None
    }
}

impl<S> ListWorld<S> {
    /// The active item copied.
    pub open spec fn copy_active(self) -> Self {
        match id_at(self.list.items, self.list.selected_index) {
            Some(id) => self.use_items(
                Op::CopyItem { id, plain: self.app.settings.copy_as_plain_text },
            ),
            None => self,
        }
    }

    /// The active item opened for a look at it.
    pub open spec fn look_at_active(self) -> Self {
        match self.list.selected_index {
            Some(i) => if 0 <= i < self.list.items.len() {
                match look_op(self.list.items[i]) {
                    Some(op) => self.ask(op),
                    None => self,
                }
            } else {
                self
            },
            None => self,
        }
    }

    /// The next or the previous category shown.
    pub open spec fn cycle_category(self, delta: isize) -> Self {
        self.dismiss().ask(Op::CycleTypeFilter { delta }).ask(Op::ResetList)
    }

    /// The question asked that precedes deleting the selected items.
    pub open spec fn ask_delete(self) -> Self {
        match self.list.delete_question() {
            Some(question) => world(self.list.asking(question), self.app),
            None => self,
        }
    }

    /// The list after Escape, or the window asked to hide where the list has no
    /// use for it.
    pub open spec fn escape_or_hide(self) -> Self {
        if self.escapes() {
            self.escape(true)
        } else {
            self.escape(true).ask(Op::Emit { event: ClipboardListEvent::RequestHide })
        }
    }

    /// What a key with the primary modifier does.
    pub open spec fn press_primary(self, key: ListKey, shift: bool) -> Self {
        let free = !self.list.busy();
        match key {
            ListKey::F => self.ask(Op::FocusSearch),
            ListKey::Enter => if shift {
                self
            } else {
                self.paste_bitmap_or_default()
            },
            ListKey::Left => if shift {
                self
            } else {
                self.cycle_category(-1isize)
            },
            ListKey::Right => if shift {
                self
            } else {
                self.cycle_category(1isize)
            },
            ListKey::D => if free {
                self.toggle_favorite_selected()
            } else {
                self
            },
            ListKey::A => if free {
                self.select_all()
            } else {
                self
            },
            ListKey::E => if free {
                self.edit_active()
            } else {
                self
            },
            ListKey::C => if free {
                self.copy_active()
            } else {
                self
            },
            ListKey::T => if free {
                self.pick_tags()
            } else {
                self
            },
            _ => self,
        }
    }

    /// Whether the list has use for a key with the primary modifier.
    pub open spec fn takes_primary(self, key: ListKey, shift: bool) -> bool {
        match key {
            ListKey::F => true,
            ListKey::Enter | ListKey::Left | ListKey::Right => !shift,
            ListKey::D | ListKey::A | ListKey::E | ListKey::C | ListKey::T => !self.list.busy(),
            _ => false,
        }
    }

    /// What a key without the primary modifier does.
    pub open spec fn press_plain(self, key: ListKey, shift: bool) -> Self {
        let free = !self.list.busy();
        match key {
            ListKey::Up => self.dismiss().select_previous(ScrollStrategy::Top),
            ListKey::Down => self.dismiss().select_next(ScrollStrategy::Bottom),
            ListKey::Left => self.cycle_category(-1isize),
            ListKey::Right => self.cycle_category(1isize),
            ListKey::Enter => self.paste_selected(
                shift || self.app.settings.copy_as_plain_text,
            ),
            ListKey::Space => if free {
                self.look_at_active()
            } else {
                self
            },
            ListKey::F2 => if free {
                self.edit_active_note()
            } else {
                self
            },
            ListKey::Delete => if free {
                self.ask_delete()
            } else {
                self
            },
            ListKey::Escape => self.escape_or_hide(),
            _ => self,
        }
    }

    /// Whether the list has use for a key without the primary modifier.
    pub open spec fn takes_plain(self, key: ListKey) -> bool {
        match key {
            ListKey::Up | ListKey::Down | ListKey::Left | ListKey::Right | ListKey::Enter
            | ListKey::Escape => true,
            ListKey::Space | ListKey::F2 | ListKey::Delete => !self.list.busy(),
            _ => false,
        }
    }

    /// Whether a key is about the recording of a hotkey.
    pub open spec fn recording_takes(self, key: ListKey) -> bool {
        &&& self.list.recording_hotkey_id > 0
        &&& key is Escape || key is Enter || key is Up || key is Down || key is Paging
    }

    /// What a key does.
    pub open spec fn press(self, key: ListKey, modifiers: Modifiers) -> Self {
        if self.recording_takes(key) {
            match key {
                ListKey::Escape => self.cancel_recording(true),
                ListKey::Enter => self.confirm_recording(),
                _ => self,
            }
        } else if modifiers.primary() {
            self.press_primary(key, modifiers.shift)
        } else {
            self.press_plain(key, modifiers.shift)
        }
    }

    /// Whether the list has use for a key.
    pub open spec fn takes(self, key: ListKey, modifiers: Modifiers) -> bool {
        if self.recording_takes(key) {
            true
        } else if modifiers.primary() {
            self.takes_primary(key, modifiers.shift)
        } else {
            self.takes_plain(key)
        }
    }
}

impl<S> ClipboardListView<S> {
    /// Copies the active item.
    fn copy_active(&self, app: &mut AppState)
        ensures
            world(self@, final(app)@) == world(self@, old(app)@).copy_active(),
    {
        if let Some(id) = item_id_at(self.items.as_slice(), self.selected_index) {
            let plain = app.settings.copy_as_plain_text;
            app.request(Op::CopyItem { id, plain });
            app.request(Op::SyncListForUsage);
        }
    }

    /// Opens the active item for a look at it.
    fn look_at_active(&self, app: &mut AppState)
        ensures
            world(self@, final(app)@) == world(self@, old(app)@).look_at_active(),
    {
        if let Some(index) = self.selected_index {
            if index < self.items.len() {
                if let Some(op) = find_look_op(&self.items[index]) {
                    app.request(op);
                }
            }
        }
    }

    /// Shows the next or the previous category.
    fn cycle_category(&mut self, delta: isize, app: &mut AppState)
        ensures
            world(final(self)@, final(app)@) == world(old(self)@, old(app)@).cycle_category(delta),
    {
        self.dismiss_all_panels();
        app.request(Op::CycleTypeFilter { delta });
        app.request(Op::ResetList);
    }

    /// Handles a key with the primary modifier.
    fn press_primary(&mut self, key: ListKey, shift: bool, app: &mut AppState) -> (r: bool)
        requires
            old(self)@.wf(),
        ensures
            r == world(old(self)@, old(app)@).takes_primary(key, shift),
            world(final(self)@, final(app)@) == world(old(self)@, old(app)@).press_primary(
                key,
                shift,
            ),
            final(self)@.wf(),
    {
        match key {
            ListKey::F => {
                app.request(Op::FocusSearch);
                return true;
            },
            ListKey::Enter | ListKey::Left | ListKey::Right => {
                if shift {
                    return false;
                }
            },
            ListKey::D | ListKey::A | ListKey::E | ListKey::C | ListKey::T => {
                if self.has_any_panel_or_editing() {
                    return false;
                }
            },
            _ => {
                return false;
            },
        }
        match key {
            ListKey::Enter => self.action_paste_bitmap_or_default(app),
            ListKey::Left => self.cycle_category(-1, app),
            ListKey::Right => self.cycle_category(1, app),
            ListKey::D => self.action_toggle_favorite(app),
            ListKey::A => self.select_all_visible(app),
            ListKey::E => self.action_edit(app),
            ListKey::C => self.copy_active(app),
            ListKey::T => self.action_show_tag_picker(app),
            _ => {},
        }
        true
    }

    /// Handles a key without the primary modifier.
    fn press_plain(&mut self, key: ListKey, shift: bool, app: &mut AppState) -> (r: bool)
        requires
            old(self)@.wf(),
        ensures
            r == world(old(self)@, old(app)@).takes_plain(key),
            world(final(self)@, final(app)@) == world(old(self)@, old(app)@).press_plain(
                key,
                shift,
            ),
            final(self)@.wf(),
    {
        let free = !self.has_any_panel_or_editing();
        match key {
            ListKey::Up => {
                self.dismiss_all_panels();
                self.select_previous(ScrollStrategy::Top, app);
                true
            },
            ListKey::Down => {
                self.dismiss_all_panels();
                self.select_next(ScrollStrategy::Bottom, app);
                true
            },
            ListKey::Left => {
                self.cycle_category(-1, app);
                true
            },
            ListKey::Right => {
                self.cycle_category(1, app);
                true
            },
            ListKey::Enter => {
                let plain = shift || app.settings.copy_as_plain_text;
                self.action_paste(plain, app);
                true
            },
            ListKey::Space if free => {
                self.look_at_active(app);
                true
            },
            ListKey::F2 if free => {
                self.action_edit_note(app);
                true
            },
            ListKey::Delete if free => {
                self.action_delete();
                true
            },
            ListKey::Escape => {
                if !self.handle_escape(app) {
                    app.request(Op::Emit { event: ClipboardListEvent::RequestHide });
                }
                true
            },
            _ => false,
        }
    }

    /// Handles a key. Says whether the list had use for it.
    pub fn handle_key_down(&mut self, key: &str, modifiers: Modifiers, app: &mut AppState) -> (r:
        bool)
        requires
            old(self)@.wf(),
        ensures
            r == world(old(self)@, old(app)@).takes(list_key(key@), modifiers),
            world(final(self)@, final(app)@) == world(old(self)@, old(app)@).press(
                list_key(key@),
                modifiers,
            ),
            final(self)@.wf(),
    {
        let key = ListKey::from_name(key);
        if self.recording_hotkey_id > 0 {
            match key {
                ListKey::Escape => {
                    self.cancel_hotkey_recording(app);
                    return true;
                },
                ListKey::Enter => {
                    self.confirm_hotkey_recording(app);
                    return true;
                },
                ListKey::Up | ListKey::Down | ListKey::Paging => {
                    return true;
                },
                _ => {},
            }
        }
        if primary_modifier_pressed(modifiers) {
            self.press_primary(key, modifiers.shift, app)
        } else {
            self.press_plain(key, modifiers.shift, app)
        }
    }
}

} // verus!
