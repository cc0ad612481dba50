//! What the main window settles before it is painted, and what is painted then.

use vstd::prelude::*;

use crate::app_state::Op;
use crate::navigation::{MainView, VIEW_ANIM_NANOS};
use crate::overlays::{
    runs, Overlay, OverlayTransitionState, OVERLAY_ANIM_NANOS, OVERLAY_COUNT,
};
use crate::root::{RootModel, RootTexts, RootView};
use crate::settings_panel::{CLIPBOARD_TAB, HOTKEY_TAB};
use crate::tags::{any_tag_has_name, any_tag_has_uid, has_name, has_uid};
use crate::theme::{pick_shade, shade};
use crate::toast::ToastTimer;

verus! {

/// What the program knows at the time of a frame.
#[derive(Debug, Clone, PartialEq, Eq)]
pub struct WindowFacts {
    /// The tag whose name is being edited; negative where there is none.
    pub editing_tag_id: i64,
    pub editing_tag_name: String,
    /// Whether the transfer station is being refreshed.
    pub transfer_refreshing: bool,
    /// Whether the search starts empty when the window is shown.
    pub clear_search_on_show: bool,
    /// Whether the search gets the focus when the window is shown.
    pub auto_focus_search: bool,
}

/// How an overlay is painted.
#[derive(Clone, Copy, Debug, PartialEq, Eq, Structural)]
pub struct OverlayFrame {
    pub visible: bool,
    /// Names the movement of the overlay.
    pub generation: u64,
    /// Whether the overlay is still coming in.
    pub animating: bool,
}

/// What is painted.
#[derive(Debug, Clone, PartialEq, Eq)]
pub struct Frame {
    pub view: MainView,
    /// Names the change to this page.
    pub view_generation: u64,
    pub view_animating: bool,
    /// Every overlay at its place.
    pub overlays: Vec<OverlayFrame>,
    pub shows_filter_bar: bool,
    pub shows_bottom_bar: bool,
    pub transfer_refreshing: bool,
    /// Colour of the border of the window.
    pub border: u32,
    /// A timer of the message to start.
    pub toast_timer: Option<ToastTimer>,
}

/// What the context menu is about.
#[derive(Clone, Copy, Debug, PartialEq, Eq, Structural)]
pub enum MenuKind {
    Nothing,
    /// Several entries of the transfer station.
    TransferBatch,
    /// Several items.
    Batch { count: usize, can_merge: bool },
    /// An entry of the transfer station.
    TransferEntry { is_local: bool, is_pinned: bool },
    /// One item.
    Item,
}

/// How an overlay with this movement is painted.
pub open spec fn overlay_frame(state: OverlayTransitionState, now: u64) -> OverlayFrame {
    OverlayFrame {
        visible: state.visible,
        generation: state.generation,
        animating: runs(state.started_at, OVERLAY_ANIM_NANOS, now),
    }
}

impl<S> RootModel<S> {
    /// Whether a page is shown.
    pub open spec fn on(self, view: MainView) -> bool {
        self.nav.current_view == view
    }

    /// The question whether to delete a tag dropped where the tag panel is not
    /// there any more.
    pub open spec fn stale_question_dropped(self) -> Self {
        if self.on(MainView::Clipboard) && self.bar.tag_panel_open {
            self
        } else {
            self.tag_kept()
        }
    }

    /// The editor of tag names filled, where another tag is being edited than
    /// before.
    pub open spec fn tag_editor_filled(self, facts: WindowFacts) -> Self {
        if facts.editing_tag_id >= 0 && facts.editing_tag_id != self.last_edit_tag_id {
            RootModel { last_edit_tag_id: facts.editing_tag_id, ..self }.ask(
                Op::FillTagEditor { name: facts.editing_tag_name },
            )
        } else {
            self
        }
    }

    /// Whether an overlay is visible; `editing_tag` is the tag whose name is being
    /// edited.
    pub open spec fn shows(self, key: Overlay, editing_tag: i64) -> bool {
        match key {
            Overlay::TagFilter => self.on(MainView::Clipboard) && self.bar.tag_panel_open,
            Overlay::TypeFilterConfig => self.on(MainView::Clipboard)
                && self.bar.filter_config_open,
            Overlay::TagEdit => self.on(MainView::Clipboard) && editing_tag >= 0,
            Overlay::ContextMenu => self.on(MainView::Clipboard) && self.list.context_menu_visible,
            Overlay::TagPicker => self.on(MainView::Clipboard) && self.list.tag_picker_visible,
            Overlay::ConfirmDialog => self.on(MainView::Clipboard) && self.list.confirm_dialog
                is Some,
            Overlay::TagDeleteConfirm => self.on(MainView::Clipboard) && self.pending_tag_delete
                is Some,
            Overlay::HotkeyConfirm => !self.on(MainView::Edit) && self.panel.hotkey_confirm
                is Some,
            Overlay::ClearDataConfirm => self.on(MainView::Settings) && self.clear_data_confirm,
            Overlay::BackendPanel => self.on(MainView::Settings) && self.panel.backend_panel_open,
            Overlay::HotkeyBlacklistPopup => self.on(MainView::Settings) && self.panel.active_tab
                == HOTKEY_TAB && self.panel.hotkey_blacklist_popup_open,
            Overlay::PasteShortcutsPopup => self.on(MainView::Settings) && self.panel.active_tab
                == HOTKEY_TAB && self.panel.paste_shortcuts_popup_open,
            Overlay::AppBlacklistPopup => self.on(MainView::Settings) && self.panel.active_tab
                == CLIPBOARD_TAB && self.panel.app_blacklist_popup_open,
            Overlay::LatestHotkeysPopup => self.on(MainView::Settings)
                && self.panel.latest_hotkeys_popup_open,
        }
    }

    /// The movements of the overlays after it is known which are visible.
    pub open spec fn overlays_shown(self, editing_tag: i64, now: u64) -> Self {
        RootModel {
            overlays: Seq::new(
                OVERLAY_COUNT as nat,
                |i: int|
                    self.overlays[i].shown(self.shows(Overlay::at(i), editing_tag), now),
            ),
            ..self
        }
    }

    /// The focus given, where the list is shown the first time since the window
    /// was hidden.
    pub open spec fn focus_given(self, facts: WindowFacts) -> Self {
        if self.needs_auto_focus && self.on(MainView::Clipboard) {
            let shown = RootModel { needs_auto_focus: false, ..self };
            let cleared = if facts.clear_search_on_show {
                shown.ask(Op::ClearSearchText)
            } else {
                shown
            };
            cleared.ask(
                if facts.auto_focus_search {
                    Op::FocusSearch
                } else {
                    Op::FocusList
                },
            )
        } else {
            self
        }
    }

    /// The message brought one step further.
    pub open spec fn toast_advanced(self, preparing: Seq<char>, now: u64, usual: u64) -> Self {
        RootModel { toast: self.toasting().advanced(preparing, now, usual), ..self }
    }

    /// The window settled for a frame.
    pub open spec fn framed(
        self,
        facts: WindowFacts,
        preparing: Seq<char>,
        now: u64,
        usual: u64,
    ) -> Self {
        self.stale_question_dropped().tag_editor_filled(facts).overlays_shown(
            facts.editing_tag_id,
            now,
        ).focus_given(facts).toast_advanced(preparing, now, usual)
    }

    /// Whether a frame paints the page of the window and what belongs to it;
    /// `refreshing` says whether the transfer station is being refreshed.
    pub open spec fn is_painted_by(self, frame: Frame, refreshing: bool, now: u64) -> bool {
        &&& frame.view == self.nav.current_view
        &&& frame.view_generation == self.nav.view_transition_generation
        &&& frame.view_animating == runs(self.nav.view_transition_started, VIEW_ANIM_NANOS, now)
        &&& frame.shows_filter_bar == (self.on(MainView::Clipboard)
            && !self.app.transfer_filter_active)
        &&& frame.shows_bottom_bar == !self.on(MainView::Edit)
        &&& frame.transfer_refreshing == (self.on(MainView::Clipboard)
            && self.app.transfer_filter_active && refreshing)
        &&& frame.border == shade(self.theme.dark(), 0x3a3b3cff, 0xd0d2deff)
    }

    /// What the context menu is about.
    pub open spec fn menu_kind(self, texts: RootTexts) -> MenuKind {
        if self.list.context_menu_is_batch && self.list.only_station_selected() {
            MenuKind::TransferBatch
        } else if self.list.context_menu_is_batch {
            MenuKind::Batch {
                count: self.list.selected_count as usize,
                can_merge: self.app.can_merge_selected,
            }
        } else {
            match self.list.context_menu_item {
                Some(item) => if self.app.transfer_filter_active && item.file_data.transfer {
                    MenuKind::TransferEntry {
                        is_local: has_name(item.tags, texts.transfer_local@),
                        is_pinned: has_uid(item.tags, self.app.pinned_status_uid@),
                    }
                } else {
                    MenuKind::Item
                },
                None => MenuKind::Nothing,
            }
        }
    }
}

impl<S> RootView<S> {
    /// Whether an overlay is visible.
    pub fn overlay_visible(&self, key: Overlay, editing_tag: i64) -> (r: bool)
        ensures
            r == self@.shows(key, editing_tag),
    {
        let view = self.navigation.current_view;
        let panel = &self.settings_panel;
        match key {
            Overlay::TagFilter => view == MainView::Clipboard && self.filter_bar.tag_panel_open,
            Overlay::TypeFilterConfig => view == MainView::Clipboard
                && self.filter_bar.filter_config_open,
            Overlay::TagEdit => view == MainView::Clipboard && editing_tag >= 0,
            Overlay::ContextMenu => view == MainView::Clipboard
                && self.list_view.context_menu_visible(),
            Overlay::TagPicker => view == MainView::Clipboard
                && self.list_view.tag_picker_visible(),
            Overlay::ConfirmDialog => view == MainView::Clipboard
                && self.list_view.confirm_dialog_state().is_some(),
            Overlay::TagDeleteConfirm => view == MainView::Clipboard
                && self.pending_tag_delete.is_some(),
            Overlay::HotkeyConfirm => view != MainView::Edit && panel.hotkey_confirm.is_some(),
            Overlay::ClearDataConfirm => view == MainView::Settings && self.clear_data_confirm,
            Overlay::BackendPanel => view == MainView::Settings && panel.backend_panel_open,
            Overlay::HotkeyBlacklistPopup => view == MainView::Settings && panel.active_tab
                == HOTKEY_TAB && panel.hotkey_blacklist_popup_open,
            Overlay::PasteShortcutsPopup => view == MainView::Settings && panel.active_tab
                == HOTKEY_TAB && panel.paste_shortcuts_popup_open,
            Overlay::AppBlacklistPopup => view == MainView::Settings && panel.active_tab
                == CLIPBOARD_TAB && panel.app_blacklist_popup_open,
            Overlay::LatestHotkeysPopup => view == MainView::Settings
                && panel.latest_hotkeys_popup_open,
        }
    }

    /// Drops the question whether to delete a tag where it is stale.
    fn drop_stale_question(&mut self)
        ensures
            final(self)@ == old(self)@.stale_question_dropped(),
    {
        if self.navigation.current_view != MainView::Clipboard || !self.filter_bar.tag_panel_open {
            self.pending_tag_delete = None;
        }
    }

    /// Fills the editor of tag names where another tag is being edited.
    fn fill_tag_editor(&mut self, facts: &WindowFacts)
        ensures
            final(self)@ == old(self)@.tag_editor_filled(*facts),
    {
        if facts.editing_tag_id >= 0 && facts.editing_tag_id != self.last_edit_tag_id {
            self.last_edit_tag_id = facts.editing_tag_id;
            self.app.request(Op::FillTagEditor { name: facts.editing_tag_name.clone() });
        }
    }

    /// Takes note of which overlays are visible. The result says how they are
    /// painted.
    fn show_overlays(&mut self, editing_tag: i64, now: u64) -> (r: Vec<OverlayFrame>)
        requires
            old(self)@.wf(),
        ensures
            final(self)@ == old(self)@.overlays_shown(editing_tag, now),
            r@ == Seq::new(
                OVERLAY_COUNT as nat,
                |i: int| overlay_frame(final(self)@.overlays[i], now),
            ),
    {
        let ghost goal = self@.overlays_shown(editing_tag, now);
        let mut frames: Vec<OverlayFrame> = Vec::new();
        let mut i: usize = 0;
        while i < OVERLAY_COUNT
            invariant
                0 <= i <= OVERLAY_COUNT,
                old(self)@.wf(),
                goal == old(self)@.overlays_shown(editing_tag, now),
                self@ == (RootModel { overlays: self@.overlays, ..old(self)@ }),
                self@.overlays.len() == OVERLAY_COUNT,
                forall|j: int| 0 <= j < i ==> #[trigger] self@.overlays[j] == goal.overlays[j],
                forall|j: int|
                    i <= j < OVERLAY_COUNT ==> #[trigger] self@.overlays[j]
                        == old(self)@.overlays[j],
                frames@.len() == i,
                forall|j: int|
                    0 <= j < i ==> #[trigger] frames@[j] == overlay_frame(goal.overlays[j], now),
            decreases OVERLAY_COUNT - i,
        {
            let key = Overlay::nth(i);
            let visible = self.overlay_visible(key, editing_tag);
            let generation = self.overlays.overlay_generation(key, visible, now);
            let animating = self.overlays.overlay_animating(key, now);
            frames.push(OverlayFrame { visible, generation, animating });
            i += 1;
        }
        assert(self@.overlays =~= goal.overlays);
        frames
    }

    /// Gives the focus where the list is shown the first time since the window was
    /// hidden.
    fn give_focus(&mut self, facts: &WindowFacts)
        ensures
            final(self)@ == old(self)@.focus_given(*facts),
    {
        if self.needs_auto_focus && self.navigation.current_view == MainView::Clipboard {
            self.needs_auto_focus = false;
            if facts.clear_search_on_show {
                self.app.request(Op::ClearSearchText);
            }
            if facts.auto_focus_search {
                self.app.request(Op::FocusSearch);
            } else {
                self.app.request(Op::FocusList);
            }
        }
    }

    /// Settles the window for a frame and says what to paint. `usual` is how long
    /// a message is shown otherwise.
    pub fn prepare_frame(
        &mut self,
        facts: &WindowFacts,
        texts: &RootTexts,
        now: u64,
        usual: u64,
    ) -> (r: Frame)
        requires
            old(self)@.wf(),
            now + usual <= u64::MAX,
        ensures
            final(self)@ == old(self)@.framed(*facts, texts.preparing_bitmap@, now, usual),
            final(self)@.wf(),
            old(self)@.is_painted_by(r, facts.transfer_refreshing, now),
            r.overlays@ == Seq::new(
                OVERLAY_COUNT as nat,
                |i: int| overlay_frame(final(self)@.overlays[i], now),
            ),
            r.toast_timer == old(self)@.toasting().starts(texts.preparing_bitmap@, now, usual),
    {
        let ghost before = self@;
        self.drop_stale_question();
        self.fill_tag_editor(facts);
        let ghost filled = self@;
        assert(filled.wf() && filled.toasting() == before.toasting() && filled.nav == before.nav);
        let overlays = self.show_overlays(facts.editing_tag_id, now);
        let ghost shown = self@;
        self.give_focus(facts);
        let ghost focused = self@;
        assert(focused.overlays == shown.overlays && focused.toasting() == before.toasting());
        let toast_timer = self.toast.advance(
            &self.toast_slot,
            texts.preparing_bitmap.as_str(),
            now,
            usual,
        );
        assert(self@ == focused.toast_advanced(texts.preparing_bitmap@, now, usual));
        let view = self.navigation.current_view;
        Frame {
            view,
            view_generation: self.navigation.view_transition_generation,
            view_animating: self.navigation.view_animating(now),
            overlays,
            shows_filter_bar: view == MainView::Clipboard && !self.app.transfer_filter_active,
            shows_bottom_bar: view != MainView::Edit,
            transfer_refreshing: view == MainView::Clipboard && self.app.transfer_filter_active
                && facts.transfer_refreshing,
            border: pick_shade(self.theme.is_dark(), 0x3a3b3cff, 0xd0d2deff),
            toast_timer,
        }
    }

    /// What the context menu is about.
    pub fn context_menu_kind(&self, texts: &RootTexts) -> (r: MenuKind)
        ensures
            r == self@.menu_kind(*texts),
    {
        if self.list_view.context_menu_is_transfer_batch() {
            return MenuKind::TransferBatch;
        }
        if self.list_view.context_menu_is_batch() {
            return MenuKind::Batch {
                count: self.list_view.selected_count,
                can_merge: self.list_view.can_merge_selected_items(&self.app),
            };
        }
        match self.list_view.context_menu_item() {
            Some(item) => {
                if self.app.transfer_filter_active && item.file_data.is_transfer() {
                    MenuKind::TransferEntry {
                        is_local: any_tag_has_name(
                            item.tags.as_slice(),
                            texts.transfer_local.as_str(),
                        ),
                        is_pinned: any_tag_has_uid(
                            item.tags.as_slice(),
                            self.app.pinned_status_uid.as_str(),
                        ),
                    }
                } else {
                    MenuKind::Item
                }
            },
            None => MenuKind::Nothing,
        }
    }
}

} // verus!
