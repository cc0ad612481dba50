//! What a frame of the window shows.

use vstd::prelude::*;

use crate::app_state::{Op, RequestModel};
use crate::navigation::{MainView, VIEW_ANIM_NANOS};
use crate::overlays::{
    law_every_overlay_has_its_place, runs, Overlay, OverlayTransitionState, ANIM_GRACE_NANOS, OVERLAY_ANIM_NANOS,
};
use crate::panel_laws::{is_on_station, law_station_is_told_by_its_entries};
use crate::root::{RootModel, RootTexts};
use crate::root_frame::{overlay_frame, Frame, MenuKind, WindowFacts};
use crate::selection_laws::{adds, bare, lemma_added};
use crate::settings_panel::{CLIPBOARD_TAB, HOTKEY_TAB};
use crate::types::{ItemModel, TagInfo};

verus! {

/// On the list an overlay is visible exactly while what it shows is open, and no
/// overlay of the settings is.
pub proof fn law_list_overlays_show_what_is_open<S>(root: RootModel<S>, editing_tag: i64)
    requires
        root.nav.current_view == MainView::Clipboard,
    ensures
        root.shows(Overlay::TagFilter, editing_tag) == root.bar.tag_panel_open,
        root.shows(Overlay::TypeFilterConfig, editing_tag) == root.bar.filter_config_open,
        root.shows(Overlay::TagEdit, editing_tag) == (editing_tag >= 0),
        root.shows(Overlay::ContextMenu, editing_tag) == root.list.context_menu_visible,
        root.shows(Overlay::TagPicker, editing_tag) == root.list.tag_picker_visible,
        root.shows(Overlay::ConfirmDialog, editing_tag) == root.list.confirm_dialog is Some,
        root.shows(Overlay::TagDeleteConfirm, editing_tag) == root.pending_tag_delete is Some,
        root.shows(Overlay::HotkeyConfirm, editing_tag) == root.panel.hotkey_confirm is Some,
        !root.shows(Overlay::ClearDataConfirm, editing_tag),
        !root.shows(Overlay::BackendPanel, editing_tag),
        !root.shows(Overlay::HotkeyBlacklistPopup, editing_tag),
        !root.shows(Overlay::PasteShortcutsPopup, editing_tag),
        !root.shows(Overlay::AppBlacklistPopup, editing_tag),
        !root.shows(Overlay::LatestHotkeysPopup, editing_tag),
{
}

/// On the settings an overlay is visible exactly while what it shows is open, a
/// popup only on its tab, and no overlay of the list is.
pub proof fn law_settings_overlays_show_what_is_open<S>(root: RootModel<S>, editing_tag: i64)
    requires
        root.nav.current_view == MainView::Settings,
    ensures
        root.shows(Overlay::HotkeyConfirm, editing_tag) == root.panel.hotkey_confirm is Some,
        root.shows(Overlay::ClearDataConfirm, editing_tag) == root.clear_data_confirm,
        root.shows(Overlay::BackendPanel, editing_tag) == root.panel.backend_panel_open,
        root.shows(Overlay::LatestHotkeysPopup, editing_tag)
            == root.panel.latest_hotkeys_popup_open,
        root.panel.active_tab == HOTKEY_TAB ==> root.shows(
            Overlay::HotkeyBlacklistPopup,
            editing_tag,
        ) == root.panel.hotkey_blacklist_popup_open && root.shows(
            Overlay::PasteShortcutsPopup,
            editing_tag,
        ) == root.panel.paste_shortcuts_popup_open,
        root.panel.active_tab != HOTKEY_TAB ==> !root.shows(
            Overlay::HotkeyBlacklistPopup,
            editing_tag,
        ) && !root.shows(Overlay::PasteShortcutsPopup, editing_tag),
        root.panel.active_tab == CLIPBOARD_TAB ==> root.shows(
            Overlay::AppBlacklistPopup,
            editing_tag,
        ) == root.panel.app_blacklist_popup_open,
        root.panel.active_tab != CLIPBOARD_TAB ==> !root.shows(
            Overlay::AppBlacklistPopup,
            editing_tag,
        ),
        !root.shows(Overlay::TagFilter, editing_tag),
        !root.shows(Overlay::TypeFilterConfig, editing_tag),
        !root.shows(Overlay::TagEdit, editing_tag),
        !root.shows(Overlay::ContextMenu, editing_tag),
        !root.shows(Overlay::TagPicker, editing_tag),
        !root.shows(Overlay::ConfirmDialog, editing_tag),
        !root.shows(Overlay::TagDeleteConfirm, editing_tag),
{
}

/// Whether the editor of tag names is about another tag than before.
pub open spec fn another_tag_is_edited<S>(root: RootModel<S>, facts: WindowFacts) -> bool {
    facts.editing_tag_id >= 0 && facts.editing_tag_id != root.last_edit_tag_id
}

/// Whether the list waits for the focus.
pub open spec fn focus_is_due<S>(root: RootModel<S>) -> bool {
    root.needs_auto_focus && root.nav.current_view == MainView::Clipboard
}

/// What a frame asks for: the editor of tag names filled with the name of the tag,
/// where another tag is edited; and where the focus is due, the search cleared if
/// it is to start empty, and the focus given to the search or to the list.
pub open spec fn asked_by_frame<S>(root: RootModel<S>, facts: WindowFacts) -> Seq<RequestModel> {
    (if another_tag_is_edited(root, facts) {
        seq![bare(Op::FillTagEditor { name: facts.editing_tag_name })]
    } else {
        Seq::empty()
    }) + (if focus_is_due(root) && facts.clear_search_on_show {
        seq![bare(Op::ClearSearchText)]
    } else {
        Seq::empty()
    }) + (if focus_is_due(root) {
        seq![
            bare(
                if facts.auto_focus_search {
                    Op::FocusSearch
                } else {
                    Op::FocusList
                },
            ),
        ]
    } else {
        Seq::empty()
    })
}

/// The editor of tag names is filled where another tag is edited, and nothing else
/// changes by that.
pub proof fn law_tag_editor_is_filled_for_another_tag<S>(root: RootModel<S>, facts: WindowFacts)
    ensures
        ({
            let after = root.tag_editor_filled(facts);
            &&& !another_tag_is_edited(root, facts) ==> after == root
            &&& another_tag_is_edited(root, facts) ==> after == (RootModel {
                app: after.app,
                last_edit_tag_id: facts.editing_tag_id,
                ..root
            }) && adds(
                root.app,
                after.app,
                seq![bare(Op::FillTagEditor { name: facts.editing_tag_name })],
            )
        }),
{
    lemma_added(root.app.requests);
}

/// The focus is given to the search or to the list where it is due, and a search
/// that is to start empty is cleared before. Nothing else changes by that.
pub proof fn law_focus_is_given_where_it_is_due<S>(root: RootModel<S>, facts: WindowFacts)
    ensures
        ({
            let after = root.focus_given(facts);
            let focus = if facts.auto_focus_search {
                Op::FocusSearch
            } else {
                Op::FocusList
            };
            &&& !focus_is_due(root) ==> after == root
            &&& focus_is_due(root) ==> after == (RootModel {
                app: after.app,
                needs_auto_focus: false,
                ..root
            })
            &&& focus_is_due(root) && facts.clear_search_on_show ==> adds(
                root.app,
                after.app,
                seq![bare(Op::ClearSearchText), bare(focus)],
            )
            &&& focus_is_due(root) && !facts.clear_search_on_show ==> adds(
                root.app,
                after.app,
                seq![bare(focus)],
            )
        }),
{
    lemma_added(root.app.requests);
}

/// A frame asks for what is due, once, and changes nothing but the movements, the
/// message and what it has done.
pub proof fn law_frames_do_what_is_due<S>(
    root: RootModel<S>,
    facts: WindowFacts,
    preparing: Seq<char>,
    now: u64,
    usual: u64,
)
    ensures
        ({
            let after = root.framed(facts, preparing, now, usual);
            &&& after == (RootModel {
                app: after.app,
                overlays: after.overlays,
                toast: after.toast,
                last_edit_tag_id: after.last_edit_tag_id,
                needs_auto_focus: after.needs_auto_focus,
                pending_tag_delete: after.pending_tag_delete,
                ..root
            })
            &&& after.app.requests == root.app.requests + asked_by_frame(root, facts)
            &&& after.toast == root.toasting().advanced(preparing, now, usual)
        }),
{
    let asked = root.stale_question_dropped();
    let filled = asked.tag_editor_filled(facts);
    let shown = filled.overlays_shown(facts.editing_tag_id, now);
    let focused = shown.focus_given(facts);
    let after = focused.toast_advanced(preparing, now, usual);
    law_tag_editor_is_filled_for_another_tag(asked, facts);
    law_focus_is_given_where_it_is_due(shown, facts);
    assert(asked == (RootModel { pending_tag_delete: asked.pending_tag_delete, ..root }));
    assert(shown == (RootModel { overlays: shown.overlays, ..filled }));
    assert(after == (RootModel { toast: after.toast, ..focused }));
    assert(another_tag_is_edited(asked, facts) == another_tag_is_edited(root, facts));
    assert(focus_is_due(shown) == focus_is_due(root));
    assert(focused.toasting() == root.toasting());
    assert(after.app.requests =~= root.app.requests + asked_by_frame(root, facts));
}

/// An overlay that comes in starts its movement now, with a name of its own; one
/// that stays goes on; one that goes has none.
pub proof fn law_overlays_start_moving_when_shown(
    state: OverlayTransitionState,
    visible: bool,
    now: u64,
)
    ensures
        ({
            let after = state.shown(visible, now);
            &&& after.visible == visible
            &&& visible && !state.visible ==> after.started_at == Some(now) && (state.generation
                < u64::MAX ==> after.generation == state.generation + 1)
            &&& visible && state.visible ==> after == state
            &&& !visible ==> after.started_at is None && after.generation == state.generation
        }),
{
}

/// A frame paints each overlay by its movement, and as moving until its time, with
/// the grace, is over.
pub proof fn law_overlays_are_painted_by_their_movement(
    state: OverlayTransitionState,
    start: u64,
    now: u64,
)
    ensures
        overlay_frame(state, now).visible == state.visible,
        overlay_frame(state, now).generation == state.generation,
        state.started_at is None ==> !overlay_frame(state, now).animating,
        state.started_at == Some(start) ==> (overlay_frame(state, now).animating <==> now <= start
            + OVERLAY_ANIM_NANOS + ANIM_GRACE_NANOS),
{
}

/// A movement that is over does not run again, and one runs from its start on.
pub proof fn law_movements_end(start: u64, duration: u64, now: u64, later: u64)
    requires
        start <= now <= later,
    ensures
        runs(Some(start), duration, start),
        runs(Some(start), duration, later) ==> runs(Some(start), duration, now),
        !runs(None, duration, now),
        now > start + duration + ANIM_GRACE_NANOS ==> !runs(Some(start), duration, now),
        now <= start + duration ==> runs(Some(start), duration, now),
{
}

/// Whether one of the tags has this name.
pub open spec fn tagged_with(tags: Seq<TagInfo>, name: Seq<char>) -> bool {
    exists|k: int| 0 <= k < tags.len() && (#[trigger] tags[k]).name@ == name
}

/// Whether one of the tags has this uid.
pub open spec fn tagged_by(tags: Seq<TagInfo>, uid: Seq<char>) -> bool {
    exists|k: int| 0 <= k < tags.len() && (#[trigger] tags[k]).uid@ == uid
}

/// A menu for several items says how many they are and whether they can be
/// merged, unless all of them are entries of the transfer station.
pub proof fn law_menus_for_several_items<S>(root: RootModel<S>, texts: RootTexts)
    requires
        root.list.context_menu_is_batch,
        0 <= root.list.selected_count <= usize::MAX,
    ensures
        ({
            let kind = root.menu_kind(texts);
            let ids = root.list.selected_ids;
            let station = ids.len() > 0 && forall|k: int|
                0 <= k < ids.len() ==> is_on_station(root.list.items, #[trigger] ids[k]);
            &&& station ==> kind is TransferBatch
            &&& !station ==> kind is Batch && kind->Batch_count == root.list.selected_count
                && kind->can_merge == root.app.can_merge_selected
        }),
{
    law_station_is_told_by_its_entries(root.list);
}

/// A menu for one item is that of an entry of the transfer station where the
/// station is open and the item is of it; it tells whether the entry is stored
/// locally and whether it is pinned.
pub proof fn law_menus_for_one_item<S>(root: RootModel<S>, item: ItemModel, texts: RootTexts)
    requires
        !root.list.context_menu_is_batch,
    ensures
        ({
            let kind = root.menu_kind(texts);
            &&& root.list.context_menu_item is None ==> kind is Nothing
            &&& root.list.context_menu_item == Some(item) && root.app.transfer_filter_active
                && item.file_data.transfer ==> kind == (MenuKind::TransferEntry {
                is_local: tagged_with(item.tags, texts.transfer_local@),
                is_pinned: tagged_by(item.tags, root.app.pinned_status_uid@),
            })
            &&& root.list.context_menu_item == Some(item) && !(root.app.transfer_filter_active
                && item.file_data.transfer) ==> kind is Item
        }),
{
}

/// The bars and marks of a frame belong to its page: the filter strip to the list
/// outside the transfer station, the mark of a refresh to the station, and the bar
/// at the bottom to every page but that of an edit.
pub proof fn law_bars_belong_to_their_page<S>(
    root: RootModel<S>,
    frame: Frame,
    refreshing: bool,
    now: u64,
)
    requires
        root.is_painted_by(frame, refreshing, now),
    ensures
        frame.view == root.nav.current_view,
        frame.view_generation == root.nav.view_transition_generation,
        root.nav.view_transition_started is None ==> !frame.view_animating,
        root.nav.view_transition_started is Some ==> (frame.view_animating <==> now
            <= root.nav.view_transition_started.unwrap() + VIEW_ANIM_NANOS + ANIM_GRACE_NANOS),
        !(frame.shows_filter_bar && frame.transfer_refreshing),
        frame.shows_filter_bar || frame.transfer_refreshing ==> frame.view == MainView::Clipboard
            && frame.shows_bottom_bar,
        frame.view == MainView::Clipboard ==> frame.shows_filter_bar
            != root.app.transfer_filter_active,
        frame.view == MainView::Clipboard && root.app.transfer_filter_active
            ==> frame.transfer_refreshing == refreshing,
        frame.shows_bottom_bar <==> frame.view != MainView::Edit,
        frame.border == (if root.theme.bg == 0x191a1bff {
            0x3a3b3cffint
        } else {
            0xd0d2deffint
        }),
{
}

/// A frame moves each overlay by whether it is visible then.
pub proof fn law_frames_move_overlays<S>(
    root: RootModel<S>,
    facts: WindowFacts,
    preparing: Seq<char>,
    now: u64,
    usual: u64,
    key: Overlay,
)
    ensures
        ({
            let after = root.framed(facts, preparing, now, usual);
            after.overlays[key.place()] == root.overlays[key.place()].shown(
                after.shows(key, facts.editing_tag_id),
                now,
            )
        }),
{
    law_every_overlay_has_its_place(key, key);
}

} // verus!
