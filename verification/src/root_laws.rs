//! What holds of the main window as a whole.

use vstd::prelude::*;

use crate::app_state::Op;
use crate::clipboard_list::world;
use crate::navigation::MainView;
use crate::overlays::{law_every_overlay_has_its_place, Overlay, OVERLAY_COUNT};
use crate::root::{RootModel, RootTexts, TagDeleteTarget, WindowEvent};
use crate::root_frame::WindowFacts;
use crate::tags::known;
use crate::theme::ClippiTheme;
use crate::update_toast::UpdatePhase;

verus! {

/// Whether an overlay belongs to the list.
pub open spec fn belongs_to_list(key: Overlay) -> bool {
    match key {
        Overlay::TagFilter => true,
        Overlay::TypeFilterConfig => true,
        Overlay::TagEdit => true,
        Overlay::ContextMenu => true,
        Overlay::TagPicker => true,
        Overlay::ConfirmDialog => true,
        Overlay::TagDeleteConfirm => true,
        _ => false,
    }
}

/// A question is never put in place of another one: while one waits for its
/// answer, a request to delete a tag does nothing, and after one a second does
/// nothing.
pub proof fn law_questions_never_stack<S>(
    root: RootModel<S>,
    target: TagDeleteTarget,
    other: TagDeleteTarget,
)
    ensures
        root.asks_something() ==> root.tag_delete_requested(target) == root,
        root.tag_delete_requested(target).tag_delete_requested(other)
            == root.tag_delete_requested(target),
{
}

/// A question whether to delete a tag survives a frame only while the tag panel is
/// open on the list, and is then the same.
pub proof fn law_stale_tag_questions_are_dropped<S>(
    root: RootModel<S>,
    facts: WindowFacts,
    preparing: Seq<char>,
    now: u64,
    usual: u64,
)
    ensures
        ({
            let after = root.framed(facts, preparing, now, usual);
            &&& after.pending_tag_delete is Some ==> root.on(MainView::Clipboard)
                && root.bar.tag_panel_open && after.pending_tag_delete == root.pending_tag_delete
            &&& root.on(MainView::Clipboard) && root.bar.tag_panel_open
                ==> after.pending_tag_delete == root.pending_tag_delete
        }),
{
}

/// A tag is deleted only on the answer yes, and only while it is there.
pub proof fn law_tags_are_deleted_on_confirmation<S>(
    root: RootModel<S>,
    target: TagDeleteTarget,
)
    ensures
        root.tag_delete_requested(target).app == root.app,
        root.pending_tag_delete is None ==> root.tag_delete_confirmed() == root,
        root.pending_tag_delete == Some(target) && !known(root.app.tags)(target.id)
            ==> root.tag_delete_confirmed().app == root.app
            && root.tag_delete_confirmed().pending_tag_delete is None,
        root.pending_tag_delete == Some(target) && known(root.app.tags)(target.id)
            ==> root.tag_delete_confirmed() == root.ask(Op::DeleteTag { tag_id: target.id }),
{
}

/// Where deleting a tag fails, the question stays and nothing else is lost.
pub proof fn law_failed_tag_delete_keeps_the_question<S>(root: RootModel<S>, texts: RootTexts)
    ensures
        root.tag_deleted(false, texts).pending_tag_delete == root.pending_tag_delete,
        root.tag_deleted(true, texts).pending_tag_delete is None,
{
}

/// After a frame each overlay's movement says whether the overlay is visible.
pub proof fn law_frames_follow_visibility<S>(
    root: RootModel<S>,
    facts: WindowFacts,
    preparing: Seq<char>,
    now: u64,
    usual: u64,
    key: Overlay,
)
    ensures
        ({
            let after = root.framed(facts, preparing, now, usual);
            after.overlays[key.place()].visible == after.shows(key, facts.editing_tag_id)
        }),
{
    law_every_overlay_has_its_place(key, key);
}

/// An overlay of one page is never visible on another: the edit page has none,
/// those of the list are on the list only, and the others but the question about
/// apps and keys are on the settings only.
pub proof fn law_overlays_stay_on_their_page<S>(root: RootModel<S>, key: Overlay, editing_tag: i64)
    ensures
        root.on(MainView::Edit) ==> !root.shows(key, editing_tag),
        belongs_to_list(key) && root.shows(key, editing_tag) ==> root.on(MainView::Clipboard),
        !belongs_to_list(key) && key != Overlay::HotkeyConfirm && root.shows(key, editing_tag)
            ==> root.on(MainView::Settings),
{
}

/// Two windows that differ only in the movements, the message, the focus, the tag
/// that the editor was filled for and the work asked for show the same overlays.
proof fn lemma_same_overlays<S>(
    before: RootModel<S>,
    after: RootModel<S>,
    key: Overlay,
    editing_tag: i64,
)
    requires
        after == (RootModel {
            app: after.app,
            overlays: after.overlays,
            toast: after.toast,
            needs_auto_focus: after.needs_auto_focus,
            last_edit_tag_id: after.last_edit_tag_id,
            ..before
        }),
    ensures
        after.shows(key, editing_tag) == before.shows(key, editing_tag),
{
}

/// Taking note of the same visible overlays again changes nothing.
proof fn lemma_overlays_settle<S>(
    before: RootModel<S>,
    after: RootModel<S>,
    editing_tag: i64,
    now: u64,
    later: u64,
)
    requires
        after == (RootModel {
            app: after.app,
            overlays: before.overlays_shown(editing_tag, now).overlays,
            toast: after.toast,
            needs_auto_focus: after.needs_auto_focus,
            last_edit_tag_id: after.last_edit_tag_id,
            ..before
        }),
    ensures
        after.overlays_shown(editing_tag, later) == after,
{
    let again = after.overlays_shown(editing_tag, later);
    assert forall|i: int| 0 <= i < OVERLAY_COUNT implies #[trigger] again.overlays[i]
        == after.overlays[i] by {
        lemma_same_overlays(before, after, Overlay::at(i), editing_tag);
    }
    assert(again.overlays =~= after.overlays);
}

/// A frame settles everything: the next one at any later time finds no question to
/// drop, no editor to fill and no focus to give, and moves no overlay anew.
pub proof fn law_frames_settle<S>(
    root: RootModel<S>,
    facts: WindowFacts,
    preparing: Seq<char>,
    now: u64,
    later: u64,
    usual: u64,
)
    requires
        root.wf(),
    ensures
        ({
            let first = root.framed(facts, preparing, now, usual);
            let second = first.framed(facts, preparing, later, usual);
            second == first.toast_advanced(preparing, later, usual)
        }),
{
    let asked = root.stale_question_dropped();
    let filled = asked.tag_editor_filled(facts);
    let shown = filled.overlays_shown(facts.editing_tag_id, now);
    let focused = shown.focus_given(facts);
    let first = focused.toast_advanced(preparing, now, usual);
    assert(first.stale_question_dropped() == first);
    assert(first.tag_editor_filled(facts) == first);
    lemma_overlays_settle(filled, first, facts.editing_tag_id, now, later);
    assert(first.focus_given(facts) == first);
}

/// The focus is given once for each time that the window was hidden.
pub proof fn law_focus_is_given_once<S>(
    root: RootModel<S>,
    facts: WindowFacts,
    preparing: Seq<char>,
    now: u64,
    usual: u64,
)
    ensures
        root.on(MainView::Clipboard) ==> !root.framed(
            facts,
            preparing,
            now,
            usual,
        ).needs_auto_focus,
        !root.needs_auto_focus ==> root.focus_given(facts) == root,
        root.hidden().needs_auto_focus,
{
}

/// While the version is on the screen, nothing is said about updates; and going
/// there drops what was said.
pub proof fn law_version_tab_needs_no_message<S>(
    root: RootModel<S>,
    texts: RootTexts,
    version: String,
    phase: UpdatePhase,
    now: u64,
)
    ensures
        root.on_version_tab() ==> root.told(WindowEvent::UpdateAvailable { version }, texts, now)
            == root,
        root.on_version_tab() ==> root.told(WindowEvent::UpdateProgress { phase }, texts, now)
            == root,
        root.told(WindowEvent::OpenVersionSettings, texts, now).on_version_tab(),
        root.told(WindowEvent::OpenVersionSettings, texts, now).toast.actions is None,
{
}

/// A window that was hidden asks nothing that belongs to the settings or the tag
/// panel, and shows none of their overlays, whatever page it shows next.
pub proof fn law_hidden_window_leaves_nothing_open<S>(
    root: RootModel<S>,
    view: MainView,
    now: u64,
    editing_tag: i64,
)
    ensures
        ({
            let next = root.hidden().go(view, now);
            &&& !next.shows(Overlay::TagFilter, editing_tag)
            &&& !next.shows(Overlay::TagDeleteConfirm, editing_tag)
            &&& !next.shows(Overlay::HotkeyConfirm, editing_tag)
            &&& !next.shows(Overlay::HotkeyBlacklistPopup, editing_tag)
            &&& !next.shows(Overlay::PasteShortcutsPopup, editing_tag)
            &&& !next.shows(Overlay::AppBlacklistPopup, editing_tag)
            &&& !next.shows(Overlay::LatestHotkeysPopup, editing_tag)
            &&& next.panel.recording_paste_shortcut is None
        }),
{
}

/// Escape leads back to the list from every page, at the latest when the panel of
/// the backends is closed, and hides the window only from the list, when nothing
/// is left there to be ended.
pub proof fn law_escape_leads_to_the_list<S>(root: RootModel<S>, now: u64)
    ensures
        root.on(MainView::Edit) ==> root.escape(now).on(MainView::Clipboard),
        root.on(MainView::Settings) && !root.panel.backend_panel_open ==> root.escape(now).on(
            MainView::Clipboard,
        ),
        root.on(MainView::Settings) && root.panel.backend_panel_open ==> root.escape(now)
            == root.ask(Op::CloseBackendPanel),
        root.on(MainView::Clipboard) ==> root.escape(now).on(MainView::Clipboard),
        root.escape(now).app.requests.last().op == Op::HideWindow <==> root.on(
            MainView::Clipboard,
        ) && !world(root.list, root.app).escapes(),
{
}

/// A theme reaches every view, and changes nothing else.
pub proof fn law_theme_reaches_every_view<S>(root: RootModel<S>, theme: ClippiTheme)
    ensures
        root.themed(theme).theme == theme,
        root.themed(theme).search.theme == theme,
        root.themed(theme).bar.theme == theme,
        root.themed(theme).list.theme == theme,
        root.themed(theme).side.dark == theme.dark(),
        root.themed(theme).nav == root.nav,
        root.themed(theme).list.selected_ids == root.list.selected_ids,
{
}

/// What was confirmed or declined is not asked again.
pub proof fn law_answers_end_the_question<S>(root: RootModel<S>, listed: bool, marks: Seq<bool>)
    ensures
        root.action_confirmed(listed, marks).panel.hotkey_confirm is None,
        root.action_declined().panel.hotkey_confirm is None,
        root.action_declined().lists == root.lists,
        root.action_declined().app == root.app,
        root.list_question_confirmed().list.confirm_dialog is None,
{
}

/// Pinning twice is pinning back.
pub proof fn law_pin_toggles<S>(root: RootModel<S>, texts: RootTexts, pinned: bool, now: u64)
    ensures
        root.told(WindowEvent::PinnedChanged { pinned }, texts, now).pinned == pinned,
        root.pin_toggled().pinned == !root.pinned,
        root.pin_toggled().pin_toggled().pinned == root.pinned,
{
}

} // verus!
