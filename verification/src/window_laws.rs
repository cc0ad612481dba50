//! What the main window does with what it is told.

use vstd::prelude::*;

use crate::app_state::{ClipboardListEvent, Op, RequestModel};
use crate::clipboard_list::{world, ListModel};
use crate::filter_bar::FilterBar;
use crate::navigation::{MainView, Navigation};
use crate::root::{RootModel, RootTexts, SettingsEvent, TagDeleteTarget, WindowEvent};
use crate::search_box::SearchBox;
use crate::selection_laws::{adds, bare, lemma_added};
use crate::settings_panel::{HotkeyConfirmAction, SettingsPanelState, VERSION_TAB};
use crate::sidebar::SidebarModel;
use crate::theme::ClippiTheme;
use crate::toast::{SlotModel, ToastButton, ToastModel};
use crate::update_toast::FAILURE_NANOS;

verus! {

/// Whether one window differs from another only by work that was asked for, this
/// in this order.
pub open spec fn only_asks<S>(
    before: RootModel<S>,
    after: RootModel<S>,
    requests: Seq<RequestModel>,
) -> bool {
    &&& after == (RootModel { app: after.app, ..before })
    &&& adds(before.app, after.app, requests)
}

/// Whether another page came up, or the same one stayed.
pub open spec fn turned(before: Navigation, after: Navigation, view: MainView, now: u64) -> bool {
    &&& after.current_view == view
    &&& after.transfer_return_view == before.transfer_return_view
    &&& before.current_view == view ==> after.view_transition_generation
        == before.view_transition_generation && after.view_transition_started
        == before.view_transition_started
    &&& before.current_view != view ==> after.view_transition_started == Some(now)
        && after.view_transition_generation != before.view_transition_generation
        && (before.view_transition_generation < u64::MAX ==> after.view_transition_generation
        == before.view_transition_generation + 1)
}

/// Whether a message is gone with its buttons, its end and its timer, and the rest
/// of its state stayed.
pub open spec fn message_dropped<S>(before: RootModel<S>, after: RootModel<S>) -> bool {
    &&& after.slot.message is None
    &&& !after.slot.is_warning
    &&& after.toast == (ToastModel {
        timer: None,
        expiry: None,
        actions: None,
        ..before.toast
    })
}

/// Whether a message with buttons is gone, and one without stayed.
pub open spec fn offer_dropped<S>(before: RootModel<S>, after: RootModel<S>) -> bool {
    &&& before.toast.actions is Some ==> message_dropped(before, after)
    &&& before.toast.actions is None ==> after.slot == before.slot && after.toast == before.toast
}

/// Whether one list of names holds a name.
pub open spec fn names(list: Seq<String>, name: Seq<char>) -> bool {
    exists|i: int| 0 <= i < list.len() && (#[trigger] list[i])@ == name
}

/// A page is shown by turning to it, and nothing else.
pub proof fn law_pages_are_turned<S>(root: RootModel<S>, view: MainView, now: u64)
    ensures
        turned(root.nav, root.nav.switched(view, now), view, now),
        root.go(view, now) == (RootModel { nav: root.nav.switched(view, now), ..root }),
        root.close_tag_panel() == (RootModel {
            bar: FilterBar { tag_panel_open: false, ..root.bar },
            ..root
        }),
{
}

/// A change of the clipboard is shown, from the top where the settings say so;
/// one of the transfer station is shown too; one that only concerns the sync is
/// not.
pub proof fn law_changes_are_shown<S>(root: RootModel<S>, texts: RootTexts, now: u64)
    ensures
        only_asks(
            root,
            root.told(WindowEvent::ClipboardChanged, texts, now),
            seq![
                bare(
                    Op::RefreshListSettings {
                        scroll_to_top: root.app.settings.auto_scroll_to_top,
                    },
                ),
                bare(Op::ResetList),
            ],
        ),
        only_asks(
            root,
            root.told(WindowEvent::TransferStateChanged, texts, now),
            seq![bare(Op::SyncList)],
        ),
        root.told(WindowEvent::SyncChanged, texts, now) == root,
{
    lemma_added(root.app.requests);
}

/// A change of files on the disk is shown exactly where the list is filtered for
/// files or for paths.
pub proof fn law_file_changes_matter_to_files_and_paths<S>(
    root: RootModel<S>,
    texts: RootTexts,
    now: u64,
)
    ensures
        ({
            let after = root.told(WindowEvent::FileStatusChanged, texts, now);
            let types = root.app.filters.active_types;
            &&& names(types, "file"@) || names(types, "path"@) ==> only_asks(
                root,
                after,
                seq![bare(Op::ReloadItems), bare(Op::SyncList)],
            )
            &&& !names(types, "file"@) && !names(types, "path"@) ==> after == root
        }),
{
    lemma_added(root.app.requests);
}

/// The window stays on top as it is told, and says so in its title bar.
pub proof fn law_pins_are_shown<S>(root: RootModel<S>, texts: RootTexts, pinned: bool, now: u64)
    ensures
        ({
            let after = root.told(WindowEvent::PinnedChanged { pinned }, texts, now);
            &&& after == (RootModel { app: after.app, pinned, ..root })
            &&& adds(root.app, after.app, seq![bare(Op::SetTitlebarPinned { pinned })])
        }),
        ({
            let after = root.pin_toggled();
            &&& after == (RootModel { app: after.app, pinned: after.pinned, ..root })
            &&& after.pinned != root.pinned
            &&& adds(
                root.app,
                after.app,
                seq![
                    bare(Op::SetWindowPinned { pinned: after.pinned }),
                    bare(Op::SetTitlebarPinned { pinned: after.pinned }),
                ],
            )
        }),
{
    lemma_added(root.app.requests);
}

/// The settings are opened with the tag panel closed; at the version, its tab is
/// chosen and what was said about updates is gone.
pub proof fn law_settings_are_opened<S>(root: RootModel<S>, texts: RootTexts, now: u64)
    ensures
        ({
            let after = root.told(WindowEvent::OpenSettings, texts, now);
            &&& after == (RootModel {
                nav: after.nav,
                bar: FilterBar { tag_panel_open: false, ..root.bar },
                ..root
            })
            &&& turned(root.nav, after.nav, MainView::Settings, now)
        }),
        ({
            let after = root.told(WindowEvent::OpenVersionSettings, texts, now);
            &&& after == (RootModel {
                nav: after.nav,
                bar: FilterBar { tag_panel_open: false, ..root.bar },
                panel: SettingsPanelState { active_tab: VERSION_TAB, ..root.panel },
                slot: after.slot,
                toast: after.toast,
                ..root
            })
            &&& turned(root.nav, after.nav, MainView::Settings, now)
            &&& offer_dropped(root, after)
        }),
        ({
            let after = root.told(WindowEvent::ResetToClipboard, texts, now);
            &&& after == (RootModel { nav: after.nav, ..root })
            &&& turned(root.nav, after.nav, MainView::Clipboard, now)
        }),
{
}

/// A recording that is over is over in the list and in the settings. A shortcut
/// that was recorded is used only once that is confirmed.
pub proof fn law_recordings_come_to_an_end<S>(
    root: RootModel<S>,
    texts: RootTexts,
    app_name: String,
    shortcut: String,
    now: u64,
)
    ensures
        ({
            let after = root.told(WindowEvent::HotkeyRecordingComplete, texts, now);
            &&& after == (RootModel {
                app: after.app,
                list: ListModel {
                    recording_hotkey_id: -1i64,
                    recording_hotkey_format: Seq::empty(),
                    hovered_index: None,
                    ..root.list
                },
                panel: SettingsPanelState { recording_paste_shortcut: None, ..root.panel },
                ..root
            })
            &&& adds(root.app, after.app, seq![bare(Op::SyncList)])
        }),
        root.told(WindowEvent::PasteShortcutRecorded { app_name, shortcut }, texts, now) == (
        RootModel {
            panel: SettingsPanelState {
                recording_paste_shortcut: None,
                hotkey_confirm: Some(
                    HotkeyConfirmAction::AddPasteShortcut { app_name, shortcut },
                ),
                ..root.panel
            },
            ..root
        }),
{
    lemma_added(root.app.requests);
}

/// A window that is hidden gives the focus anew when it is shown, ends the
/// recording of a shortcut, and closes what was open in it. The panel of the
/// backends and the tab stay.
pub proof fn law_hiding_ends_what_was_open<S>(root: RootModel<S>, texts: RootTexts, now: u64)
    ensures
        ({
            let after = root.told(WindowEvent::WindowHidden, texts, now);
            &&& after == (RootModel {
                app: after.app,
                bar: FilterBar { tag_panel_open: false, ..root.bar },
                panel: SettingsPanelState {
                    latest_hotkeys_popup_open: false,
                    hotkey_blacklist_popup_open: false,
                    paste_shortcuts_popup_open: false,
                    app_blacklist_popup_open: false,
                    recording_paste_shortcut: None,
                    hotkey_confirm: None,
                    ..root.panel
                },
                needs_auto_focus: true,
                pending_tag_delete: None,
                ..root
            })
            &&& adds(root.app, after.app, seq![bare(Op::CancelPasteShortcutRecording)])
        }),
        ({
            let after = root.told(WindowEvent::ReleaseUiResources, texts, now);
            &&& after == (RootModel { app: after.app, list: root.list.released(), ..root })
            &&& adds(root.app, after.app, seq![bare(Op::ReleaseImages)])
        }),
{
    lemma_added(root.app.requests);
}

/// When a bitmap is pasted, only the message goes that it is being prepared.
/// Another message of the program is shown for the time that failures get.
pub proof fn law_messages_come_and_go<S>(
    root: RootModel<S>,
    texts: RootTexts,
    message: String,
    now: u64,
)
    requires
        now + FAILURE_NANOS <= u64::MAX,
    ensures
        ({
            let after = root.told(WindowEvent::BitmapPasteFinished, texts, now);
            &&& root.slot.message != Some(texts.preparing_bitmap@) ==> after == root
            &&& root.slot.message == Some(texts.preparing_bitmap@) ==> message_dropped(root, after)
                && after == (RootModel { slot: after.slot, toast: after.toast, ..root })
        }),
        root.told(WindowEvent::DataMaintenanceToast { message }, texts, now) == (RootModel {
            slot: SlotModel { message: Some(message@), ..root.slot },
            toast: ToastModel {
                timer: None,
                dismissing: false,
                actions: None,
                expiry: Some((now + FAILURE_NANOS) as u64),
                ..root.toast
            },
            ..root
        }),
{
}

/// Leaving the settings shows the list and closes what lay over the settings.
/// Going to the version drops what was said about updates; another tab does
/// nothing.
pub proof fn law_settings_are_left<S>(root: RootModel<S>, texts: RootTexts, tab: usize, now: u64)
    ensures
        ({
            let after = root.told_by_settings(SettingsEvent::Back, texts, now);
            &&& after == (RootModel {
                nav: after.nav,
                panel: SettingsPanelState {
                    latest_hotkeys_popup_open: false,
                    hotkey_blacklist_popup_open: false,
                    paste_shortcuts_popup_open: false,
                    app_blacklist_popup_open: false,
                    hotkey_confirm: None,
                    ..root.panel
                },
                ..root
            })
            &&& turned(root.nav, after.nav, MainView::Clipboard, now)
        }),
        ({
            let after = root.told_by_settings(SettingsEvent::TabChanged { tab }, texts, now);
            &&& after == (RootModel { slot: after.slot, toast: after.toast, ..root })
            &&& tab == VERSION_TAB ==> offer_dropped(root, after)
            &&& tab != VERSION_TAB ==> after == root
        }),
{
}

/// A theme is all that changes when another one is chosen, and the program is
/// asked to apply it.
pub proof fn law_only_the_theme_changes<S>(
    root: RootModel<S>,
    texts: RootTexts,
    theme: ClippiTheme,
    now: u64,
)
    ensures
        ({
            let after = root.told_by_settings(SettingsEvent::ThemeChanged { theme }, texts, now);
            &&& after == (RootModel {
                app: after.app,
                theme,
                search: SearchBox { theme, ..root.search },
                bar: FilterBar { theme, ..root.bar },
                list: ListModel { theme, ..root.list },
                side: SidebarModel { dark: theme.bg == 0x191a1bff, ..root.side },
                ..root
            })
            &&& adds(root.app, after.app, seq![bare(Op::ApplyTheme { theme })])
        }),
{
    lemma_added(root.app.requests);
}

/// Changed settings of the list reach it, and it is laid out anew only where the
/// items were loaded anew.
pub proof fn law_changed_settings_reach_the_list<S>(
    root: RootModel<S>,
    texts: RootTexts,
    scroll_to_top: bool,
    now: u64,
)
    ensures
        only_asks(
            root,
            root.told_by_settings(
                SettingsEvent::ClipboardSettingsChanged { reload_items: false, scroll_to_top },
                texts,
                now,
            ),
            seq![bare(Op::RefreshListSettings { scroll_to_top })],
        ),
        only_asks(
            root,
            root.told_by_settings(
                SettingsEvent::ClipboardSettingsChanged { reload_items: true, scroll_to_top },
                texts,
                now,
            ),
            seq![
                bare(Op::ReloadItems),
                bare(Op::RefreshListSettings { scroll_to_top }),
                bare(Op::ResetList),
            ],
        ),
{
    lemma_added(root.app.requests);
}

/// What the settings ask is asked, and what they say is said; of a failure only
/// that something failed. The history is cleared without favorites and tagged
/// items unless they are added.
pub proof fn law_settings_ask_and_say<S>(
    root: RootModel<S>,
    texts: RootTexts,
    action: HotkeyConfirmAction,
    message: String,
    now: u64,
)
    ensures
        root.told_by_settings(SettingsEvent::ShowHotkeyConfirm { action }, texts, now) == (
        RootModel {
            panel: SettingsPanelState { hotkey_confirm: Some(action), ..root.panel },
            ..root
        }),
        root.told_by_settings(SettingsEvent::DataError { message }, texts, now) == (RootModel {
            slot: SlotModel { message: Some(texts.data_error@), ..root.slot },
            ..root
        }),
        root.told_by_settings(SettingsEvent::DataToast { message }, texts, now) == (RootModel {
            slot: SlotModel { message: Some(message@), ..root.slot },
            ..root
        }),
        root.told_by_settings(SettingsEvent::ShowClearDataConfirm, texts, now) == (RootModel {
            clear_data_confirm: true,
            clear_data_include_favorites: false,
            clear_data_include_tagged: false,
            ..root
        }),
{
}

/// A tag's deletion is asked about exactly where no other question waits: about
/// another tag, items, an app or key, or the history.
pub proof fn law_one_question_at_a_time<S>(root: RootModel<S>, target: TagDeleteTarget)
    ensures
        ({
            let after = root.tag_delete_requested(target);
            &&& root.pending_tag_delete is None && root.list.confirm_dialog is None
                && root.panel.hotkey_confirm is None && !root.clear_data_confirm ==> after == (
            RootModel { pending_tag_delete: Some(target), ..root })
            &&& root.pending_tag_delete is Some || root.list.confirm_dialog is Some
                || root.panel.hotkey_confirm is Some || root.clear_data_confirm ==> after == root
        }),
{
}

/// Escape on the settings closes the panel of the backends, or leaves the page;
/// on the edit page it gives up the edit. The list gets the focus.
pub proof fn law_escape_leaves_the_page<S>(root: RootModel<S>, now: u64)
    ensures
        ({
            let after = root.escape(now);
            &&& root.nav.current_view == MainView::Settings && root.panel.backend_panel_open
                ==> only_asks(root, after, seq![bare(Op::CloseBackendPanel)])
            &&& root.nav.current_view == MainView::Settings && !root.panel.backend_panel_open
                ==> after == (RootModel { nav: after.nav, app: after.app, ..root }) && turned(
                root.nav,
                after.nav,
                MainView::Clipboard,
                now,
            ) && adds(root.app, after.app, seq![bare(Op::FocusList)])
            &&& root.nav.current_view == MainView::Edit ==> after == (RootModel {
                nav: after.nav,
                app: after.app,
                ..root
            }) && turned(root.nav, after.nav, MainView::Clipboard, now) && adds(
                root.app,
                after.app,
                seq![bare(Op::CancelEdit), bare(Op::FocusList)],
            )
        }),
{
    lemma_added(root.app.requests);
}

/// Escape on the list is the list's: where there is something to end, that is
/// ended and the list keeps the focus; where there is not, the window is hidden.
pub proof fn law_escape_is_the_lists_first<S>(root: RootModel<S>, now: u64)
    requires
        root.nav.current_view == MainView::Clipboard,
    ensures
        ({
            let before = world(root.list, root.app);
            let ended = before.escape(false);
            let after = root.escape(now);
            &&& after == (RootModel { list: ended.list, app: after.app, ..root })
            &&& before.escapes() ==> adds(ended.app, after.app, seq![bare(Op::FocusList)])
            &&& !before.escapes() ==> adds(ended.app, after.app, seq![bare(Op::HideWindow)])
        }),
{
    lemma_added(world(root.list, root.app).escape(false).app.requests);
}

/// The button of the transfer station closes the panels over the list and shows
/// the list anew.
pub proof fn law_transfer_closes_the_panels<S>(
    root: RootModel<S>,
    was_active: bool,
    activated: bool,
    now: u64,
)
    ensures
        ({
            let after = root.transfer_used(was_active, activated, now);
            &&& after == (RootModel {
                app: after.app,
                nav: after.nav,
                bar: FilterBar { tag_panel_open: false, filter_config_open: false, ..root.bar },
                list: ListModel {
                    context_menu_visible: false,
                    context_menu_item: None,
                    hovered_index: None,
                    tag_picker_visible: false,
                    tag_picker_item_id: -1i64,
                    ..root.list
                },
                ..root
            })
            &&& adds(root.app, after.app, seq![bare(Op::ResetList)])
        }),
{
    lemma_added(root.app.requests);
}

/// The transfer station is on the list: opened from the settings it shows the
/// list and remembers the settings, closed again it goes back where it was opened
/// from. It is not used from the edit page.
pub proof fn law_transfer_remembers_where_it_came_from(
    nav: Navigation,
    was_active: bool,
    activated: bool,
    now: u64,
)
    ensures
        ({
            let after = nav.transfer_toggled(was_active, activated, now);
            &&& nav.current_view == MainView::Edit ==> after == nav
            &&& nav.current_view == MainView::Clipboard && !was_active
                ==> after.transfer_return_view is None && after.current_view == nav.current_view
                && after.view_transition_generation == nav.view_transition_generation
                && after.view_transition_started == nav.view_transition_started
            &&& nav.current_view == MainView::Clipboard && was_active
                && nav.transfer_return_view is None ==> after == nav
            &&& nav.current_view == MainView::Clipboard && was_active
                && nav.transfer_return_view is Some ==> after.transfer_return_view is None
                && turned(
                Navigation { transfer_return_view: None, ..nav },
                after,
                nav.transfer_return_view.unwrap(),
                now,
            )
            &&& nav.current_view == MainView::Settings && was_active ==> after == (Navigation {
                transfer_return_view: None,
                ..nav
            })
            &&& nav.current_view == MainView::Settings && !was_active && !activated ==> after == nav
            &&& nav.current_view == MainView::Settings && !was_active && activated ==> turned(
                Navigation { transfer_return_view: Some(MainView::Settings), ..nav },
                after,
                MainView::Clipboard,
                now,
            )
        }),
{
}

/// The theme follows the system where the settings say so, and only there.
pub proof fn law_appearance_is_followed_where_wanted<S>(
    root: RootModel<S>,
    setting: Seq<char>,
    theme: ClippiTheme,
)
    ensures
        setting == "system"@ ==> root.appearance_changed(setting, theme).theme == theme
            && root.appearance_changed(setting, theme) == root.themed(theme),
        setting != "system"@ ==> root.appearance_changed(setting, theme) == root,
{
}

/// What the list asks the window for is asked of the program: an item to be
/// edited, or the window to be hidden.
pub proof fn law_list_is_served<S>(root: RootModel<S>, id: i64)
    ensures
        only_asks(
            root,
            root.told_by_list(ClipboardListEvent::OpenEdit(id)),
            seq![bare(Op::StartEditItem { id })],
        ),
        only_asks(
            root,
            root.told_by_list(ClipboardListEvent::RequestHide),
            seq![bare(Op::HideWindow)],
        ),
{
    lemma_added(root.app.requests);
}

/// The edit page comes up where an item was put on it, with the tag panel closed.
/// It is left for the list, which shows what was stored; what was not is given
/// up.
pub proof fn law_edit_page_comes_and_goes<S>(root: RootModel<S>, now: u64)
    ensures
        root.edit_opened(false, now) == root,
        ({
            let after = root.edit_opened(true, now);
            &&& after == (RootModel {
                nav: after.nav,
                bar: FilterBar { tag_panel_open: false, ..root.bar },
                ..root
            })
            &&& turned(root.nav, after.nav, MainView::Edit, now)
        }),
        ({
            let after = root.edit_left(true, now);
            &&& after == (RootModel { nav: after.nav, app: after.app, ..root })
            &&& turned(root.nav, after.nav, MainView::Clipboard, now)
            &&& adds(root.app, after.app, seq![bare(Op::ResetList)])
        }),
        ({
            let after = root.edit_left(false, now);
            &&& after == (RootModel { nav: after.nav, app: after.app, ..root })
            &&& turned(root.nav, after.nav, MainView::Clipboard, now)
            &&& adds(root.app, after.app, seq![bare(Op::CancelEdit)])
        }),
{
    lemma_added(root.app.requests);
}

/// Escape that has cancelled a recording does nothing else.
pub proof fn law_escape_is_used_once<S>(root: RootModel<S>, now: u64)
    ensures
        root.escape_pressed(true, now) == root,
        root.escape_pressed(false, now) == root.escape(now),
{
}

/// The buttons of an offer start the download or the restart, or put the message
/// away.
pub proof fn law_offers_are_answered<S>(root: RootModel<S>)
    ensures
        only_asks(
            root,
            root.toast_button_used(ToastButton::Download),
            seq![bare(Op::StartUpdateDownload)],
        ),
        only_asks(
            root,
            root.toast_button_used(ToastButton::Restart),
            seq![bare(Op::RestartForUpdate)],
        ),
        root.toast_button_used(ToastButton::Later) == (RootModel {
            slot: SlotModel { message: None, is_warning: false },
            ..root
        }),
{
    lemma_added(root.app.requests);
}

} // verus!
