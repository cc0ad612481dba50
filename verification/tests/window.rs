use clippi_ui::app_state::{AppState, ClipboardListEvent, Filters, Op, Settings};
use clippi_ui::clipboard_list::{ClipboardListView, ConfirmDialogState};
use clippi_ui::click::Modifiers;
use clippi_ui::navigation::{MainView, Navigation};
use clippi_ui::overlays::{
    overlay_offset_key, overlay_opacity_key, overlay_scale_key, Overlay, OverlayTransitions,
};
use clippi_ui::root::{RootTexts, RootView, SettingsEvent, TagDeleteTarget, WindowEvent};
use clippi_ui::root_dialogs::{clear_data_message, AppListPopup, ClearableCounts};
use clippi_ui::root_frame::{Frame, MenuKind, WindowFacts};
use clippi_ui::settings_panel::{
    AddButton, AppLists, HotkeyConfirmAction, PasteShortcutEntry, VERSION_TAB,
};
use clippi_ui::theme::ClippiTheme;
use clippi_ui::toast::{ToastButton, ToastButtons, ToastSlot, ToastState, TOAST_ANIM_NANOS};
use clippi_ui::types::{ClipboardItem, ContentType, FileData, TagInfo};
use clippi_ui::update_toast::{UpdatePhase, UpdateTexts, FAILURE_NANOS, OFFER_NANOS, PROGRESS_NANOS};

fn theme() -> ClippiTheme {
    ClippiTheme {
        bg: 0x191a1bff,
        accent: 0x3366ffff,
        accent_overlay: 0x3366ff33,
        text_1: 0xffffffff,
        text_2: 0xccccccff,
        text_3: 0x999999ff,
        surface: 0x222324ff,
        panel_surface: 0x252627ff,
        panel_sep_line: 0x303132ff,
        btn_hover: 0x2a2b2cff,
        divider: 0x333435ff,
        toast_bg: 0x202122ff,
    }
}

fn item(id: i64, updated_at: i64) -> ClipboardItem {
    ClipboardItem {
        id,
        content_type: ContentType::PlainText,
        full_text: format!("item {id}"),
        content_hash: 7,
        created_at: updated_at,
        updated_at,
        image_path: String::new(),
        image_width: 0,
        image_height: 0,
        rich_data: String::new(),
        file_data: FileData::empty(),
        is_favorite: false,
        note: String::new(),
        source_app_name: String::new(),
        source_app_icon: String::new(),
        size: 0,
        tags: Vec::new(),
        meta_type: String::new(),
        custom_hotkey: String::new(),
        custom_hotkey_format: String::new(),
        existence_observed_at: String::new(),
    }
}

fn app_of(items: Vec<ClipboardItem>) -> AppState {
    AppState {
        items,
        selected_ids: Vec::new(),
        pending_images: Vec::new(),
        tags: Vec::new(),
        settings: Settings {
            card_height_mode: "auto".to_string(),
            paste_click_mode: "double_click".to_string(),
            auto_scroll_to_top: false,
            search_favorites_first: false,
            sort_by_created: false,
            copy_as_plain_text: false,
            type_filter_config: Vec::new(),
            pinned_tag_ids: Vec::new(),
        },
        filters: Filters {
            active_types: Vec::new(),
            tag_ids: Vec::new(),
            keyword_set: false,
            favorites_only: false,
        },
        transfer_filter_active: false,
        pending_single_hotkey: false,
        pending_transfer_uploads: Vec::new(),
        pinned_status_uid: "pinned-uid".to_string(),
        can_merge_selected: false,
        usage_touched: Vec::new(),
        usage_force_reload: false,
        requests: Vec::new(),
    }
}

const MS: u64 = 1_000_000;
const SECOND: u64 = 1_000 * MS;

fn size_of(item: &ClipboardItem, _mode: &String) -> i64 {
    item.id * 10
}

fn text(s: &str) -> String {
    s.to_string()
}

fn texts() -> RootTexts {
    RootTexts {
        update: UpdateTexts {
            available: text("Version {0}"),
            downloading: text("{0} percent"),
            verifying: text("verifying"),
            installing: text("installing"),
            ready: text("ready"),
            error: text("failed: {0}"),
        },
        preparing_bitmap: text("preparing"),
        data_error: text("data error"),
        cleaning: text("cleaning"),
        tag_delete_failed: text("not deleted"),
        already_in_list: text("already listed"),
        transfer_local: text("Local"),
    }
}

fn facts() -> WindowFacts {
    WindowFacts {
        editing_tag_id: -1,
        editing_tag_name: String::new(),
        transfer_refreshing: false,
        clear_search_on_show: false,
        auto_focus_search: false,
    }
}

fn asked(root: &mut RootView<i64>) -> Vec<Op> {
    let ops = root.app.requests.iter().map(|request| request.op.clone()).collect();
    root.app.requests.clear();
    ops
}

/// A window over three items, the first of them selected.
fn window() -> RootView<i64> {
    let items = vec![item(1, 30), item(2, 20), item(3, 10)];
    let mut app = app_of(items.clone());
    let mut list = ClipboardListView::new(items, &app, theme(), 0, &size_of);
    list.select_index_without_scroll(0, &mut app);
    let mut root = RootView::new(app, list, AppLists::new(), theme(), 0);
    assert_eq!(asked(&mut root), vec![Op::FocusList]);
    root
}

fn frame(root: &mut RootView<i64>, now: u64) -> Frame {
    root.prepare_frame(&facts(), &texts(), now, 3 * SECOND)
}

fn tag(id: i64, name: &str) -> TagInfo {
    TagInfo { id, uid: format!("uid-{id}"), name: text(name), color: String::new() }
}

#[test]
fn the_station_goes_back_to_where_it_was_opened() {
    let mut nav = Navigation::new();
    nav.switch_view(MainView::Settings, 5);
    assert_eq!(nav.view_transition_generation, 1);
    nav.switch_view(MainView::Settings, 6);
    assert_eq!(nav.view_transition_generation, 1);
    assert_eq!(nav.view_transition_started, Some(5));
    nav.transfer_was_toggled(false, false, 7);
    assert_eq!(nav.current_view, MainView::Settings);
    nav.transfer_was_toggled(false, true, 8);
    assert_eq!(nav.current_view, MainView::Clipboard);
    assert_eq!(nav.transfer_return_view, Some(MainView::Settings));
    nav.transfer_was_toggled(true, false, 9);
    assert_eq!(nav.current_view, MainView::Settings);
    assert_eq!(nav.transfer_return_view, None);
    assert!(nav.toggles_transfer());
    nav.switch_view(MainView::Edit, 10);
    assert!(!nav.toggles_transfer());
    nav.transfer_was_toggled(true, false, 11);
    assert_eq!(nav.current_view, MainView::Edit);
}

#[test]
fn pages_change_for_a_while() {
    let mut nav = Navigation::new();
    assert!(!nav.view_animating(0));
    nav.switch_view(MainView::Settings, 100 * MS);
    assert!(nav.view_animating(304 * MS));
    assert!(!nav.view_animating(305 * MS));
}

#[test]
fn overlays_come_in_anew() {
    let mut overlays = OverlayTransitions::new();
    let key = Overlay::ContextMenu;
    assert_eq!(overlays.overlay_generation(key, false, 0), 0);
    assert_eq!(overlays.overlay_generation(key, true, 10 * MS), 1);
    assert_eq!(overlays.overlay_generation(key, true, 20 * MS), 1);
    assert!(overlays.overlay_animating(key, 184 * MS));
    assert!(!overlays.overlay_animating(key, 185 * MS));
    assert!(!overlays.overlay_animating(Overlay::TagPicker, 20 * MS));
    assert_eq!(overlays.overlay_generation(key, false, 30 * MS), 1);
    assert!(!overlays.overlay_animating(key, 31 * MS));
    assert_eq!(overlays.overlay_generation(key, true, 40 * MS), 2);
    assert_eq!(overlay_opacity_key(2), 10_002);
    assert_eq!(overlay_offset_key(2), 20_002);
    assert_eq!(overlay_scale_key(2), 30_002);
    assert_eq!(overlay_scale_key(u64::MAX), 29_999);
}

#[test]
fn a_message_stays_and_goes() {
    let mut slot = ToastSlot::new();
    let mut toast = ToastState::new();
    assert_eq!(toast.advance(&slot, "preparing", 0, 3 * SECOND), None);
    slot.say(text("hello"));
    let timer = toast.advance(&slot, "preparing", 0, 3 * SECOND).unwrap();
    assert_eq!(timer.nanos, 3 * SECOND - TOAST_ANIM_NANOS);
    assert_eq!(timer.token, 1);
    assert_eq!(toast.advance(&slot, "preparing", MS, 3 * SECOND), None);
    assert!(toast.is_in_place(&slot));
    assert!(!toast.timer_elapsed(&slot, 7));
    assert!(toast.timer_elapsed(&slot, timer.token));
    assert!(toast.is_painted(&slot));
    assert!(!toast.is_in_place(&slot));
    toast.finish(&mut slot, timer.token);
    assert_eq!(slot.message, None);
    assert!(!toast.is_painted(&slot));
}

#[test]
fn a_new_message_cancels_the_timer() {
    let mut slot = ToastSlot::new();
    let mut toast = ToastState::new();
    slot.say(text("one"));
    let first = toast.advance(&slot, "preparing", 0, 3 * SECOND).unwrap();
    slot.say(text("two"));
    let second = toast.advance(&slot, "preparing", SECOND, 3 * SECOND).unwrap();
    assert_eq!(second.token, 2);
    assert!(!toast.timer_elapsed(&slot, first.token));
    toast.finish(&mut slot, first.token);
    assert_eq!(slot.message, Some(text("two")));
}

#[test]
fn a_message_about_a_bitmap_waits() {
    let mut slot = ToastSlot::new();
    let mut toast = ToastState::new();
    slot.say(text("preparing"));
    assert_eq!(toast.advance(&slot, "preparing", 0, 3 * SECOND), None);
    assert_eq!(toast.generation, 1);
    assert_eq!(toast.advance(&slot, "preparing", 9 * SECOND, 3 * SECOND), None);
    assert_eq!(toast.generation, 1);
}

#[test]
fn a_message_that_is_over_gets_no_timer() {
    let mut slot = ToastSlot::new();
    let mut toast = ToastState::new();
    toast.show_fresh(&mut slot, text("late"), None, 5 * SECOND);
    assert_eq!(toast.advance(&slot, "preparing", 5 * SECOND, 3 * SECOND), None);
    assert_eq!(toast.advance(&slot, "preparing", 6 * SECOND, 3 * SECOND), None);
    let timer = toast.advance(&slot, "preparing", 4 * SECOND, 3 * SECOND).unwrap();
    assert_eq!(timer.nanos, SECOND - TOAST_ANIM_NANOS);
}

#[test]
fn updates_are_offered_and_followed() {
    let mut root = window();
    let told = |root: &mut RootView<i64>, phase: UpdatePhase| {
        root.handle_window_event(WindowEvent::UpdateProgress { phase }, &texts(), SECOND);
    };
    root.handle_window_event(
        WindowEvent::UpdateAvailable { version: text("2.0") },
        &texts(),
        SECOND,
    );
    assert_eq!(root.toast_slot.message, Some(text("Version 2.0")));
    assert_eq!(root.toast.buttons(), ToastButtons::DownloadOrLater);
    assert_eq!(root.toast.expiry, Some(SECOND + OFFER_NANOS));
    frame(&mut root, SECOND);
    assert!(root.toast.timer.is_some());
    told(&mut root, UpdatePhase::Downloading { progress: text("10") });
    assert_eq!(root.toast_slot.message, Some(text("10 percent")));
    assert_eq!(root.toast.buttons(), ToastButtons::Nothing);
    assert_eq!(root.toast.timer, None);
    assert_eq!(root.toast.expiry, Some(SECOND + PROGRESS_NANOS));
    told(&mut root, UpdatePhase::Verifying);
    assert_eq!(root.toast_slot.message, Some(text("verifying")));
    told(&mut root, UpdatePhase::Installing);
    assert_eq!(root.toast_slot.message, Some(text("installing")));
    told(&mut root, UpdatePhase::ReadyToRestart);
    assert_eq!(root.toast.buttons(), ToastButtons::Restart);
    told(&mut root, UpdatePhase::UpToDate);
    told(&mut root, UpdatePhase::Idle);
    assert_eq!(root.toast_slot.message, Some(text("ready")));
    told(&mut root, UpdatePhase::Error { message: text("disk") });
    assert_eq!(root.toast_slot.message, Some(text("failed: disk")));
    assert_eq!(root.toast.expiry, Some(SECOND + FAILURE_NANOS));
    root.click_toast_button(ToastButton::Download);
    root.click_toast_button(ToastButton::Restart);
    assert_eq!(asked(&mut root)[1..], [Op::StartUpdateDownload, Op::RestartForUpdate]);
    root.click_toast_button(ToastButton::Later);
    assert_eq!(root.toast_slot.message, None);
}

#[test]
fn the_version_tab_needs_no_message() {
    let mut root = window();
    let offer = WindowEvent::UpdateAvailable { version: text("2.0") };
    root.handle_window_event(offer.clone(), &texts(), 0);
    root.handle_window_event(WindowEvent::OpenVersionSettings, &texts(), SECOND);
    assert_eq!(root.toast_slot.message, None);
    assert_eq!(root.settings_panel.active_tab, VERSION_TAB);
    assert_eq!(root.navigation.current_view, MainView::Settings);
    root.handle_window_event(offer, &texts(), SECOND);
    assert_eq!(root.toast_slot.message, None);
    root.settings_panel.active_tab = 0;
    let shown = WindowEvent::UpdateProgress { phase: UpdatePhase::ReadyToRestart };
    root.handle_window_event(shown, &texts(), SECOND);
    assert_eq!(root.toast_slot.message, Some(text("ready")));
    let tab = SettingsEvent::TabChanged { tab: 3 };
    root.handle_settings_event(tab, &texts(), SECOND);
    assert_eq!(root.toast_slot.message, Some(text("ready")));
    let tab = SettingsEvent::TabChanged { tab: VERSION_TAB };
    root.handle_settings_event(tab, &texts(), SECOND);
    assert_eq!(root.toast_slot.message, None);
}

#[test]
fn events_of_the_program_reach_the_views() {
    let mut root = window();
    root.app.settings.auto_scroll_to_top = true;
    root.handle_window_event(WindowEvent::ClipboardChanged, &texts(), 0);
    assert_eq!(
        asked(&mut root),
        vec![Op::RefreshListSettings { scroll_to_top: true }, Op::ResetList]
    );
    root.handle_window_event(WindowEvent::TransferStateChanged, &texts(), 0);
    assert_eq!(asked(&mut root), vec![Op::SyncList]);
    root.handle_window_event(WindowEvent::PinnedChanged { pinned: true }, &texts(), 0);
    assert!(root.pinned);
    assert_eq!(asked(&mut root), vec![Op::SetTitlebarPinned { pinned: true }]);
    root.toggle_pin();
    assert!(!root.pinned);
    assert_eq!(
        asked(&mut root),
        vec![
            Op::SetWindowPinned { pinned: false },
            Op::SetTitlebarPinned { pinned: false },
        ]
    );
    root.handle_window_event(WindowEvent::SyncChanged, &texts(), 0);
    root.handle_window_event(WindowEvent::FileStatusChanged, &texts(), 0);
    assert_eq!(asked(&mut root), Vec::<Op>::new());
    root.app.filters.active_types = vec![text("path")];
    root.handle_window_event(WindowEvent::FileStatusChanged, &texts(), 0);
    assert_eq!(asked(&mut root), vec![Op::ReloadItems, Op::SyncList]);
    let notice = WindowEvent::DataMaintenanceToast { message: text("done") };
    root.handle_window_event(notice, &texts(), SECOND);
    assert_eq!(root.toast_slot.message, Some(text("done")));
    assert_eq!(root.toast.expiry, Some(6 * SECOND));
    root.handle_window_event(WindowEvent::BitmapPasteFinished, &texts(), 0);
    assert_eq!(root.toast_slot.message, Some(text("done")));
    root.toast_slot.say(text("preparing"));
    root.handle_window_event(WindowEvent::BitmapPasteFinished, &texts(), 0);
    assert_eq!(root.toast_slot.message, None);
    root.handle_window_event(WindowEvent::ReleaseUiResources, &texts(), 0);
    assert!(root.list_view.items.is_empty());
    assert_eq!(asked(&mut root), vec![Op::ReleaseImages]);
}

#[test]
fn recordings_end_and_are_confirmed() {
    let mut root = window();
    root.list_view.start_hotkey_recording(2, text("default"), &mut root.app);
    root.settings_panel.recording_paste_shortcut = Some(text("Editor"));
    root.app.requests.clear();
    root.handle_window_event(WindowEvent::HotkeyRecordingComplete, &texts(), 0);
    assert_eq!(root.list_view.recording_hotkey_id, -1);
    assert_eq!(root.settings_panel.recording_paste_shortcut, None);
    assert_eq!(asked(&mut root), vec![Op::SyncList]);
    let recorded = WindowEvent::PasteShortcutRecorded {
        app_name: text("Editor"),
        shortcut: text("ctrl+v"),
    };
    root.handle_window_event(recorded, &texts(), 0);
    assert_eq!(
        root.settings_panel.hotkey_confirm,
        Some(HotkeyConfirmAction::AddPasteShortcut {
            app_name: text("Editor"),
            shortcut: text("ctrl+v"),
        })
    );
    root.confirm_hotkey_action(false, &[]);
    assert_eq!(root.settings_panel.hotkey_confirm, None);
    assert_eq!(
        root.app_lists.paste_shortcuts,
        vec![PasteShortcutEntry { app_name: text("Editor"), shortcut: text("ctrl+v") }]
    );
    assert_eq!(asked(&mut root), vec![Op::SaveSettings]);
}

#[test]
fn a_hidden_window_drops_what_was_open() {
    let mut root = window();
    root.filter_bar.toggle_tag_panel();
    root.request_tag_delete(TagDeleteTarget { id: 4, name: text("Work") });
    root.settings_panel.latest_hotkeys_popup_open = true;
    root.settings_panel.app_blacklist_popup_open = true;
    root.needs_auto_focus = false;
    root.handle_window_event(WindowEvent::WindowHidden, &texts(), 0);
    assert!(root.needs_auto_focus);
    assert_eq!(root.pending_tag_delete, None);
    assert!(!root.filter_bar.tag_panel_open());
    assert!(!root.settings_panel.latest_hotkeys_popup_open);
    assert!(!root.settings_panel.app_blacklist_popup_open);
    assert_eq!(asked(&mut root), vec![Op::CancelPasteShortcutRecording]);
}

#[test]
fn questions_do_not_stack() {
    let mut root = window();
    let work = TagDeleteTarget { id: 4, name: text("Work") };
    let home = TagDeleteTarget { id: 5, name: text("Home") };
    root.request_tag_delete(work.clone());
    root.request_tag_delete(home.clone());
    assert_eq!(root.pending_tag_delete, Some(work));
    root.cancel_tag_delete();
    root.clear_data_confirm = true;
    root.request_tag_delete(home.clone());
    assert_eq!(root.pending_tag_delete, None);
    root.cancel_clear_data();
    root.list_view.action_delete();
    root.request_tag_delete(home.clone());
    assert_eq!(root.pending_tag_delete, None);
    root.cancel_list_question();
    root.settings_panel.confirm(HotkeyConfirmAction::WinVManualSetup);
    root.request_tag_delete(home.clone());
    assert_eq!(root.pending_tag_delete, None);
    root.cancel_hotkey_action();
    root.request_tag_delete(home.clone());
    assert_eq!(root.pending_tag_delete, Some(home));
}

#[test]
fn a_tag_is_deleted_when_it_is_confirmed() {
    let mut root = window();
    root.app.tags = vec![tag(4, "Work")];
    root.confirm_tag_delete();
    assert_eq!(asked(&mut root), Vec::<Op>::new());
    root.request_tag_delete(TagDeleteTarget { id: 4, name: text("Work") });
    root.confirm_tag_delete();
    assert_eq!(asked(&mut root), vec![Op::DeleteTag { tag_id: 4 }]);
    root.tag_delete_finished(false, &texts());
    assert_eq!(asked(&mut root), vec![Op::ShowToast { message: text("not deleted") }]);
    assert!(root.pending_tag_delete.is_some());
    root.tag_delete_finished(true, &texts());
    assert_eq!(asked(&mut root), vec![Op::RefreshTagList]);
    assert_eq!(root.pending_tag_delete, None);
    root.request_tag_delete(TagDeleteTarget { id: 9, name: text("Gone") });
    root.confirm_tag_delete();
    assert_eq!(asked(&mut root), Vec::<Op>::new());
    assert_eq!(root.pending_tag_delete, None);
}

#[test]
fn questions_of_the_list_are_answered() {
    let mut root = window();
    root.confirm_list_question();
    assert_eq!(asked(&mut root), Vec::<Op>::new());
    root.list_view.action_delete();
    root.confirm_list_question();
    assert_eq!(asked(&mut root), vec![Op::DeleteItem { id: 1 }, Op::SyncList]);
    assert_eq!(root.list_view.confirm_dialog_state(), None);
    root.list_view.confirm_dialog = Some(ConfirmDialogState::Batch { count: 3 });
    root.confirm_list_question();
    assert_eq!(asked(&mut root), vec![Op::BatchDelete, Op::SyncList]);
    root.list_view.confirm_dialog = Some(ConfirmDialogState::Transfer { hash: text("abc") });
    root.confirm_list_question();
    assert_eq!(asked(&mut root), vec![Op::DeleteTransferEntry { hash: text("abc") }]);
    root.list_view.confirm_dialog = Some(ConfirmDialogState::TransferBatch {
        hashes: vec![text("abc"), text("def")],
    });
    root.confirm_list_question();
    assert_eq!(root.app.requests[0].op, Op::DeleteTransferEntries);
    assert_eq!(root.app.requests[0].names, vec![text("abc"), text("def")]);
}

#[test]
fn the_history_is_cleared_as_chosen() {
    let mut root = window();
    root.clear_data_include_tagged = true;
    root.handle_settings_event(SettingsEvent::ShowClearDataConfirm, &texts(), 0);
    assert!(root.clear_data_confirm);
    let counts = ClearableCounts { plain: 1, untagged: 2, not_favorite: 3, all: 4 };
    assert_eq!(root.clear_data_count(&counts), 1);
    root.toggle_clear_favorites();
    assert_eq!(root.clear_data_count(&counts), 2);
    root.toggle_clear_tagged();
    assert_eq!(root.clear_data_count(&counts), 4);
    root.toggle_clear_favorites();
    assert_eq!(root.clear_data_count(&counts), 3);
    root.confirm_clear_data();
    assert_eq!(
        asked(&mut root),
        vec![Op::RequestClearData { include_favorites: false, include_tagged: true }]
    );
    root.clear_data_requested(false, &texts());
    assert!(!root.clear_data_confirm);
    assert_eq!(root.toast_slot.message, Some(text("cleaning")));
    assert_eq!(clear_data_message(text("Clear?"), "Synced.", &[false, true]), "Clear?\nSynced.");
    assert_eq!(clear_data_message(text("Clear?"), "Synced.", &[false]), "Clear?");
}

#[test]
fn apps_are_blocked_and_allowed() {
    let mut root = window();
    let block = HotkeyConfirmAction::AddBlacklist { app_name: text("Game") };
    root.settings_panel.confirm(block.clone());
    root.confirm_hotkey_action(false, &[]);
    assert_eq!(root.app.requests[1].op, Op::SetHotkeyBlacklist);
    assert_eq!(root.app.requests[1].names, vec![text("Game")]);
    assert_eq!(asked(&mut root), vec![Op::SaveSettings, Op::SetHotkeyBlacklist]);
    root.settings_panel.confirm(block);
    root.confirm_hotkey_action(false, &[]);
    assert_eq!(asked(&mut root), vec![Op::SetHotkeyBlacklist]);
    root.settings_panel.confirm(HotkeyConfirmAction::RemoveBlacklist { app_name: text("Game") });
    root.confirm_hotkey_action(false, &[]);
    assert_eq!(asked(&mut root), vec![Op::SaveSettings, Op::SetHotkeyBlacklist]);
    assert!(root.app_lists.hotkey_blacklist.is_empty());
    let block = HotkeyConfirmAction::AddClipboardBlacklist { app_name: text("Vault") };
    root.settings_panel.confirm(block.clone());
    root.confirm_hotkey_action(false, &[]);
    assert_eq!(asked(&mut root), vec![Op::SaveSettings, Op::SetClipboardBlacklist]);
    root.settings_panel.confirm(block);
    root.confirm_hotkey_action(true, &[true]);
    assert_eq!(asked(&mut root), vec![Op::SetClipboardBlacklist]);
    assert_eq!(root.app_lists.clipboard_app_blacklist, vec![text("Vault")]);
    let allow = HotkeyConfirmAction::RemoveClipboardBlacklist { app_name: text("vault") };
    root.settings_panel.confirm(allow);
    root.confirm_hotkey_action(true, &[true]);
    assert!(root.app_lists.clipboard_app_blacklist.is_empty());
    assert_eq!(asked(&mut root), vec![Op::SaveSettings, Op::SetClipboardBlacklist]);
}

#[test]
fn the_clipboard_key_is_taken_over() {
    let mut root = window();
    root.settings_panel.confirm(HotkeyConfirmAction::WinVTakeoverEnable);
    root.confirm_hotkey_action(false, &[]);
    root.settings_panel.confirm(HotkeyConfirmAction::WinVTakeoverDisable);
    root.confirm_hotkey_action(false, &[]);
    root.settings_panel.confirm(HotkeyConfirmAction::WinVManualSetup);
    root.confirm_hotkey_action(false, &[]);
    assert_eq!(root.settings_panel.hotkey_confirm, None);
    assert_eq!(
        asked(&mut root),
        vec![Op::SetWinVTakeover { enabled: true }, Op::SetWinVTakeover { enabled: false }]
    );
    root.takeover_finished(Ok(()));
    assert_eq!(root.toast_slot.message, None);
    root.takeover_finished(Err(text("denied")));
    assert_eq!(root.toast_slot.message, Some(text("denied")));
    assert!(root.toast_slot.is_warning);
    root.click_toast();
    assert!(!root.toast_slot.is_warning);
}

#[test]
fn popups_add_and_remove_apps() {
    let mut root = window();
    let blacklist = AppListPopup::HotkeyBlacklist;
    assert_eq!(root.popup_button(blacklist, ""), AddButton::Hidden);
    assert_eq!(root.popup_button(blacklist, "Game"), AddButton::AddForeground);
    root.use_popup_button(blacklist, text("Game"), true, &texts());
    assert_eq!(asked(&mut root), vec![Op::ShowToast { message: text("already listed") }]);
    root.use_popup_button(blacklist, text("Game"), false, &texts());
    assert_eq!(
        root.settings_panel.hotkey_confirm,
        Some(HotkeyConfirmAction::AddBlacklist { app_name: text("Game") })
    );
    root.use_popup_button(AppListPopup::AppBlacklist, text("Vault"), false, &texts());
    assert_eq!(
        root.settings_panel.hotkey_confirm,
        Some(HotkeyConfirmAction::AddClipboardBlacklist { app_name: text("Vault") })
    );
    root.remove_from_popup(AppListPopup::PasteShortcuts, text("Editor"));
    assert_eq!(
        root.settings_panel.hotkey_confirm,
        Some(HotkeyConfirmAction::RemovePasteShortcut { app_name: text("Editor") })
    );
    root.settings_panel.app_blacklist_popup_open = true;
    root.close_popup(AppListPopup::AppBlacklist);
    assert!(!root.settings_panel.app_blacklist_popup_open);
    assert_eq!(asked(&mut root), Vec::<Op>::new());
}

#[test]
fn paste_shortcuts_are_recorded_from_their_popup() {
    let mut root = window();
    let popup = AppListPopup::PasteShortcuts;
    root.app_lists.add_shortcut(text("Editor"), text("ctrl+v"));
    root.use_popup_button(popup, text("editor"), false, &texts());
    assert_eq!(
        asked(&mut root),
        vec![Op::StartPasteShortcutRecording { app_name: text("editor") }]
    );
    assert_eq!(root.popup_button(popup, ""), AddButton::StopRecording);
    let entries = root.popup_entries(popup);
    assert_eq!(entries[0].shortcut, Some(text("ctrl+v")));
    assert!(entries[0].is_recording_target);
    root.use_popup_button(popup, text("editor"), false, &texts());
    assert_eq!(asked(&mut root), vec![Op::CancelPasteShortcutRecording]);
    assert!(!root.popup_entries(popup)[0].is_recording_target);
    root.start_shortcut_recording(text("Editor"));
    root.close_popup(popup);
    assert_eq!(root.settings_panel.recording_paste_shortcut, None);
}

#[test]
fn another_shortcut_takes_the_place_of_the_first() {
    let mut root = window();
    root.app_lists.add_shortcut(text("Editor"), text("ctrl+v"));
    root.app_lists.add_shortcut(text("Term"), text("shift+insert"));
    let action = HotkeyConfirmAction::AddPasteShortcut {
        app_name: text("Editor"),
        shortcut: text("alt+v"),
    };
    root.handle_settings_event(SettingsEvent::HotkeyPasteShortcut { action }, &texts(), 0);
    let apps: Vec<&str> =
        root.app_lists.paste_shortcuts.iter().map(|entry| entry.app_name.as_str()).collect();
    assert_eq!(apps, vec!["Term", "Editor"]);
    assert_eq!(root.app_lists.paste_shortcuts[1].shortcut, "alt+v");
    let action = HotkeyConfirmAction::RemovePasteShortcut { app_name: text("Term") };
    root.handle_settings_event(SettingsEvent::HotkeyPasteShortcut { action }, &texts(), 0);
    assert_eq!(root.app_lists.paste_shortcuts.len(), 1);
}

#[test]
fn a_theme_reaches_every_view() {
    let mut root = window();
    let light = ClippiTheme { bg: 0xffffffff, ..theme() };
    root.handle_appearance_change("dark", light);
    assert_eq!(root.theme, theme());
    root.handle_appearance_change("system", light);
    assert_eq!(root.theme, light);
    assert_eq!(root.search_box.theme, light);
    assert_eq!(root.filter_bar.theme, light);
    assert_eq!(root.list_view.theme, light);
    assert!(!root.sidebar.dark_mode);
    assert_eq!(asked(&mut root), vec![Op::ApplyTheme { theme: light }]);
    assert_eq!(frame(&mut root, 0).border, 0xd0d2deff);
    root.handle_settings_event(SettingsEvent::ThemeChanged { theme: theme() }, &texts(), 0);
    assert_eq!(frame(&mut root, 0).border, 0x3a3b3cff);
}

#[test]
fn settings_changes_reload_or_refresh() {
    let mut root = window();
    let change = SettingsEvent::ClipboardSettingsChanged {
        reload_items: true,
        scroll_to_top: false,
    };
    root.handle_settings_event(change, &texts(), 0);
    assert_eq!(
        asked(&mut root),
        vec![
            Op::ReloadItems,
            Op::RefreshListSettings { scroll_to_top: false },
            Op::ResetList,
        ]
    );
    let change = SettingsEvent::ClipboardSettingsChanged {
        reload_items: false,
        scroll_to_top: true,
    };
    root.handle_settings_event(change, &texts(), 0);
    assert_eq!(asked(&mut root), vec![Op::RefreshListSettings { scroll_to_top: true }]);
    let failure = SettingsEvent::DataError { message: text("disk full") };
    root.handle_settings_event(failure, &texts(), 0);
    assert_eq!(root.toast_slot.message, Some(text("data error")));
    let toast = SettingsEvent::DataToast { message: text("saved") };
    root.handle_settings_event(toast, &texts(), 0);
    assert_eq!(root.toast_slot.message, Some(text("saved")));
    root.open_settings(SECOND);
    root.settings_panel.latest_hotkeys_popup_open = true;
    root.handle_settings_event(SettingsEvent::Back, &texts(), 2 * SECOND);
    assert_eq!(root.navigation.current_view, MainView::Clipboard);
    assert!(!root.settings_panel.latest_hotkeys_popup_open);
}

#[test]
fn items_are_edited_on_their_page() {
    let mut root = window();
    root.handle_list_event(ClipboardListEvent::OpenEdit(2));
    root.handle_list_event(ClipboardListEvent::RequestHide);
    assert_eq!(asked(&mut root), vec![Op::StartEditItem { id: 2 }, Op::HideWindow]);
    root.edit_started(false, 0);
    assert_eq!(root.navigation.current_view, MainView::Clipboard);
    root.filter_bar.toggle_tag_panel();
    root.edit_started(true, 0);
    assert_eq!(root.navigation.current_view, MainView::Edit);
    assert!(!root.filter_bar.tag_panel_open());
    root.edit_finished(true, 0);
    assert_eq!(root.navigation.current_view, MainView::Clipboard);
    root.edit_finished(false, 0);
    assert_eq!(asked(&mut root), vec![Op::ResetList, Op::CancelEdit]);
}

#[test]
fn escape_leads_back_and_hides() {
    let mut root = window();
    root.open_settings(0);
    root.settings_panel.backend_panel_open = true;
    root.handle_escape(false, 0);
    assert_eq!(asked(&mut root), vec![Op::CloseBackendPanel]);
    root.settings_panel.backend_panel_open = false;
    root.handle_escape(true, 0);
    assert_eq!(root.navigation.current_view, MainView::Settings);
    root.handle_escape(false, 0);
    assert_eq!(root.navigation.current_view, MainView::Clipboard);
    assert_eq!(asked(&mut root), vec![Op::FocusList]);
    root.edit_started(true, 0);
    root.handle_escape(false, 0);
    assert_eq!(asked(&mut root), vec![Op::CancelEdit, Op::FocusList]);
    root.list_view.select_all_visible(&mut root.app);
    root.handle_escape(false, 0);
    assert_eq!(root.list_view.selected_ids, vec![1]);
    assert_eq!(asked(&mut root), vec![Op::FocusList]);
    root.handle_escape(false, 0);
    assert_eq!(asked(&mut root), vec![Op::HideWindow]);
}

#[test]
fn the_station_closes_the_panels_of_the_list() {
    let mut root = window();
    root.filter_bar.toggle_filter_config();
    root.list_view.handle_right_click(0, false, &mut root.app);
    root.open_settings(0);
    root.handle_toggle_transfer(false, true, SECOND);
    assert!(!root.filter_bar.filter_config_open());
    assert!(!root.list_view.context_menu_visible());
    assert_eq!(root.navigation.current_view, MainView::Clipboard);
    assert_eq!(asked(&mut root), vec![Op::ResetList]);
}

#[test]
fn a_frame_gives_the_focus_once() {
    let mut root = window();
    let wanted = WindowFacts { clear_search_on_show: true, auto_focus_search: true, ..facts() };
    root.prepare_frame(&wanted, &texts(), 0, SECOND);
    assert_eq!(asked(&mut root), vec![Op::ClearSearchText, Op::FocusSearch]);
    root.prepare_frame(&wanted, &texts(), 0, SECOND);
    assert_eq!(asked(&mut root), Vec::<Op>::new());
    root.needs_auto_focus = true;
    root.open_settings(0);
    frame(&mut root, 0);
    assert!(root.needs_auto_focus);
    root.switch_view(MainView::Clipboard, 0);
    frame(&mut root, 0);
    assert_eq!(asked(&mut root), vec![Op::FocusList]);
}

#[test]
fn a_frame_fills_the_editor_of_another_tag() {
    let mut root = window();
    root.needs_auto_focus = false;
    let editing = WindowFacts { editing_tag_id: 7, editing_tag_name: text("Work"), ..facts() };
    let first = root.prepare_frame(&editing, &texts(), 0, SECOND);
    assert!(first.overlays[Overlay::TagEdit.index()].visible);
    assert_eq!(asked(&mut root), vec![Op::FillTagEditor { name: text("Work") }]);
    root.prepare_frame(&editing, &texts(), 0, SECOND);
    assert_eq!(asked(&mut root), Vec::<Op>::new());
}

#[test]
fn a_frame_drops_a_stale_question() {
    let mut root = window();
    let target = TagDeleteTarget { id: 4, name: text("Work") };
    root.filter_bar.toggle_tag_panel();
    root.request_tag_delete(target.clone());
    let shown = frame(&mut root, 0);
    assert!(shown.overlays[Overlay::TagDeleteConfirm.index()].visible);
    assert_eq!(root.pending_tag_delete, Some(target));
    root.filter_bar.close_tag_panel();
    let shown = frame(&mut root, 0);
    assert!(!shown.overlays[Overlay::TagDeleteConfirm.index()].visible);
    assert_eq!(root.pending_tag_delete, None);
}

#[test]
fn overlays_are_visible_on_their_page() {
    let mut root = window();
    root.filter_bar.toggle_filter_config();
    root.settings_panel.hotkey_blacklist_popup_open = true;
    root.settings_panel.app_blacklist_popup_open = true;
    root.settings_panel.confirm(HotkeyConfirmAction::WinVManualSetup);
    root.list_view.handle_right_click(0, false, &mut root.app);
    let shown = frame(&mut root, 0);
    assert_eq!(shown.view, MainView::Clipboard);
    assert!(shown.shows_filter_bar && shown.shows_bottom_bar);
    assert!(shown.overlays[Overlay::TypeFilterConfig.index()].visible);
    assert!(shown.overlays[Overlay::ContextMenu.index()].visible);
    assert!(shown.overlays[Overlay::ContextMenu.index()].animating);
    assert_eq!(shown.overlays[Overlay::ContextMenu.index()].generation, 1);
    assert!(shown.overlays[Overlay::HotkeyConfirm.index()].visible);
    assert!(!shown.overlays[Overlay::HotkeyBlacklistPopup.index()].visible);
    root.open_settings(SECOND);
    root.settings_panel.active_tab = 2;
    let shown = frame(&mut root, SECOND);
    assert!(shown.view_animating && !shown.shows_filter_bar);
    assert_eq!(shown.view_generation, 1);
    assert!(shown.overlays[Overlay::HotkeyBlacklistPopup.index()].visible);
    assert!(!shown.overlays[Overlay::AppBlacklistPopup.index()].visible);
    assert!(!shown.overlays[Overlay::ContextMenu.index()].visible);
    root.settings_panel.active_tab = 1;
    let shown = frame(&mut root, SECOND);
    assert!(shown.overlays[Overlay::AppBlacklistPopup.index()].visible);
    root.switch_view(MainView::Edit, SECOND);
    let shown = frame(&mut root, SECOND);
    assert!(!shown.shows_bottom_bar);
    assert!(shown.overlays.iter().all(|overlay| !overlay.visible));
}

#[test]
fn a_frame_starts_the_timer_of_a_message() {
    let mut root = window();
    root.toast_slot.say(text("hello"));
    let shown = frame(&mut root, 0);
    assert_eq!(shown.toast_timer.unwrap().nanos, 3 * SECOND - TOAST_ANIM_NANOS);
    assert_eq!(frame(&mut root, MS).toast_timer, None);
}

#[test]
fn the_station_spins_on_the_list_only() {
    let mut root = window();
    let busy = WindowFacts { transfer_refreshing: true, ..facts() };
    assert!(!root.prepare_frame(&busy, &texts(), 0, SECOND).transfer_refreshing);
    root.app.transfer_filter_active = true;
    let shown = root.prepare_frame(&busy, &texts(), 0, SECOND);
    assert!(shown.transfer_refreshing && !shown.shows_filter_bar);
    root.open_settings(0);
    assert!(!root.prepare_frame(&busy, &texts(), 0, SECOND).transfer_refreshing);
}

#[test]
fn menus_differ_by_what_they_are_about() {
    let mut root = window();
    assert_eq!(root.context_menu_kind(&texts()), MenuKind::Nothing);
    root.list_view.handle_right_click(1, false, &mut root.app);
    assert_eq!(root.context_menu_kind(&texts()), MenuKind::Item);
    root.list_view.select_all_visible(&mut root.app);
    root.app.can_merge_selected = true;
    root.list_view.handle_right_click(1, false, &mut root.app);
    assert_eq!(
        root.context_menu_kind(&texts()),
        MenuKind::Batch { count: 3, can_merge: true }
    );
    root.list_view.hide_context_menu();
    for item in root.list_view.items.iter_mut() {
        item.id = -item.id;
        item.content_type = ContentType::File;
        item.meta_type = text("transfer");
        item.file_data.transfer = true;
        item.file_data.remote_hash = format!("hash {}", item.id);
    }
    root.list_view.items[0].tags = vec![tag(1, "Local")];
    root.list_view.items[1].tags = vec![TagInfo { uid: text("pinned-uid"), ..tag(2, "Pin") }];
    root.list_view.handle_right_click(0, false, &mut root.app);
    assert_eq!(root.context_menu_kind(&texts()), MenuKind::Item);
    root.app.transfer_filter_active = true;
    assert_eq!(
        root.context_menu_kind(&texts()),
        MenuKind::TransferEntry { is_local: true, is_pinned: false }
    );
    root.list_view.handle_right_click(1, false, &mut root.app);
    assert_eq!(
        root.context_menu_kind(&texts()),
        MenuKind::TransferEntry { is_local: false, is_pinned: true }
    );
    root.list_view.select_all_visible(&mut root.app);
    root.list_view.handle_right_click(1, false, &mut root.app);
    assert_eq!(root.context_menu_kind(&texts()), MenuKind::TransferBatch);
    assert!(!root.list_view.handle_key_down("x", Modifiers::none(), &mut root.app));
}
