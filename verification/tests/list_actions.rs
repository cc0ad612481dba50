use clippi_ui::app_state::{AppState, ClipboardListEvent, Filters, Op, ScrollStrategy, Settings};
use clippi_ui::click::Modifiers;
use clippi_ui::clipboard_list::{ClipboardListView, ConfirmDialogState, TagPickerAnchor};
use clippi_ui::theme::ClippiTheme;
use clippi_ui::types::{ClipboardItem, ContentType, FileData, FileEntry, TagInfo, TagState};

fn theme() -> ClippiTheme {
    ClippiTheme {
        bg: 0x191a1bff,
        accent: 0x3366ffff,
        accent_overlay: 0x3366ff33,
        text_1: 0xffffffff,
        text_2: 0xccccccff,
        text_3: 0x999999ff,
        surface: 0x222324ff,
        panel_surface: 0x252627ff,
        panel_sep_line: 0x303132ff,
        btn_hover: 0x2a2b2cff,
        divider: 0x333435ff,
        toast_bg: 0x202122ff,
    }
}

fn item(id: i64, updated_at: i64) -> ClipboardItem {
    ClipboardItem {
        id,
        content_type: ContentType::PlainText,
        full_text: format!("item {id}"),
        content_hash: 7,
        created_at: updated_at,
        updated_at,
        image_path: String::new(),
        image_width: 0,
        image_height: 0,
        rich_data: String::new(),
        file_data: FileData::empty(),
        is_favorite: false,
        note: String::new(),
        source_app_name: String::new(),
        source_app_icon: String::new(),
        size: 0,
        tags: Vec::new(),
        meta_type: String::new(),
        custom_hotkey: String::new(),
        custom_hotkey_format: String::new(),
        existence_observed_at: String::new(),
    }
}

fn app_of(items: Vec<ClipboardItem>) -> AppState {
    AppState {
        items,
        selected_ids: Vec::new(),
        pending_images: Vec::new(),
        tags: Vec::new(),
        settings: Settings {
            card_height_mode: "auto".to_string(),
            paste_click_mode: "double_click".to_string(),
            auto_scroll_to_top: false,
            search_favorites_first: false,
            sort_by_created: false,
            copy_as_plain_text: false,
            type_filter_config: Vec::new(),
            pinned_tag_ids: Vec::new(),
        },
        filters: Filters {
            active_types: Vec::new(),
            tag_ids: Vec::new(),
            keyword_set: false,
            favorites_only: false,
        },
        transfer_filter_active: false,
        pending_single_hotkey: false,
        pending_transfer_uploads: Vec::new(),
        pinned_status_uid: "pinned-uid".to_string(),
        can_merge_selected: false,
        usage_touched: Vec::new(),
        usage_force_reload: false,
        requests: Vec::new(),
    }
}

/// The size of a card, which the tests take from the item's id.
fn size_of(item: &ClipboardItem, _mode: &String) -> i64 {
    item.id * 10
}

fn list_of(items: Vec<ClipboardItem>, app: &AppState) -> ClipboardListView<i64> {
    ClipboardListView::new(items, app, theme(), 0, &size_of)
}

/// Three items, the first of them selected.
fn three() -> (ClipboardListView<i64>, AppState) {
    let items = vec![item(1, 30), item(2, 20), item(3, 10)];
    let mut app = app_of(items.clone());
    let mut list = list_of(items, &app);
    list.select_index_without_scroll(0, &mut app);
    (list, app)
}

/// Takes out the work that was asked for.
fn asked(app: &mut AppState) -> Vec<Op> {
    let ops = app.requests.iter().map(|request| request.op.clone()).collect();
    app.requests.clear();
    ops
}

fn control() -> Modifiers {
    Modifiers { control: true, ..Default::default() }
}

fn shift() -> Modifiers {
    Modifiers { shift: true, ..Default::default() }
}

fn pending(id: i64) -> ClipboardItem {
    let mut placeholder = item(-id, 99);
    placeholder.meta_type = "pending-image".to_string();
    placeholder
}

/// An entry of the transfer station.
fn station_entry(id: i64, hash: &str, path: &str) -> ClipboardItem {
    let mut entry = item(-id, 5);
    entry.content_type = ContentType::File;
    entry.meta_type = "transfer".to_string();
    entry.file_data = FileData {
        files: vec![FileEntry { path: path.to_string() }],
        remote_hash: hash.to_string(),
        transfer: true,
    };
    entry
}

fn tag(id: i64, name: &str) -> TagInfo {
    TagInfo {
        id,
        uid: format!("uid-{id}"),
        name: name.to_string(),
        color: "#EF4444".to_string(),
    }
}

fn single_click_mode(app: &mut AppState) {
    app.settings.paste_click_mode = "single_click".to_string();
}

#[test]
fn a_click_in_single_click_mode_pastes_the_clicked_item() {
    let (mut list, mut app) = three();
    single_click_mode(&mut app);
    assert!(!list.handle_card_click(1, Modifiers::none(), &mut app));
    assert_eq!(
        asked(&mut app),
        vec![Op::PasteItem { id: 2, plain: false }, Op::SyncListForUsage]
    );
    assert_eq!(list.selected_ids, vec![1]);
    list.handle_card_click(0, shift(), &mut app);
    assert_eq!(asked(&mut app), vec![Op::PasteItemPlain { id: 1 }, Op::SyncListForUsage]);
    list.handle_card_click(0, control(), &mut app);
    assert_eq!(asked(&mut app), Vec::<Op>::new());
    list.items[0].content_type = ContentType::Image;
    list.handle_card_click(0, control(), &mut app);
    assert_eq!(asked(&mut app), vec![Op::PasteImageAsBitmap { id: 1 }, Op::SyncListForUsage]);
    list.handle_double_click(0, Modifiers::none(), &mut app);
    assert_eq!(asked(&mut app), Vec::<Op>::new());
}

#[test]
fn a_click_on_several_selected_items_only_selects() {
    let (mut list, mut app) = three();
    single_click_mode(&mut app);
    list.select_all_visible(&mut app);
    list.handle_card_click(1, Modifiers::none(), &mut app);
    assert_eq!(list.selected_ids, vec![2]);
    assert_eq!(asked(&mut app), Vec::<Op>::new());
}

#[test]
fn a_click_in_double_click_mode_only_selects() {
    let (mut list, mut app) = three();
    list.handle_card_click(1, Modifiers::none(), &mut app);
    assert_eq!(list.selected_ids, vec![2]);
    list.handle_card_click(2, control(), &mut app);
    assert_eq!(list.selected_ids, vec![2, 3]);
    list.handle_card_click(0, shift(), &mut app);
    assert_eq!(list.selected_ids, vec![3, 2, 1]);
    assert_eq!(asked(&mut app), Vec::<Op>::new());
}

#[test]
fn a_double_click_pastes_one_or_all() {
    let (mut list, mut app) = three();
    list.handle_double_click(1, Modifiers::none(), &mut app);
    assert_eq!(
        asked(&mut app),
        vec![Op::PasteItem { id: 2, plain: false }, Op::SyncListForUsage]
    );
    list.select_all_visible(&mut app);
    list.handle_double_click(1, Modifiers::none(), &mut app);
    assert_eq!(app.requests[0].op, Op::BatchPaste { plain: false });
    assert_eq!(app.requests[0].ids, vec![1, 2, 3]);
}

#[test]
fn a_modified_double_click_needs_its_beginning() {
    let (mut list, mut app) = three();
    list.handle_double_click(0, shift(), &mut app);
    assert_eq!(asked(&mut app), Vec::<Op>::new());
    list.handle_card_click(0, shift(), &mut app);
    list.handle_double_click(0, shift(), &mut app);
    assert_eq!(asked(&mut app), vec![Op::PasteItemPlain { id: 1 }, Op::SyncListForUsage]);
    list.handle_double_click(0, shift(), &mut app);
    assert_eq!(asked(&mut app), Vec::<Op>::new());
    list.items[0].content_type = ContentType::Image;
    list.handle_card_click(0, control(), &mut app);
    list.handle_double_click(0, control(), &mut app);
    assert_eq!(asked(&mut app), vec![Op::PasteImageAsBitmap { id: 1 }, Op::SyncListForUsage]);
}

#[test]
fn placeholders_are_not_clicked() {
    let items = vec![pending(4), item(1, 1)];
    let mut app = app_of(items.clone());
    let mut list = list_of(items, &app);
    single_click_mode(&mut app);
    list.handle_card_click(0, Modifiers::none(), &mut app);
    assert_eq!(asked(&mut app), Vec::<Op>::new());
}

#[test]
fn entries_of_the_station_are_opened_or_fetched() {
    let items = vec![station_entry(8, "abc", "/tmp/a.txt"), station_entry(9, "def", "")];
    let mut app = app_of(items.clone());
    let mut list = list_of(items, &app);
    list.handle_double_click(0, Modifiers::none(), &mut app);
    assert_eq!(
        asked(&mut app),
        vec![Op::OpenTransferLocation { path: "/tmp/a.txt".to_string() }, Op::SyncList]
    );
    list.handle_double_click(1, Modifiers::none(), &mut app);
    assert_eq!(
        asked(&mut app),
        vec![Op::DownloadTransfer { hash: "def".to_string() }, Op::SyncList]
    );
}

#[test]
fn pasting_dismisses_a_panel_first() {
    let (mut list, mut app) = three();
    list.handle_right_click(1, false, &mut app);
    assert!(list.context_menu_visible());
    list.action_paste(false, &mut app);
    assert!(!list.context_menu_visible());
    assert_eq!(asked(&mut app), Vec::<Op>::new());
    list.action_paste(true, &mut app);
    assert_eq!(asked(&mut app), vec![Op::PasteItemPlain { id: 2 }, Op::SyncListForUsage]);
    list.action_paste_bitmap_or_default(&mut app);
    assert_eq!(
        asked(&mut app),
        vec![Op::PasteItem { id: 2, plain: false }, Op::SyncListForUsage]
    );
}

#[test]
fn arrows_move_the_selection_and_the_category() {
    let (mut list, mut app) = three();
    assert!(list.handle_key_down("down", Modifiers::none(), &mut app));
    assert_eq!(list.selected_ids, vec![2]);
    assert_eq!(
        asked(&mut app),
        vec![Op::ScrollTo { index: 1, strategy: ScrollStrategy::Bottom }]
    );
    assert!(list.handle_key_down("up", Modifiers::none(), &mut app));
    assert_eq!(list.selected_ids, vec![1]);
    asked(&mut app);
    assert!(list.handle_key_down("right", Modifiers::none(), &mut app));
    assert_eq!(asked(&mut app), vec![Op::CycleTypeFilter { delta: 1 }, Op::ResetList]);
    assert!(list.handle_key_down("left", Modifiers::none(), &mut app));
    assert_eq!(asked(&mut app), vec![Op::CycleTypeFilter { delta: -1 }, Op::ResetList]);
}

#[test]
fn arrows_with_the_primary_modifier_move_the_category() {
    let (mut list, mut app) = three();
    list.handle_right_click(1, false, &mut app);
    asked(&mut app);
    assert!(list.handle_key_down("right", control(), &mut app));
    assert!(!list.context_menu_visible());
    assert_eq!(asked(&mut app), vec![Op::CycleTypeFilter { delta: 1 }, Op::ResetList]);
    assert!(list.handle_key_down("left", control(), &mut app));
    assert_eq!(asked(&mut app), vec![Op::CycleTypeFilter { delta: -1 }, Op::ResetList]);
    let both = Modifiers { shift: true, ..control() };
    assert!(!list.handle_key_down("left", both, &mut app));
    assert!(!list.handle_key_down("right", both, &mut app));
    assert_eq!(asked(&mut app), Vec::<Op>::new());
}

#[test]
fn keys_act_on_the_active_item() {
    let (mut list, mut app) = three();
    assert!(list.handle_key_down("c", control(), &mut app));
    assert_eq!(
        asked(&mut app),
        vec![Op::CopyItem { id: 1, plain: false }, Op::SyncListForUsage]
    );
    assert!(list.handle_key_down("e", control(), &mut app));
    assert_eq!(asked(&mut app), vec![Op::Emit { event: ClipboardListEvent::OpenEdit(1) }]);
    assert!(list.handle_key_down("d", control(), &mut app));
    assert_eq!(
        asked(&mut app),
        vec![Op::ToggleFavorite { id: 1 }, Op::SyncList, Op::ReselectToggled { id: 1 }]
    );
    assert!(list.handle_key_down("f", control(), &mut app));
    assert_eq!(asked(&mut app), vec![Op::FocusSearch]);
    assert!(list.handle_key_down("enter", shift(), &mut app));
    assert_eq!(asked(&mut app), vec![Op::PasteItemPlain { id: 1 }, Op::SyncListForUsage]);
    assert!(!list.handle_key_down("x", Modifiers::none(), &mut app));
    assert!(list.handle_key_down("a", control(), &mut app));
    assert_eq!(list.selected_ids, vec![1, 2, 3]);
    assert!(list.handle_key_down("t", control(), &mut app));
    assert!(list.tag_picker_visible());
    assert!(list.tag_picker_is_batch());
}

#[test]
fn space_looks_at_images_links_and_files() {
    let (mut list, mut app) = three();
    list.handle_key_down("space", Modifiers::none(), &mut app);
    assert_eq!(asked(&mut app), Vec::<Op>::new());
    list.items[0].content_type = ContentType::Image;
    list.handle_key_down("space", Modifiers::none(), &mut app);
    assert_eq!(asked(&mut app), vec![Op::OpenOriginalImage { id: 1 }]);
    list.items[0].content_type = ContentType::PlainText;
    list.items[0].meta_type = "link".to_string();
    list.handle_key_down("space", Modifiers::none(), &mut app);
    assert_eq!(asked(&mut app), vec![Op::OpenItemLocation { id: 1 }]);
}

#[test]
fn deleting_is_asked_about_first() {
    let (mut list, mut app) = three();
    list.handle_key_down("delete", Modifiers::none(), &mut app);
    assert_eq!(list.confirm_dialog_state(), Some(&ConfirmDialogState::Single { id: 1 }));
    assert_eq!(asked(&mut app), Vec::<Op>::new());
    list.dismiss_confirm_dialog();
    assert_eq!(list.confirm_dialog_state(), None);
    list.select_all_visible(&mut app);
    list.action_delete();
    assert_eq!(list.confirm_dialog_state(), Some(&ConfirmDialogState::Batch { count: 3 }));
}

#[test]
fn entries_of_the_station_are_deleted_there() {
    let items = vec![station_entry(8, "abc", ""), station_entry(9, "def", "")];
    let mut app = app_of(items.clone());
    let mut list = list_of(items, &app);
    list.select_index_without_scroll(0, &mut app);
    list.action_delete();
    assert_eq!(
        list.confirm_dialog_state(),
        Some(&ConfirmDialogState::Transfer { hash: "abc".to_string() })
    );
    list.dismiss_confirm_dialog();
    list.select_all_visible(&mut app);
    list.action_delete();
    assert_eq!(
        list.confirm_dialog_state(),
        Some(&ConfirmDialogState::TransferBatch {
            hashes: vec!["abc".to_string(), "def".to_string()]
        })
    );
    assert_eq!(list.selected_transfer_hashes(), vec!["abc".to_string(), "def".to_string()]);
}

#[test]
fn escape_ends_one_thing_at_a_time() {
    let (mut list, mut app) = three();
    list.select_all_visible(&mut app);
    list.handle_right_click(0, false, &mut app);
    assert!(list.handle_escape_from_root(&mut app));
    assert!(!list.context_menu_visible());
    assert_eq!(list.selected_ids, vec![1, 2, 3]);
    assert!(list.handle_escape_from_root(&mut app));
    assert_eq!(list.selected_ids, vec![1]);
    assert!(!list.handle_escape_from_root(&mut app));
}

#[test]
fn escape_in_an_idle_list_hides_the_window() {
    let (mut list, mut app) = three();
    assert!(list.handle_key_down("escape", Modifiers::none(), &mut app));
    assert_eq!(asked(&mut app), vec![Op::Emit { event: ClipboardListEvent::RequestHide }]);
}

#[test]
fn escape_used_in_place_is_not_used_again() {
    let (mut list, mut app) = three();
    list.handle_right_click(0, false, &mut app);
    assert!(list.handle_escape(&mut app));
    assert!(list.escape_consumed_inline);
    assert!(list.handle_escape_from_root(&mut app));
    assert!(!list.escape_consumed_inline);
    assert!(!list.handle_escape_from_root(&mut app));
}

#[test]
fn notes_are_edited_in_place() {
    let (mut list, mut app) = three();
    list.items[1].note = "old".to_string();
    list.select_index_without_scroll(1, &mut app);
    list.handle_key_down("f2", Modifiers::none(), &mut app);
    assert_eq!(list.editing_note_id, 2);
    assert_eq!(list.inline_locked_item_id(), Some(2));
    assert_eq!(asked(&mut app), vec![Op::FillNoteEditor { text: Some("old".to_string()) }]);
    list.commit_note_edit("new".to_string(), &mut app);
    assert_eq!(list.editing_note_id, -1);
    assert_eq!(
        asked(&mut app),
        vec![
            Op::UpdateNote { id: 2, text: "new".to_string() },
            Op::SyncList,
            Op::FocusList,
        ]
    );
}

#[test]
fn notes_are_edited_from_nothing_in_the_menu() {
    let (mut list, mut app) = three();
    list.items[1].note = "old".to_string();
    list.handle_right_click(1, false, &mut app);
    asked(&mut app);
    list.handle_menu_action("edit_note", "default".to_string(), &mut app);
    assert_eq!(list.editing_note_id, 2);
    assert_eq!(asked(&mut app), vec![Op::FillNoteEditor { text: None }]);
    list.commit_note_edit("new".to_string(), &mut app);
    asked(&mut app);
    list.hovered_index = Some(1);
    list.handle_toolbar_action("edit_note", "default".to_string(), &mut app);
    assert_eq!(list.editing_note_id, 2);
    assert_eq!(
        asked(&mut app).last(),
        Some(&Op::FillNoteEditor { text: Some("old".to_string()) })
    );
}

#[test]
fn hotkeys_are_recorded_with_the_item_s_format() {
    let (mut list, mut app) = three();
    list.items[1].custom_hotkey_format = "plain".to_string();
    list.start_hotkey_recording(2, "default".to_string(), &mut app);
    assert_eq!(list.recording_hotkey_id, 2);
    assert_eq!(list.recording_hotkey_format, "plain");
    assert_eq!(
        asked(&mut app),
        vec![Op::StartItemHotkeyRecording { id: 2, format: "plain".to_string() }]
    );
    list.update_recording_hotkey_format("rich".to_string(), &mut app);
    assert_eq!(list.recording_hotkey_format, "rich");
    asked(&mut app);
    list.confirm_hotkey_recording(&mut app);
    assert_eq!(asked(&mut app), vec![Op::CancelCustomRecording]);
    assert_eq!(list.recording_hotkey_id, -1);
    list.start_hotkey_recording(3, "default".to_string(), &mut app);
    assert_eq!(list.recording_hotkey_format, "default");
    asked(&mut app);
    app.pending_single_hotkey = true;
    list.confirm_hotkey_recording(&mut app);
    assert_eq!(asked(&mut app), vec![Op::ConfirmHotkeyRecording]);
    assert_eq!(list.recording_hotkey_id, 3);
    list.hotkey_recording_confirmed(true, &mut app);
    assert_eq!(list.recording_hotkey_id, 3);
    assert_eq!(asked(&mut app), Vec::<Op>::new());
    list.hotkey_recording_confirmed(false, &mut app);
    assert_eq!(list.recording_hotkey_id, -1);
    assert_eq!(asked(&mut app), vec![Op::CancelCustomRecording]);
    list.update_recording_hotkey_format("rich".to_string(), &mut app);
    assert_eq!(asked(&mut app), Vec::<Op>::new());
}

#[test]
fn a_right_click_keeps_a_selection_that_it_hits() {
    let (mut list, mut app) = three();
    list.toggle_index(1, &mut app);
    list.handle_right_click(1, false, &mut app);
    assert!(list.context_menu_is_batch());
    assert_eq!(list.selected_ids, vec![1, 2]);
    list.hide_context_menu();
    list.handle_right_click(2, false, &mut app);
    assert!(!list.context_menu_is_batch());
    assert_eq!(list.selected_ids, vec![3]);
    assert_eq!(list.context_menu_item().map(|item| item.id), Some(3));
    list.dismiss_context_menu();
    assert_eq!(list.context_menu_item(), None);
}

#[test]
fn the_menu_acts_on_its_item_and_closes() {
    let (mut list, mut app) = three();
    let default = || "default".to_string();
    list.handle_right_click(1, false, &mut app);
    list.handle_menu_action("paste", default(), &mut app);
    assert!(!list.context_menu_visible());
    assert_eq!(
        asked(&mut app),
        vec![Op::PasteItem { id: 2, plain: false }, Op::SyncListForUsage]
    );
    for (name, ops) in [
        ("copy", vec![Op::CopyItem { id: 2, plain: false }, Op::SyncListForUsage]),
        ("paste_plain", vec![Op::PasteItemPlain { id: 2 }, Op::SyncListForUsage]),
        ("paste_as_rgb", vec![Op::PasteAsRgb { id: 2 }, Op::SyncListForUsage]),
        ("paste_as_hex", vec![Op::PasteAsHex { id: 2 }, Op::SyncListForUsage]),
        ("paste_image_path", vec![Op::PasteImagePath { id: 2 }, Op::SyncListForUsage]),
        ("paste_file_path", vec![Op::PasteFilePath { id: 2 }, Op::SyncListForUsage]),
        ("paste_image_bitmap", vec![Op::PasteImageAsBitmap { id: 2 }, Op::SyncListForUsage]),
        ("paste_ocr", vec![Op::PasteOcr { id: 2 }, Op::SyncListForUsage]),
        ("open_image", vec![Op::OpenOriginalImage { id: 2 }]),
        ("open_location", vec![Op::OpenItemLocation { id: 2 }]),
        ("qr_detect", vec![Op::QrDetect { id: 2 }, Op::SyncList]),
        ("edit", vec![Op::Emit { event: ClipboardListEvent::OpenEdit(2) }]),
        ("upload_to_transfer", vec![Op::UploadToTransfer { id: 2 }, Op::SyncList]),
        (
            "remove_hotkey",
            vec![Op::ClearItemHotkey { id: 2 }, Op::UnregisterItemHotkey { id: 2 }, Op::SyncList],
        ),
        (
            "toggle_favorite",
            vec![Op::ToggleFavorite { id: 2 }, Op::SyncList, Op::ReselectToggled { id: 2 }],
        ),
        ("no_such_action", vec![]),
    ] {
        list.handle_right_click(1, false, &mut app);
        list.handle_menu_action(name, default(), &mut app);
        assert_eq!(asked(&mut app), ops, "{name}");
        assert!(!list.context_menu_visible());
    }
    list.handle_right_click(1, false, &mut app);
    list.handle_menu_action("delete", default(), &mut app);
    assert_eq!(list.confirm_dialog_state(), Some(&ConfirmDialogState::Single { id: 2 }));
}

#[test]
fn the_menu_of_several_items_acts_on_all() {
    let (mut list, mut app) = three();
    list.select_all_visible(&mut app);
    list.handle_menu_action("batch_paste", String::new(), &mut app);
    assert_eq!(app.requests[0].op, Op::BatchPaste { plain: false });
    assert_eq!(app.requests[0].ids, vec![1, 2, 3]);
    app.requests.clear();
    list.handle_menu_action("merge_selected", String::new(), &mut app);
    assert_eq!(asked(&mut app), vec![Op::MergeSelected, Op::SyncList, Op::RevealMerged]);
    list.handle_menu_action("batch_favorite", String::new(), &mut app);
    assert_eq!(asked(&mut app), vec![Op::BatchToggleFavorite, Op::SyncList, Op::SelectTop]);
    list.handle_menu_action("batch_delete", String::new(), &mut app);
    assert_eq!(list.confirm_dialog_state(), Some(&ConfirmDialogState::Batch { count: 3 }));
}

#[test]
fn the_menu_of_the_station_pins_and_deletes() {
    let mut entry = station_entry(8, "abc", "/tmp/a.txt");
    entry.tags.push(TagInfo { uid: "pinned-uid".to_string(), ..tag(1, "Pinned") });
    let items = vec![entry, station_entry(9, "def", "")];
    let mut app = app_of(items.clone());
    let mut list = list_of(items, &app);
    list.handle_right_click(0, false, &mut app);
    list.handle_menu_action("toggle_transfer_pin", String::new(), &mut app);
    assert_eq!(
        asked(&mut app),
        vec![Op::SetTransferPinned { hash: "abc".to_string(), pinned: false }, Op::SyncList]
    );
    list.handle_right_click(1, false, &mut app);
    list.handle_menu_action("toggle_transfer_pin", String::new(), &mut app);
    assert_eq!(
        asked(&mut app),
        vec![Op::SetTransferPinned { hash: "def".to_string(), pinned: true }, Op::SyncList]
    );
    list.handle_right_click(1, false, &mut app);
    list.handle_menu_action("delete_transfer", String::new(), &mut app);
    assert_eq!(
        list.confirm_dialog_state(),
        Some(&ConfirmDialogState::Transfer { hash: "def".to_string() })
    );
}

#[test]
fn the_toolbar_selects_the_hovered_card_first() {
    let (mut list, mut app) = three();
    list.select_all_visible(&mut app);
    list.handle_hover(2, Modifiers::none(), &mut app);
    list.handle_toolbar_action("copy", String::new(), &mut app);
    assert_eq!(list.selected_ids, vec![3]);
    assert_eq!(
        asked(&mut app),
        vec![Op::CopyItem { id: 3, plain: false }, Op::SyncListForUsage]
    );
    list.handle_toolbar_action("paste_image_bitmap", String::new(), &mut app);
    assert_eq!(asked(&mut app), Vec::<Op>::new());
    list.handle_toolbar_action("show_tag_picker", String::new(), &mut app);
    assert!(list.tag_picker_visible());
    assert_eq!(list.tag_picker_item_id, 3);
    assert_eq!(list.tag_picker_anchor, TagPickerAnchor::Pointer);
    list.hide_tag_picker();
    list.handle_leave();
    list.handle_toolbar_action("copy", String::new(), &mut app);
    assert_eq!(asked(&mut app), Vec::<Op>::new());
}

#[test]
fn the_picker_shows_who_carries_a_tag() {
    let (mut list, mut app) = three();
    app.tags = vec![tag(10, "Work"), tag(11, "Home")];
    list.items[0].tags = vec![tag(10, "Work")];
    list.select_all_visible(&mut app);
    list.action_show_tag_picker(&app);
    assert!(list.tag_picker_is_batch());
    let states: Vec<TagState> = list.tag_picker_rows(&app).into_iter().map(|row| row.1).collect();
    assert_eq!(states, vec![TagState::Partial, TagState::Absent]);
    list.toggle_picker_tag(11, TagState::Absent, &mut app);
    assert_eq!(app.requests[0].op, Op::BatchAddTag { tag_id: 11 });
    assert_eq!(app.requests[0].ids, vec![1, 2, 3]);
    app.requests.clear();
    list.toggle_picker_tag(10, TagState::Partial, &mut app);
    assert_eq!(app.requests[0].op, Op::BatchRemoveTag { tag_id: 10 });
    app.requests.clear();
    list.clear_picker_tags(&mut app);
    assert!(!list.tag_picker_visible());
    assert_eq!(asked(&mut app), vec![Op::ClearTagsForItems, Op::SyncList]);
}

#[test]
fn the_picker_of_one_item_toggles_and_creates() {
    let (mut list, mut app) = three();
    app.tags = vec![tag(10, "Work")];
    list.items[0].tags = vec![tag(10, "Work")];
    list.action_show_tag_picker(&app);
    assert_eq!(list.tag_picker_anchor, TagPickerAnchor::Row { index: 0 });
    let states: Vec<TagState> = list.tag_picker_rows(&app).into_iter().map(|row| row.1).collect();
    assert_eq!(states, vec![TagState::All]);
    list.toggle_picker_tag(10, TagState::All, &mut app);
    assert_eq!(
        asked(&mut app),
        vec![Op::ToggleItemTag { item_id: 1, tag_id: 10 }, Op::SyncList]
    );
    list.create_tag_from_picker("New".to_string(), &mut app);
    assert_eq!(app.requests[0].op, Op::CreateTag { name: "New".to_string() });
    app.requests.clear();
    list.clear_picker_tags(&mut app);
    assert_eq!(asked(&mut app), vec![Op::ClearItemTags { id: 1 }, Op::SyncList]);
}

/// A placeholder, then an item, which is selected.
fn placeholder_first() -> (ClipboardListView<i64>, AppState) {
    let items = vec![pending(1), item(10, 20)];
    let mut app = app_of(vec![item(10, 20)]);
    let mut list = list_of(items, &app);
    list.select_index_without_scroll(1, &mut app);
    (list, app)
}

#[test]
fn a_double_click_pastes_no_placeholder() {
    let (mut list, mut app) = placeholder_first();
    list.handle_card_click(1, shift(), &mut app);
    assert!(list.modified_double_click_candidate.is_some());
    list.handle_double_click(0, Modifiers::none(), &mut app);
    assert_eq!(asked(&mut app), Vec::<Op>::new());
    assert!(list.modified_double_click_candidate.is_none());
    assert_eq!(list.selected_ids, vec![10]);
    list.handle_double_click(0, control(), &mut app);
    list.handle_double_click(0, shift(), &mut app);
    assert_eq!(asked(&mut app), Vec::<Op>::new());
    list.handle_double_click(1, Modifiers::none(), &mut app);
    assert_eq!(
        asked(&mut app),
        vec![Op::PasteItem { id: 10, plain: false }, Op::SyncListForUsage]
    );
}

#[test]
fn the_toolbar_leaves_placeholders_alone() {
    let (mut list, mut app) = placeholder_first();
    list.hovered_index = Some(0);
    for action in ["edit_note", "set_hotkey", "paste", "copy", "delete", "show_tag_picker"] {
        list.handle_toolbar_action(action, "default".to_string(), &mut app);
        assert_eq!(asked(&mut app), Vec::<Op>::new());
        assert_eq!(list.selected_ids, vec![10]);
        assert_eq!(list.selected_index, Some(1));
        assert!(!list.has_any_panel_or_editing());
    }
    list.hovered_index = Some(1);
    list.handle_toolbar_action("edit_note", "default".to_string(), &mut app);
    assert_eq!(list.editing_note_id, 10);
}
