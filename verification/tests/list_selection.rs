use clippi_ui::app_state::{AppState, Filters, Op, ScrollStrategy, Settings};
use clippi_ui::click::Modifiers;
use clippi_ui::clipboard_list::ClipboardListView;
use clippi_ui::theme::ClippiTheme;
use clippi_ui::types::{ClipboardItem, ContentType, FileData};

fn theme() -> ClippiTheme {
    ClippiTheme {
        bg: 0x191a1bff,
        accent: 0x3366ffff,
        accent_overlay: 0x3366ff33,
        text_1: 0xffffffff,
        text_2: 0xccccccff,
        text_3: 0x999999ff,
        surface: 0x222324ff,
        panel_surface: 0x252627ff,
        panel_sep_line: 0x303132ff,
        btn_hover: 0x2a2b2cff,
        divider: 0x333435ff,
        toast_bg: 0x202122ff,
    }
}

fn item(id: i64, updated_at: i64) -> ClipboardItem {
    ClipboardItem {
        id,
        content_type: ContentType::PlainText,
        full_text: format!("item {id}"),
        content_hash: 7,
        created_at: updated_at,
        updated_at,
        image_path: String::new(),
        image_width: 0,
        image_height: 0,
        rich_data: String::new(),
        file_data: FileData::empty(),
        is_favorite: false,
        note: String::new(),
        source_app_name: String::new(),
        source_app_icon: String::new(),
        size: 0,
        tags: Vec::new(),
        meta_type: String::new(),
        custom_hotkey: String::new(),
        custom_hotkey_format: String::new(),
        existence_observed_at: String::new(),
    }
}

fn app_of(items: Vec<ClipboardItem>) -> AppState {
    AppState {
        items,
        selected_ids: Vec::new(),
        pending_images: Vec::new(),
        tags: Vec::new(),
        settings: Settings {
            card_height_mode: "auto".to_string(),
            paste_click_mode: "double_click".to_string(),
            auto_scroll_to_top: false,
            search_favorites_first: false,
            sort_by_created: false,
            copy_as_plain_text: false,
            type_filter_config: Vec::new(),
            pinned_tag_ids: Vec::new(),
        },
        filters: Filters {
            active_types: Vec::new(),
            tag_ids: Vec::new(),
            keyword_set: false,
            favorites_only: false,
        },
        transfer_filter_active: false,
        pending_single_hotkey: false,
        pending_transfer_uploads: Vec::new(),
        pinned_status_uid: "pinned-uid".to_string(),
        can_merge_selected: false,
        usage_touched: Vec::new(),
        usage_force_reload: false,
        requests: Vec::new(),
    }
}

/// The size of a card, which the tests take from the item's id.
fn size_of(item: &ClipboardItem, _mode: &String) -> i64 {
    item.id * 10
}

fn list_of(items: Vec<ClipboardItem>, app: &AppState) -> ClipboardListView<i64> {
    ClipboardListView::new(items, app, theme(), 0, &size_of)
}

/// Three items, the first of them selected.
fn three() -> (ClipboardListView<i64>, AppState) {
    let items = vec![item(1, 30), item(2, 20), item(3, 10)];
    let mut app = app_of(items.clone());
    let mut list = list_of(items, &app);
    list.select_index_without_scroll(0, &mut app);
    (list, app)
}

/// Takes out the work that was asked for.
fn asked(app: &mut AppState) -> Vec<Op> {
    let ops = app.requests.iter().map(|request| request.op.clone()).collect();
    app.requests.clear();
    ops
}

fn control() -> Modifiers {
    Modifiers { control: true, ..Default::default() }
}

fn shift() -> Modifiers {
    Modifiers { shift: true, ..Default::default() }
}

fn pending(id: i64) -> ClipboardItem {
    let mut placeholder = item(-id, 99);
    placeholder.meta_type = "pending-image".to_string();
    placeholder
}

#[test]
fn selecting_a_row_makes_it_the_only_selection() {
    let (mut list, mut app) = three();
    list.select_index(2, ScrollStrategy::Bottom, &mut app);
    assert_eq!(list.selected_ids, vec![3]);
    assert_eq!(list.selected_index, Some(2));
    assert_eq!(list.anchor_index, Some(2));
    assert_eq!(app.selected_ids, vec![3]);
    assert_eq!(
        asked(&mut app),
        vec![Op::ScrollTo { index: 2, strategy: ScrollStrategy::Bottom }]
    );
}

#[test]
fn placeholders_and_missing_rows_cannot_be_selected() {
    let items = vec![pending(5), item(1, 30)];
    let mut app = app_of(items.clone());
    let mut list = list_of(items, &app);
    list.select_index_without_scroll(1, &mut app);
    list.select_index_without_scroll(0, &mut app);
    list.select_index_without_scroll(9, &mut app);
    list.toggle_index(0, &mut app);
    assert_eq!(list.selected_ids, vec![1]);
    assert_eq!(app.selected_ids, vec![1]);
}

#[test]
fn toggling_adds_and_removes_but_keeps_the_last() {
    let (mut list, mut app) = three();
    list.toggle_index(2, &mut app);
    assert_eq!(list.selected_ids, vec![1, 3]);
    assert_eq!(list.selected_count, 2);
    assert_eq!(list.selected_index, Some(2));
    list.toggle_index(2, &mut app);
    assert_eq!(list.selected_ids, vec![1]);
    assert_eq!(list.selected_index, Some(0));
    assert_eq!(list.anchor_index, Some(0));
    list.toggle_index(0, &mut app);
    assert_eq!(list.selected_ids, vec![1]);
    assert_eq!(app.selected_ids, vec![1]);
}

#[test]
fn ranges_run_from_the_anchor_in_both_directions() {
    let (mut list, mut app) = three();
    list.range_select_to_index(2, &mut app);
    assert_eq!(list.selected_ids, vec![1, 2, 3]);
    assert_eq!(list.anchor_index, Some(0));
    list.select_index_without_scroll(2, &mut app);
    list.range_select_to_index(0, &mut app);
    assert_eq!(list.selected_ids, vec![3, 2, 1]);
    assert_eq!(list.selected_index, Some(0));
    assert_eq!(list.anchor_index, Some(2));
    assert_eq!(app.selected_ids, vec![3, 2, 1]);
}

#[test]
fn select_all_leaves_placeholders_out() {
    let items = vec![pending(5), item(1, 30), item(2, 20)];
    let mut app = app_of(items.clone());
    let mut list = list_of(items, &app);
    list.select_all_visible(&mut app);
    assert_eq!(list.selected_ids, vec![1, 2]);
    assert_eq!(list.selected_index, Some(1));
    list.select_all_visible(&mut app);
    assert_eq!(list.selected_ids, vec![1, 2]);
    assert_eq!(app.selected_ids, vec![1, 2]);
}

#[test]
fn steps_skip_placeholders_and_stop_at_the_ends() {
    let items = vec![item(1, 30), pending(5), item(2, 20)];
    let mut app = app_of(items.clone());
    let mut list = list_of(items, &app);
    list.select_index_without_scroll(0, &mut app);
    list.select_next(ScrollStrategy::Bottom, &mut app);
    assert_eq!(list.selected_ids, vec![2]);
    list.select_next(ScrollStrategy::Bottom, &mut app);
    assert_eq!(list.selected_ids, vec![2]);
    list.select_previous(ScrollStrategy::Top, &mut app);
    assert_eq!(list.selected_ids, vec![1]);
    list.select_previous(ScrollStrategy::Top, &mut app);
    assert_eq!(list.selected_ids, vec![1]);
}

#[test]
fn a_selection_of_several_reduces_to_its_first() {
    let (mut list, mut app) = three();
    assert!(!list.reduce_to_single_selection(&mut app));
    list.select_index_without_scroll(1, &mut app);
    list.toggle_index(0, &mut app);
    assert!(list.reduce_to_single_selection(&mut app));
    assert_eq!(list.selected_ids, vec![2]);
    assert_eq!(list.selected_index, Some(1));
    assert_eq!(list.single_selected_id(), Some(2));
}

#[test]
fn a_new_list_knows_its_rows_and_sizes() {
    let items = vec![item(4, 1), item(6, 2)];
    let app = app_of(items.clone());
    let list = list_of(items, &app);
    assert_eq!(list.item_sizes, vec![40, 60]);
    assert_eq!(list.row_count(), 3);
    assert_eq!(list.card_height_mode, "auto");
}

#[test]
fn other_rows_start_on_the_item_that_was_active() {
    let (mut list, mut app) = three();
    list.select_index_without_scroll(1, &mut app);
    list.set_items(vec![item(9, 50), item(2, 20)], &mut app, &size_of);
    assert_eq!(list.selected_ids, vec![2]);
    assert_eq!(list.selected_index, Some(1));
    assert_eq!(asked(&mut app), vec![Op::ScrollTo { index: 1, strategy: ScrollStrategy::Top }]);
    list.set_items(vec![item(9, 50)], &mut app, &size_of);
    assert_eq!(list.selected_ids, vec![9]);
    list.set_items(Vec::new(), &mut app, &size_of);
    assert_eq!(list.selected_ids, Vec::<i64>::new());
    assert_eq!(list.selected_index, None);
}

#[test]
fn other_rows_start_on_the_latest_item_where_asked_to() {
    let (mut list, mut app) = three();
    app.settings.auto_scroll_to_top = true;
    list.set_items(vec![item(1, 10), item(2, 90), item(3, 50)], &mut app, &size_of);
    assert_eq!(list.selected_ids, vec![2]);
    assert_eq!(asked(&mut app), vec![Op::ScrollTo { index: 1, strategy: ScrollStrategy::Top }]);
}

#[test]
fn rows_that_change_keep_a_living_selection() {
    let (mut list, mut app) = three();
    list.select_all_visible(&mut app);
    list.handle_hover(2, Modifiers::none(), &mut app);
    list.sync_items_from_state(vec![item(3, 10), item(8, 5), item(1, 30)], &mut app, &size_of);
    assert_eq!(list.selected_ids, vec![1, 3]);
    assert_eq!(list.selected_index, Some(2));
    assert_eq!(list.hovered_index, Some(0));
    assert_eq!(app.selected_ids, vec![1, 3]);
    assert_eq!(list.item_sizes, vec![30, 80, 10]);
}

#[test]
fn rows_that_lose_the_selection_fall_back_to_the_same_place() {
    let (mut list, mut app) = three();
    list.select_index_without_scroll(1, &mut app);
    list.sync_items_from_state(vec![item(7, 1), item(8, 1), item(9, 1)], &mut app, &size_of);
    assert_eq!(list.selected_ids, vec![8]);
    list.select_index_without_scroll(2, &mut app);
    list.sync_items_from_state(vec![pending(4), item(5, 1)], &mut app, &size_of);
    assert_eq!(list.selected_ids, vec![5]);
}

#[test]
fn a_use_moves_rows_with_their_sizes() {
    let (mut list, mut app) = three();
    list.select_index_without_scroll(2, &mut app);
    app.items[2].updated_at = 100;
    app.usage_touched = vec![3];
    let visible = app.items.clone();
    list.sync_items_from_state_for_usage(visible, &mut app, &size_of);
    let order: Vec<i64> = list.items.iter().map(|item| item.id).collect();
    assert_eq!(order, vec![3, 1, 2]);
    assert_eq!(list.item_sizes, vec![30, 10, 20]);
    assert_eq!(list.selected_index, Some(0));
    assert_eq!(list.selected_ids, vec![3]);
    assert!(app.usage_touched.is_empty());
}

#[test]
fn a_use_that_cannot_be_moved_reloads_the_rows() {
    let (mut list, mut app) = three();
    app.usage_touched = vec![3];
    app.usage_force_reload = true;
    list.sync_items_from_state_for_usage(vec![item(2, 20), item(1, 30)], &mut app, &size_of);
    let order: Vec<i64> = list.items.iter().map(|item| item.id).collect();
    assert_eq!(order, vec![2, 1]);
    assert_eq!(list.selected_index, Some(1));
    assert!(!app.usage_force_reload);
}

#[test]
fn a_hidden_window_remembers_the_active_item() {
    let (mut list, mut app) = three();
    list.select_index_without_scroll(1, &mut app);
    list.release_items_for_hide(&mut app);
    assert!(list.items.is_empty());
    assert!(list.item_sizes.is_empty());
    assert_eq!(list.last_selected_id, Some(2));
    assert_eq!(asked(&mut app), vec![Op::ReleaseImages]);
    let items = app.items.clone();
    list.set_items(items, &mut app, &size_of);
    assert_eq!(list.selected_ids, vec![2]);
}

#[test]
fn the_remembered_item_survives_empty_rows() {
    let (mut list, mut app) = three();
    list.select_index_without_scroll(1, &mut app);
    list.release_items_for_hide(&mut app);
    list.set_items(Vec::new(), &mut app, &size_of);
    assert_eq!(list.selected_index, None);
    assert_eq!(list.last_selected_id, Some(2));
    let items = app.items.clone();
    list.set_items(items, &mut app, &size_of);
    assert_eq!(list.selected_ids, vec![2]);
    assert_eq!(list.selected_index, Some(1));
}

#[test]
fn favorites_first_brings_the_toggled_item_up() {
    let (mut list, mut app) = three();
    list.reselect_toggled_item_if_favorites_first(3, &mut app);
    assert_eq!(list.selected_ids, vec![1]);
    app.settings.search_favorites_first = true;
    app.filters.keyword_set = true;
    list.reselect_toggled_item_if_favorites_first(3, &mut app);
    assert_eq!(list.selected_ids, vec![3]);
    list.select_and_scroll_to_top_if_favorites_first(&mut app);
    assert_eq!(list.selected_ids, vec![1]);
    list.reselect_toggled_item_if_favorites_first(42, &mut app);
    assert_eq!(list.selected_ids, vec![1]);
}

#[test]
fn a_merged_item_is_brought_up_where_it_is_a_row() {
    let (mut list, mut app) = three();
    list.scroll_to_item_if_visible(3, &mut app);
    assert_eq!(list.selected_ids, vec![3]);
    list.scroll_to_item_if_visible(77, &mut app);
    assert_eq!(list.selected_ids, vec![3]);
}

#[test]
fn other_settings_are_taken_over() {
    let (mut list, mut app) = three();
    app.settings.card_height_mode = "compact".to_string();
    list.item_sizes.clear();
    list.refresh_settings_from_state(false, &mut app, &size_of);
    assert_eq!(list.card_height_mode, "compact");
    assert_eq!(list.item_sizes, vec![10, 20, 30]);
}

#[test]
fn hovering_selects_a_single_row_only() {
    let (mut list, mut app) = three();
    assert!(list.handle_hover(1, Modifiers::none(), &mut app));
    assert_eq!(list.selected_ids, vec![2]);
    list.handle_hover(2, control(), &mut app);
    assert_eq!(list.hovered_index, Some(2));
    assert_eq!(list.selected_ids, vec![2]);
    list.handle_hover(0, shift(), &mut app);
    assert_eq!(list.selected_ids, vec![2]);
    list.select_all_visible(&mut app);
    list.handle_hover(2, Modifiers::none(), &mut app);
    assert_eq!(list.selected_ids, vec![1, 2, 3]);
    list.handle_leave();
    assert_eq!(list.hovered_index, None);
}

#[test]
fn hovering_does_nothing_while_a_note_is_edited() {
    let (mut list, mut app) = three();
    list.start_note_edit(2, Some("old".to_string()), &mut app);
    assert_eq!(list.selected_ids, vec![2]);
    assert!(!list.handle_hover(0, Modifiers::none(), &mut app));
    assert_eq!(list.hovered_index, Some(1));
    assert_eq!(list.selected_ids, vec![2]);
}

#[test]
fn cards_show_their_place_in_the_selection() {
    let (mut list, mut app) = three();
    list.toggle_index(2, &mut app);
    let view = list.card_view(2, &app).unwrap();
    assert!(view.selected);
    assert_eq!(view.selection_order, 2);
    assert!(!view.editing);
    let view = list.card_view(1, &app).unwrap();
    assert!(!view.selected);
    assert_eq!(view.selection_order, 0);
    assert!(list.card_view(3, &app).is_none());
}

#[test]
fn another_language_is_noticed_once() {
    let (mut list, _app) = three();
    assert!(!list.refresh_language(0));
    assert!(list.refresh_language(4));
    assert!(!list.refresh_language(4));
}
