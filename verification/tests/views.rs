use clippi_ui::app_state::{AppState, Filters, Op, Settings, TypeFilterEntry};
use clippi_ui::click::Modifiers;
use clippi_ui::clipboard_list::ClipboardListView;
use clippi_ui::filter_bar::{
    filter_type_display, FilterBar, FilterType, I18nKey,
};
use clippi_ui::search_box::SearchBox;
use clippi_ui::sidebar::{ordered_sidebar_tags, Sidebar};
use clippi_ui::tag_color::parse_tag_color;
use clippi_ui::text::{eq_ignore_ascii_case, fill};
use clippi_ui::theme::ClippiTheme;
use clippi_ui::type_filter_config::TypeFilterConfigPanel;
use clippi_ui::types::{ClipboardItem, ContentType, FileData, TagInfo};
use std::collections::HashMap;

fn theme() -> ClippiTheme {
    ClippiTheme {
        bg: 0x191a1bff,
        accent: 0x3366ffff,
        accent_overlay: 0x3366ff33,
        text_1: 0xffffffff,
        text_2: 0xccccccff,
        text_3: 0x999999ff,
        surface: 0x222324ff,
        panel_surface: 0x252627ff,
        panel_sep_line: 0x303132ff,
        btn_hover: 0x2a2b2cff,
        divider: 0x333435ff,
        toast_bg: 0x202122ff,
    }
}

fn item(id: i64, updated_at: i64) -> ClipboardItem {
    ClipboardItem {
        id,
        content_type: ContentType::PlainText,
        full_text: format!("item {id}"),
        content_hash: 7,
        created_at: updated_at,
        updated_at,
        image_path: String::new(),
        image_width: 0,
        image_height: 0,
        rich_data: String::new(),
        file_data: FileData::empty(),
        is_favorite: false,
        note: String::new(),
        source_app_name: String::new(),
        source_app_icon: String::new(),
        size: 0,
        tags: Vec::new(),
        meta_type: String::new(),
        custom_hotkey: String::new(),
        custom_hotkey_format: String::new(),
        existence_observed_at: String::new(),
    }
}

fn app_of(items: Vec<ClipboardItem>) -> AppState {
    AppState {
        items,
        selected_ids: Vec::new(),
        pending_images: Vec::new(),
        tags: Vec::new(),
        settings: Settings {
            card_height_mode: "auto".to_string(),
            paste_click_mode: "double_click".to_string(),
            auto_scroll_to_top: false,
            search_favorites_first: false,
            sort_by_created: false,
            copy_as_plain_text: false,
            type_filter_config: Vec::new(),
            pinned_tag_ids: Vec::new(),
        },
        filters: Filters {
            active_types: Vec::new(),
            tag_ids: Vec::new(),
            keyword_set: false,
            favorites_only: false,
        },
        transfer_filter_active: false,
        pending_single_hotkey: false,
        pending_transfer_uploads: Vec::new(),
        pinned_status_uid: "pinned-uid".to_string(),
        can_merge_selected: false,
        usage_touched: Vec::new(),
        usage_force_reload: false,
        requests: Vec::new(),
    }
}

fn size_of(item: &ClipboardItem, _mode: &String) -> i64 {
    item.id * 10
}

fn asked(app: &mut AppState) -> Vec<Op> {
    let ops = app.requests.iter().map(|request| request.op.clone()).collect();
    app.requests.clear();
    ops
}

fn tag(id: i64) -> TagInfo {
    TagInfo {
        id,
        uid: format!("uid-{id}"),
        name: format!("tag {id}"),
        color: String::new(),
    }
}

fn entry(key: &str, visible: bool) -> TypeFilterEntry {
    TypeFilterEntry { key: key.to_string(), visible }
}

const MS: u64 = 1_000_000;

#[test]
fn colours_are_read_from_hex() {
    assert_eq!(parse_tag_color("#EF4444"), 0xef4444ff);
    assert_eq!(parse_tag_color("ef4444"), 0xef4444ff);
    assert_eq!(parse_tag_color("##102030"), 0x102030ff);
    assert_eq!(parse_tag_color(""), 0x7ecba3ff);
    assert_eq!(parse_tag_color("#FFF"), 0x7ecba3ff);
    assert_eq!(parse_tag_color("#zz4444"), 0x7e4444ff);
    assert_eq!(parse_tag_color("#44zz44"), 0x44cb44ff);
    assert_eq!(parse_tag_color("#4444zz"), 0x4444a3ff);
}

#[test]
fn texts_are_filled() {
    assert_eq!(fill("Version {0} is there", "2.1"), "Version 2.1 is there");
    assert_eq!(fill("{0}{0}", "x"), "xx");
    assert_eq!(fill("none", "x"), "none");
    assert_eq!(fill("{1} {0", "x"), "{1} {0");
}

#[test]
fn names_are_compared_without_ascii_case() {
    assert!(eq_ignore_ascii_case("Notepad.EXE", "notepad.exe"));
    assert!(!eq_ignore_ascii_case("notepad", "notepad.exe"));
    assert!(!eq_ignore_ascii_case("\u{c4}", "\u{e4}"));
}

#[test]
fn types_have_their_glyphs_and_labels() {
    assert_eq!(
        filter_type_display("plain_text"),
        Some(('\u{e606}', I18nKey::FilterTextLabel))
    );
    assert_eq!(filter_type_display("contact"), Some(('\u{e616}', I18nKey::FilterContactLabel)));
    assert_eq!(filter_type_display("video"), None);
    assert_eq!(FilterType::from_key("link"), Some(FilterType::Link));
    assert_eq!(FilterType::Path.def().key, "path");
}

#[test]
fn the_strip_shows_visible_known_types() {
    let mut app = app_of(Vec::new());
    app.settings.type_filter_config = vec![
        entry("image", true),
        entry("file", false),
        entry("video", true),
        entry("link", true),
    ];
    app.filters.active_types = vec!["link".to_string()];
    assert_eq!(FilterBar::visible_count(&app), 3);
    let buttons = FilterBar::buttons(&app);
    assert_eq!(buttons.len(), 2);
    assert_eq!(buttons[0].kind, FilterType::Image);
    assert!(!buttons[0].active);
    assert_eq!(buttons[1].kind, FilterType::Link);
    assert_eq!(buttons[1].index, 2);
    assert!(buttons[1].active);
    assert!(!FilterBar::has_tag_filter(&app));
    FilterBar::apply_type_filter(FilterType::Image, &mut app);
    assert_eq!(
        asked(&mut app),
        vec![Op::ToggleTypeFilter { kind: FilterType::Image }, Op::ResetList]
    );
}

#[test]
fn the_strip_opens_one_panel_at_a_time() {
    let mut bar = FilterBar::new(theme());
    bar.toggle_tag_panel();
    assert!(bar.tag_panel_open());
    bar.toggle_filter_config();
    assert!(bar.filter_config_open());
    bar.close_filter_config();
    bar.close_tag_panel();
    assert!(!bar.tag_panel_open());
    assert!(!bar.filter_config_open());
    assert_eq!(bar.palette().inactive_bg, 0xffffff0a);
    let light = ClippiTheme { bg: 0xffffffff, ..theme() };
    bar.set_theme(light);
    assert_eq!(bar.palette().inactive_bg, 0x00000008);
    assert_eq!(bar.palette().divider, 0x00000014);
}

#[test]
fn hiding_a_type_drops_its_filter() {
    let panel = TypeFilterConfigPanel::new();
    let mut app = app_of(Vec::new());
    app.settings.type_filter_config = vec![entry("image", true), entry("file", false)];
    app.filters.active_types = vec!["image".to_string(), "file".to_string()];
    panel.toggle_visible("image", &mut app);
    assert!(!app.settings.type_filter_config[0].visible);
    assert_eq!(app.filters.active_types, vec!["file".to_string()]);
    assert_eq!(asked(&mut app), vec![Op::SaveSettings, Op::ReloadItems]);
    panel.toggle_visible("file", &mut app);
    assert!(app.settings.type_filter_config[1].visible);
    assert_eq!(app.filters.active_types, vec!["file".to_string()]);
    asked(&mut app);
    panel.toggle_visible("video", &mut app);
    assert_eq!(asked(&mut app), Vec::<Op>::new());
}

#[test]
fn types_move_up_and_down() {
    let panel = TypeFilterConfigPanel::new();
    let mut app = app_of(Vec::new());
    app.settings.type_filter_config = vec![entry("image", true), entry("file", true)];
    panel.move_down(0, &mut app);
    assert_eq!(app.settings.type_filter_config[0].key, "file");
    panel.move_up(1, &mut app);
    assert_eq!(app.settings.type_filter_config[0].key, "image");
    asked(&mut app);
    panel.move_up(0, &mut app);
    panel.move_down(1, &mut app);
    assert_eq!(asked(&mut app), Vec::<Op>::new());
    assert_eq!(app.settings.type_filter_config[0].key, "image");
    let rows = panel.type_rows(&app);
    assert!(rows[0].is_first && !rows[0].is_last);
    assert!(rows[1].is_last);
    assert_eq!(rows[1].icon, '\u{e68a}');
    assert_eq!(rows[1].label, Some(I18nKey::FilterFilesLabel));
    app.settings.type_filter_config.push(entry("video", true));
    let rows = panel.type_rows(&app);
    assert_eq!(rows[2].key, "video");
    assert_eq!(rows[2].icon, '\u{e606}');
    assert_eq!(rows[2].label, None);
}

#[test]
fn pinned_tags_come_first_in_the_panel() {
    let panel = TypeFilterConfigPanel::new();
    let mut app = app_of(Vec::new());
    app.tags = vec![tag(1), tag(2), tag(3)];
    app.settings.pinned_tag_ids = vec![3, 1];
    let rows = panel.tag_rows(&app);
    let order: Vec<i64> = rows.iter().map(|row| row.tag.id).collect();
    assert_eq!(order, vec![3, 1, 2]);
    assert!(rows[0].pinned && rows[0].up_disabled && !rows[0].down_disabled);
    assert!(rows[1].pinned && !rows[1].up_disabled && rows[1].down_disabled);
    assert!(!rows[2].pinned && rows[2].up_disabled && rows[2].down_disabled);
    panel.toggle_pinned(2, &mut app);
    assert_eq!(asked(&mut app)[0], Op::TogglePinnedTag { tag_id: 2 });
    panel.move_pinned(3, 1, &mut app);
    assert_eq!(asked(&mut app)[0], Op::MovePinnedTag { tag_id: 3, delta: 1 });
}

#[test]
fn sidebar_tags_are_ordered_by_pins_filters_and_fading() {
    let tags = vec![tag(1), tag(2), tag(3), tag(4)];
    let mut fading = HashMap::new();
    fading.insert(1, 5);
    let order: Vec<i64> = ordered_sidebar_tags(&tags, &[2, 4], &[4], &fading)
        .iter()
        .map(|tag| tag.id)
        .collect();
    assert_eq!(order, vec![4, 2, 1]);
}

#[test]
fn a_tag_that_is_unchecked_fades_out() {
    let mut sidebar = Sidebar::new(&theme());
    let mut app = app_of(Vec::new());
    app.tags = vec![tag(1), tag(2)];
    app.filters.tag_ids = vec![1];
    let layout = sidebar.layout(&app, 1_000 * MS, 5);
    assert_eq!(layout.rows.len(), 1);
    assert!(layout.rows[0].checked && layout.rows[0].interactable);
    assert_eq!(layout.rows[0].initial.x, 22);
    assert_eq!(layout.rows[0].target.x, 0);
    assert_eq!(layout.rows[0].transition_key, 1 + (1 << 32));
    let layout = sidebar.layout(&app, 1_010 * MS, 5);
    assert_eq!(layout.rows[0].initial.x, 0);
    app.filters.tag_ids.clear();
    let layout = sidebar.layout(&app, 1_020 * MS, 5);
    assert_eq!(layout.rows.len(), 1);
    assert!(!layout.rows[0].interactable);
    assert_eq!(layout.rows[0].target.opacity, 0);
    let layout = sidebar.layout(&app, 60_000 * MS, 5);
    assert_eq!(layout.rows.len(), 0);
    app.filters.tag_ids = vec![1];
    let layout = sidebar.layout(&app, 60_010 * MS, 5);
    assert_eq!(layout.rows[0].transition_key, 1 + (2 << 32));
}

#[test]
fn the_sidebar_counts_what_does_not_fit() {
    let mut sidebar = Sidebar::new(&theme());
    let mut app = app_of(Vec::new());
    app.tags = vec![tag(1), tag(2), tag(3), tag(4)];
    app.settings.pinned_tag_ids = vec![1, 2, 3, 4];
    let layout = sidebar.layout(&app, MS, 3);
    assert_eq!(layout.rows.len(), 2);
    assert_eq!(layout.hidden_count, 1);
    let layout = sidebar.layout(&app, 2 * MS, 4);
    assert_eq!(layout.rows.len(), 4);
    assert_eq!(layout.hidden_count, 0);
    assert_eq!(layout.rows[0].target.bar_height, 16);
    assert_eq!(layout.rows[0].target.text_opacity, 30);
    Sidebar::click_row(2, &mut app);
    assert_eq!(asked(&mut app), vec![Op::ToggleTagFilter { tag_id: 2 }, Op::ResetList]);
    Sidebar::right_click_row(2, &mut app);
    assert_eq!(asked(&mut app)[0], Op::TogglePinnedTag { tag_id: 2 });
}

#[test]
fn only_the_last_keyword_is_searched_for() {
    let mut search = SearchBox::new(theme(), 0);
    let mut app = app_of(Vec::new());
    let first = search.text_changed();
    let second = search.text_changed();
    assert!(!search.apply_keyword(first, "ab".to_string(), &mut app));
    assert_eq!(asked(&mut app), Vec::<Op>::new());
    assert!(search.apply_keyword(second, "abc".to_string(), &mut app));
    assert_eq!(
        asked(&mut app),
        vec![Op::SetKeyword { keyword: "abc".to_string() }, Op::ResetList, Op::SelectTop]
    );
    assert!(!search.refresh_language(0));
    assert!(search.refresh_language(1));
    search.focus(&mut app);
    search.clear_text(&mut app);
    assert_eq!(asked(&mut app), vec![Op::FocusSearch, Op::ClearSearchText]);
}

#[test]
fn keys_of_the_search_box_reach_the_list() {
    let search = SearchBox::new(theme(), 0);
    let items = vec![item(1, 30), item(2, 20)];
    let mut app = app_of(items.clone());
    let mut list = ClipboardListView::new(items, &app, theme(), 0, &size_of);
    list.select_index_without_scroll(0, &mut app);
    let none = Modifiers::none();
    let control = Modifiers { control: true, ..Default::default() };
    assert!(search.handle_key_down("down", none, false, &mut list, &mut app));
    assert_eq!(list.selected_ids, vec![2]);
    asked(&mut app);
    assert!(!search.handle_key_down("left", none, false, &mut list, &mut app));
    assert!(search.handle_key_down("left", none, true, &mut list, &mut app));
    assert_eq!(asked(&mut app), vec![Op::CycleTypeFilter { delta: -1 }, Op::ResetList]);
    assert!(search.handle_key_down("enter", none, false, &mut list, &mut app));
    assert_eq!(
        asked(&mut app),
        vec![Op::FocusList, Op::PasteItem { id: 2, plain: false }, Op::SyncListForUsage]
    );
    assert!(search.handle_key_down("t", control, false, &mut list, &mut app));
    assert!(list.tag_picker_visible());
    assert!(!search.handle_key_down("t", none, false, &mut list, &mut app));
}

#[test]
fn filter_config_panel_closes_itself() {
    let mut bar = FilterBar::new(theme());
    bar.toggle_filter_config();
    assert!(bar.filter_config_open());
    TypeFilterConfigPanel::new().close(&mut bar);
    assert_eq!(bar, FilterBar::new(theme()));
}
