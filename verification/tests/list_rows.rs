use clippi_ui::click::CardModifier::{
    AdditiveCombo, Other, Primary, Shift, ShiftCombo, Unmodified,
};
use clippi_ui::click::{resolve_card_click_action, CardClickAction, CardModifier, PasteClickMode};
use clippi_ui::items::{
    can_incrementally_sync_usage, collect_selectable_ids, combine_with_pending, item_id_at,
    item_index, item_is_pending, latest_item_row, synthesize_pending_item,
};
use clippi_ui::rows::{compute_sizes, join_rows, refresh_usage, split_rows};
use clippi_ui::types::{ClipboardItem, ContentType, FileData, PendingImageView};
use clippi_ui::usage_order::reorder_usage_pairs;

/// The time that the tests take for the present, in seconds.
const NOW: i64 = 1_000_000;

fn dispatch(
    mode: PasteClickMode,
    selected: bool,
    count: usize,
    modifier: CardModifier,
    is_image: bool,
) -> CardClickAction {
    resolve_card_click_action(mode, selected, count, modifier, is_image)
}

fn paste_arm(action: CardClickAction) -> bool {
    matches!(
        action,
        CardClickAction::PasteDefault | CardClickAction::PastePlain | CardClickAction::PasteBitmap
    )
}

fn test_item(id: i64, updated_secs: i64, favorite: bool) -> ClipboardItem {
    let ts = NOW - updated_secs;
    ClipboardItem {
        id,
        content_type: ContentType::PlainText,
        full_text: format!("item {id}"),
        content_hash: 0x100 + id as u64,
        created_at: ts,
        updated_at: ts,
        image_path: String::new(),
        image_width: 0,
        image_height: 0,
        rich_data: String::new(),
        file_data: FileData::empty(),
        is_favorite: favorite,
        note: String::new(),
        source_app_name: String::new(),
        source_app_icon: String::new(),
        size: 0,
        tags: Vec::new(),
        meta_type: String::new(),
        custom_hotkey: String::new(),
        custom_hotkey_format: String::new(),
        existence_observed_at: String::new(),
    }
}

/// The size of a card that is as wide as it is high.
fn height(px: f32) -> (f32, f32) {
    (px, px)
}

#[test]
fn item_is_pending_distinguishes_pending_placeholders_from_transfer_items() {
    let mut transfer = test_item(1, 0, false);
    transfer.id = -1;
    transfer.meta_type = "transfer".to_string();
    assert!(!item_is_pending(&transfer));

    let mut pending = test_item(2, 0, false);
    pending.id = -2;
    pending.meta_type = "pending-image".to_string();
    assert!(item_is_pending(&pending));

    let regular = test_item(3, 0, false);
    assert!(!item_is_pending(&regular));
}

#[test]
fn usage_reorder_moves_items_together_with_their_sizes() {
    let mut pairs = vec![
        (test_item(1, 100, false), height(100.0)),
        (test_item(2, 50, false), height(50.0)),
        (test_item(3, 10, false), height(10.0)),
    ];
    pairs[0].0.updated_at = NOW;
    reorder_usage_pairs(&mut pairs, false, false);

    let ids: Vec<i64> = pairs.iter().map(|(item, _)| item.id).collect();
    let sizes: Vec<f32> = pairs.iter().map(|(_, size)| size.0).collect();
    assert_eq!(ids, vec![1, 3, 2]);
    assert_eq!(
        sizes,
        vec![100.0, 10.0, 50.0]
    );
}

#[test]
fn usage_reorder_keeps_positions_for_created_at_order() {
    let mut pairs = vec![
        (test_item(1, 100, false), height(100.0)),
        (test_item(2, 50, false), height(50.0)),
        (test_item(3, 10, false), height(10.0)),
    ];
    pairs[0].0.updated_at = NOW;
    reorder_usage_pairs(&mut pairs, true, false);

    let ids: Vec<i64> = pairs.iter().map(|(item, _)| item.id).collect();
    assert_eq!(ids, vec![1, 2, 3]);
}

#[test]
fn usage_reorder_moves_only_within_favorites_first_groups() {
    let mut pairs = vec![
        (test_item(1, 100, true), height(100.0)),
        (test_item(2, 50, true), height(50.0)),
        (test_item(3, 10, false), height(10.0)),
        (test_item(4, 200, false), height(200.0)),
    ];
    pairs[0].0.updated_at = NOW;
    reorder_usage_pairs(&mut pairs, false, true);

    let ids: Vec<i64> = pairs.iter().map(|(item, _)| item.id).collect();
    assert_eq!(ids, vec![1, 2, 3, 4]);
    let sizes: Vec<f32> = pairs.iter().map(|(_, size)| size.0).collect();
    assert_eq!(
        sizes,
        vec![
            100.0,
            50.0,
            10.0,
            200.0
        ]
    );
}

#[test]
fn usage_reorder_restores_interaction_indices_by_item_id() {
    let mut pairs = vec![
        (test_item(1, 100, false), height(100.0)),
        (test_item(2, 50, false), height(50.0)),
        (test_item(3, 10, false), height(10.0)),
    ];
    let items_before: Vec<ClipboardItem> = pairs.iter().map(|(item, _)| item.clone()).collect();
    let selected_id = item_id_at(&items_before, Some(1));
    let anchor_id = item_id_at(&items_before, Some(0));
    let hovered_id = item_id_at(&items_before, Some(2));

    pairs[0].0.updated_at = NOW;
    reorder_usage_pairs(&mut pairs, false, false);
    let items_after: Vec<ClipboardItem> = pairs.into_iter().map(|(item, _)| item).collect();

    assert_eq!(item_index(&items_after, selected_id), Some(2));
    assert_eq!(item_index(&items_after, anchor_id), Some(0));
    assert_eq!(item_index(&items_after, hovered_id), Some(1));
}

#[test]
fn usage_incremental_sync_requires_exact_ids_and_size_cache() {
    let local = vec![test_item(1, 20, false), test_item(2, 10, false)];
    assert!(can_incrementally_sync_usage(
        &local,
        2,
        &local,
        &[1],
        false,
        false
    ));

    let different_ids = vec![test_item(1, 20, false), test_item(3, 10, false)];
    assert!(!can_incrementally_sync_usage(
        &local,
        2,
        &different_ids,
        &[1],
        false,
        false
    ));
    assert!(!can_incrementally_sync_usage(
        &local,
        1,
        &local,
        &[1],
        false,
        false
    ));
}

#[test]
fn usage_incremental_sync_rejects_forced_or_unmatched_updates() {
    let items = vec![test_item(1, 20, false), test_item(2, 10, false)];
    assert!(!can_incrementally_sync_usage(
        &items,
        2,
        &items,
        &[1],
        false,
        true
    ));
    assert!(!can_incrementally_sync_usage(
        &items,
        2,
        &items,
        &[99],
        false,
        false
    ));
}

fn pending_item(id: i64) -> ClipboardItem {
    let mut item = test_item(id, 0, false);
    item.id = -id;
    item.meta_type = "pending-image".to_string();
    item
}

#[test]
fn select_all_collects_non_pending_ids_and_excludes_pending_placeholders() {
    let items = vec![
        pending_item(1),
        test_item(10, 30, false),
        test_item(20, 20, true),
        pending_item(2),
        test_item(30, 10, false),
    ];
    let ids = collect_selectable_ids(&items);
    assert_eq!(ids, vec![10, 20, 30]);
}

#[test]
fn select_all_empty_list_returns_empty_without_side_effect() {
    assert!(collect_selectable_ids(&[]).is_empty());
}

#[test]
fn select_all_all_pending_returns_empty() {
    let items = vec![pending_item(1), pending_item(2), pending_item(3)];
    assert!(collect_selectable_ids(&items).is_empty());
}

#[test]
fn select_all_is_idempotent() {
    let items = vec![
        pending_item(1),
        test_item(10, 30, false),
        test_item(20, 20, false),
        test_item(30, 10, true),
    ];
    let first = collect_selectable_ids(&items);
    let second = collect_selectable_ids(&items);
    assert_eq!(first, second);
    assert_eq!(first, vec![10, 20, 30]);
}


#[test]
fn pending_and_transfer_exemptions_before_dispatch() {
    let mut transfer = test_item(9, 0, false);
    transfer.id = -9;
    transfer.meta_type = "transfer".to_string();
    let items = vec![
        pending_item(1),
        test_item(10, 0, false),
        transfer,
        test_item(20, 0, false),
    ];
    let selectable = collect_selectable_ids(&items);
    assert!(
        !selectable.contains(&-1),
        "pending placeholder must be excluded"
    );
    assert!(
        selectable.contains(&-9),
        "transfer entry is selectable, not pending"
    );
    assert!(selectable.contains(&10));
    assert!(selectable.contains(&20));
    assert!(item_is_pending(&items[0]));
    assert!(!item_is_pending(&items[2]));
}

#[test]
fn pending_placeholder_never_pastes_and_transfer_reaches_dispatch() {
    let mut transfer = test_item(9, 0, false);
    transfer.id = -9;
    transfer.meta_type = "transfer".to_string();
    let items = vec![pending_item(1), test_item(10, 20, false), transfer];
    let pending_flags: Vec<bool> = items.iter().map(item_is_pending).collect();
    assert_eq!(pending_flags, vec![true, false, false]);
    assert!(!collect_selectable_ids(&items).contains(&-1));
    assert!(collect_selectable_ids(&items).contains(&-9));
    assert!(item_is_pending(&items[0]));
    assert!(!item_is_pending(&items[2]));
    let dbl = PasteClickMode::DoubleClick;
    for &selected in &[true, false] {
        for &count in &[1usize, 2, 3] {
            for modifier in [Unmodified, Primary, Shift, AdditiveCombo, ShiftCombo, Other] {
                assert!(!paste_arm(dispatch(dbl, selected, count, modifier, false)));
            }
        }
    }
}

fn pending_view(raw_hash: u64, copied_at: i64) -> PendingImageView {
    PendingImageView {
        raw_hash,
        width: 640,
        height: 480,
        source_name: "Paint".to_string(),
        source_icon: "paint.png".to_string(),
        copied_at,
    }
}

fn ids(items: &[ClipboardItem]) -> Vec<i64> {
    items.iter().map(|item| item.id).collect()
}

#[test]
fn placeholders_get_ids_below_every_item() {
    let item = synthesize_pending_item(&pending_view(77, 5), 0);
    assert_eq!(item.id, -2);
    assert_eq!(item.content_type, ContentType::Image);
    assert_eq!(item.content_hash, 77);
    assert_eq!(item.image_width, 640);
    assert_eq!(item.image_height, 480);
    assert_eq!(item.source_app_name, "Paint");
    assert_eq!(item.meta_type, "pending-image");
    assert!(item_is_pending(&item));
    assert_eq!(synthesize_pending_item(&pending_view(78, 5), 3).id, -5);
}

#[test]
fn placeholders_come_before_the_items() {
    let pending = vec![pending_view(1, 5), pending_view(2, 6)];
    let real = vec![test_item(10, 1, false), test_item(20, 2, false)];
    let all = combine_with_pending(&pending, real);
    assert_eq!(ids(&all), vec![-2, -3, 10, 20]);
    assert_eq!(ids(&combine_with_pending(&[], vec![test_item(10, 1, false)])), vec![10]);
}

#[test]
fn latest_row_is_the_one_used_last() {
    let items = vec![test_item(1, 100, false), test_item(2, 5, false), test_item(3, 50, false)];
    assert_eq!(latest_item_row(&items, true), 1);
    assert_eq!(latest_item_row(&items, false), 1);
    assert_eq!(latest_item_row(&[], true), 0);
    let with_placeholder = vec![pending_item(9), test_item(1, 100, false)];
    assert_eq!(latest_item_row(&with_placeholder, false), 1);
    assert_eq!(latest_item_row(&with_placeholder, true), 0);
}

#[test]
fn rows_that_are_no_rows_have_no_id() {
    let items = vec![test_item(1, 0, false)];
    assert_eq!(item_id_at(&items, Some(0)), Some(1));
    assert_eq!(item_id_at(&items, Some(1)), None);
    assert_eq!(item_id_at(&items, None), None);
    assert_eq!(item_index(&items, Some(2)), None);
    assert_eq!(item_index(&items, None), None);
}

#[test]
fn usage_is_refreshed_for_touched_items_only() {
    let mut local = vec![test_item(1, 100, false), test_item(2, 50, false)];
    let mut stored = vec![test_item(1, 100, false), test_item(2, 50, false)];
    stored[0].updated_at = NOW;
    stored[1].updated_at = NOW;
    refresh_usage(&mut local, &stored, &[1]);
    assert_eq!(local[0].updated_at, NOW);
    assert_eq!(local[1].updated_at, NOW - 50);
}

#[test]
fn sizes_are_estimated_row_by_row() {
    let items = vec![test_item(7, 0, false), test_item(9, 0, false)];
    let sizes = compute_sizes(&items, &"auto".to_string(), &|item: &ClipboardItem, _mode: &String| {
        item.id as f32
    });
    assert_eq!(sizes, vec![7.0, 9.0]);
    let rows = join_rows(items, sizes);
    assert_eq!(rows[1].0.id, 9);
    let (items, sizes) = split_rows(rows);
    assert_eq!(ids(&items), vec![7, 9]);
    assert_eq!(sizes, vec![7.0, 9.0]);
}

#[test]
fn equally_old_items_keep_their_order() {
    let mut pairs = vec![
        (test_item(3, 10, true), 3),
        (test_item(4, 10, true), 4),
        (test_item(1, 10, false), 1),
        (test_item(2, 10, false), 2),
        (test_item(5, 1, false), 5),
    ];
    reorder_usage_pairs(&mut pairs, false, true);
    let order: Vec<i64> = pairs.iter().map(|(item, _)| item.id).collect();
    assert_eq!(order, vec![3, 4, 5, 1, 2]);
    let sizes: Vec<i32> = pairs.iter().map(|(_, size)| *size).collect();
    assert_eq!(sizes, vec![3, 4, 5, 1, 2]);
}

#[test]
fn station_entries_are_never_synced_in_place() {
    let mut entry = test_item(1, 0, false);
    entry.content_type = ContentType::File;
    entry.file_data.transfer = true;
    let local = vec![entry];
    assert!(!can_incrementally_sync_usage(&local, 1, &local, &[1], false, false));
    let plain = vec![test_item(1, 0, false)];
    assert!(!can_incrementally_sync_usage(&plain, 1, &plain, &[1], true, false));
    assert!(!can_incrementally_sync_usage(&plain, 1, &plain, &[], false, false));
}
