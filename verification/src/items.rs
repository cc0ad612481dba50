//! Lists of clipboard items: looking rows up and telling placeholders apart.

use std::collections::HashSet;

use vstd::prelude::*;
use vstd::std_specs::hash::*;

use crate::filters::{lemma_filter_member, lemma_filter_start, lemma_filter_step};
use crate::ids::lemma_push_to_set;
use crate::text::str_eq;
use crate::types::{ClipboardItem, ContentType, FileData, PendingImageView};

verus! {

broadcast use group_hash_axioms;

/// A row of a list, as a number.
pub open spec fn row(index: Option<usize>) -> Option<int> {
    match index {
        Some(i) => Some(i as int),
        None => None,
    }
}

/// Whether an item stands for an image that is still being stored.
pub open spec fn is_pending(item: ClipboardItem) -> bool {
    item.meta_type@ == "pending-image"@
}

/// Whether an item stands for an image that is still being stored. Entries of
/// the transfer station have negative ids too, so the id does not tell.
pub fn item_is_pending(item: &ClipboardItem) -> (r: bool)
    ensures
        r == is_pending(*item),
{
    str_eq(item.meta_type.as_str(), "pending-image")
}

/// Whether an item is an entry of the transfer station.
pub open spec fn is_transfer_entry(item: ClipboardItem) -> bool {
    item.id < 0 && item.meta_type@ == "transfer"@
}

/// Whether an item is an entry of the transfer station.
pub fn item_is_transfer_entry(item: &ClipboardItem) -> (r: bool)
    ensures
        r == is_transfer_entry(*item),
{
    item.id < 0 && str_eq(item.meta_type.as_str(), "transfer")
}

/// The ids of a list of items.
pub open spec fn ids_of(items: Seq<ClipboardItem>) -> Seq<i64> {
    items.map_values(|item: ClipboardItem| item.id)
}

/// Holds of every item.
pub open spec fn any_item() -> spec_fn(ClipboardItem) -> bool {
    |item: ClipboardItem| true
}

/// Holds of the items that can be selected.
pub open spec fn selectable() -> spec_fn(ClipboardItem) -> bool {
    |item: ClipboardItem| !is_pending(item)
}

/// Holds of the items with this id.
pub open spec fn with_id(id: i64) -> spec_fn(ClipboardItem) -> bool {
    |item: ClipboardItem| item.id == id
}

/// Holds of the items with this id that can be selected.
pub open spec fn selectable_with_id(id: i64) -> spec_fn(ClipboardItem) -> bool {
    |item: ClipboardItem| item.id == id && !is_pending(item)
}

/// Whether row `i` is the first one that holds such an item.
pub open spec fn is_first_row(
    items: Seq<ClipboardItem>,
    wanted: spec_fn(ClipboardItem) -> bool,
    i: int,
) -> bool {
    &&& 0 <= i < items.len()
    &&& wanted(items[i])
    &&& forall|j: int| 0 <= j < i ==> !wanted(#[trigger] items[j])
}

/// The first row that holds such an item.
pub open spec fn first_row(
    items: Seq<ClipboardItem>,
    wanted: spec_fn(ClipboardItem) -> bool,
) -> Option<int> {
    if exists|i: int| is_first_row(items, wanted, i) {
        Some(choose|i: int| is_first_row(items, wanted, i))
    } else {
        None
    }
}

/// `first_row` finds a first row where there is one.
pub proof fn lemma_first_row(
    items: Seq<ClipboardItem>,
    wanted: spec_fn(ClipboardItem) -> bool,
    i: int,
)
    requires
        is_first_row(items, wanted, i),
    ensures
        first_row(items, wanted) == Some(i),
{
    let k = choose|k: int| is_first_row(items, wanted, k);
    assert(is_first_row(items, wanted, k));
    if k < i {
        assert(!wanted(items[k]));
    }
    if i < k {
        assert(!wanted(items[i]));
    }
}

/// `first_row` finds nothing only where no row holds such an item.
pub proof fn lemma_some_row(
    items: Seq<ClipboardItem>,
    wanted: spec_fn(ClipboardItem) -> bool,
    i: int,
)
    requires
        0 <= i < items.len(),
        wanted(items[i]),
    ensures
        first_row(items, wanted) is Some,
        first_row(items, wanted).unwrap() <= i,
    decreases i,
{
    if is_first_row(items, wanted, i) {
        lemma_first_row(items, wanted, i);
    } else {
        let j = choose|j: int| 0 <= j < i && wanted(#[trigger] items[j]);
        lemma_some_row(items, wanted, j);
    }
}

/// Where an item is found, the row lies in the list and holds such an item.
pub proof fn lemma_found_row(items: Seq<ClipboardItem>, wanted: spec_fn(ClipboardItem) -> bool)
    ensures
        first_row(items, wanted) matches Some(i) ==> is_first_row(items, wanted, i),
{
}

/// The row of the item with an id, if there is one.
pub open spec fn row_of(items: Seq<ClipboardItem>, id: Option<i64>) -> Option<int> {
    match id {
        Some(id) => first_row(items, with_id(id)),
        None => None,
    }
}

/// The id of the item in a row, if there is one.
pub open spec fn id_at(items: Seq<ClipboardItem>, index: Option<int>) -> Option<i64> {
    match index {
        Some(i) => if 0 <= i < items.len() {
            Some(items[i].id)
        } else {
            None
        },
        None => None,
    }
}

/// The id of the item in a row, if there is one.
pub fn item_id_at(items: &[ClipboardItem], index: Option<usize>) -> (r: Option<i64>)
    ensures
        r == id_at(items@, row(index)),
{
    match index {
        Some(i) => {
            if i < items.len() {
                Some(items[i].id)
            } else {
                None
            }
        },
        None => None,
    }
}

/// The first row of the item with an id.
pub fn position_of_item(items: &[ClipboardItem], id: i64) -> (r: Option<usize>)
    ensures
        row(r) == first_row(items@, with_id(id)),
        r matches Some(i) ==> i < items@.len() && items@[i as int].id == id,
{
    let mut i: usize = 0;
    while i < items.len()
        invariant
            0 <= i <= items.len(),
            forall|j: int| 0 <= j < i ==> (#[trigger] items@[j]).id != id,
        decreases items.len() - i,
    {
        if items[i].id == id {
            proof {
                lemma_first_row(items@, with_id(id), i as int);
            }
            return Some(i);
        }
        i += 1;
    }
    None
}

/// The first row of the item with an id, where an id is given.
pub fn item_index(items: &[ClipboardItem], id: Option<i64>) -> (r: Option<usize>)
    ensures
        row(r) == row_of(items@, id),
        r matches Some(i) ==> i < items@.len() && Some(items@[i as int].id) == id,
{
    match id {
        Some(id) => position_of_item(items, id),
        None => None,
    }
}

/// The first row that can be selected.
pub fn first_selectable_row(items: &[ClipboardItem]) -> (r: Option<usize>)
    ensures
        row(r) == first_row(items@, selectable()),
        r matches Some(i) ==> i < items@.len() && !is_pending(items@[i as int]),
{
    let mut i: usize = 0;
    while i < items.len()
        invariant
            0 <= i <= items.len(),
            forall|j: int| 0 <= j < i ==> is_pending(#[trigger] items@[j]),
        decreases items.len() - i,
    {
        if !item_is_pending(&items[i]) {
            proof {
                lemma_first_row(items@, selectable(), i as int);
            }
            return Some(i);
        }
        i += 1;
    }
    None
}

/// The first row of the item with an id that can be selected.
pub fn selectable_row_of(items: &[ClipboardItem], id: i64) -> (r: Option<usize>)
    ensures
        row(r) == first_row(items@, selectable_with_id(id)),
        r matches Some(i) ==> i < items@.len() && items@[i as int].id == id && !is_pending(
            items@[i as int],
        ),
{
    let mut i: usize = 0;
    while i < items.len()
        invariant
            0 <= i <= items.len(),
            forall|j: int| 0 <= j < i ==> !(selectable_with_id(id))(#[trigger] items@[j]),
        decreases items.len() - i,
    {
        if items[i].id == id && !item_is_pending(&items[i]) {
            proof {
                lemma_first_row(items@, selectable_with_id(id), i as int);
            }
            return Some(i);
        }
        i += 1;
    }
    None
}

/// Whether row `i` holds the latest of such items; of several that were used
/// at the same time, the last.
pub open spec fn is_latest_row(
    items: Seq<ClipboardItem>,
    wanted: spec_fn(ClipboardItem) -> bool,
    i: int,
) -> bool {
    &&& 0 <= i < items.len()
    &&& wanted(items[i])
    &&& forall|j: int|
        0 <= j < items.len() && wanted(#[trigger] items[j]) ==> {
            &&& items[j].updated_at <= items[i].updated_at
            &&& j > i ==> items[j].updated_at < items[i].updated_at
        }
}

/// The row of the latest of such items; the first row where there is none.
pub open spec fn latest_row(
    items: Seq<ClipboardItem>,
    wanted: spec_fn(ClipboardItem) -> bool,
) -> int {
    if exists|i: int| is_latest_row(items, wanted, i) {
        choose|i: int| is_latest_row(items, wanted, i)
    } else {
        0
    }
}

/// `latest_row` finds a latest row where there is one.
pub proof fn lemma_latest_row(
    items: Seq<ClipboardItem>,
    wanted: spec_fn(ClipboardItem) -> bool,
    i: int,
)
    requires
        is_latest_row(items, wanted, i),
    ensures
        latest_row(items, wanted) == i,
{
    let k = choose|k: int| is_latest_row(items, wanted, k);
    assert(is_latest_row(items, wanted, k));
    assert(wanted(items[k]) && wanted(items[i]));
}

/// The row of the item that was used last; the first row where no item counts.
/// Placeholders count where `count_pending` says so.
pub fn latest_item_row(items: &[ClipboardItem], count_pending: bool) -> (r: usize)
    ensures
        r == latest_row(items@, if count_pending { any_item() } else { selectable() }),
        items@.len() > 0 ==> r < items@.len(),
{
    let ghost wanted = if count_pending {
        any_item()
    } else {
        selectable()
    };
    let mut best: Option<usize> = None;
    let mut i: usize = 0;
    while i < items.len()
        invariant
            0 <= i <= items.len(),
            wanted == (if count_pending {
                any_item()
            } else {
                selectable()
            }),
            match best {
                Some(b) => {
                    &&& b < i
                    &&& wanted(items@[b as int])
                    &&& forall|j: int|
                        0 <= j < i && wanted(#[trigger] items@[j]) ==> {
                            &&& items@[j].updated_at <= items@[b as int].updated_at
                            &&& j > b ==> items@[j].updated_at < items@[b as int].updated_at
                        }
                },
                None => forall|j: int| 0 <= j < i ==> !wanted(#[trigger] items@[j]),
            },
        decreases items.len() - i,
    {
        if count_pending || !item_is_pending(&items[i]) {
            let better = match best {
                Some(b) => items[b].updated_at <= items[i].updated_at,
                None => true,
            };
            if better {
                best = Some(i);
            }
        }
        i += 1;
    }
    match best {
        Some(b) => {
            proof {
                lemma_latest_row(items@, wanted, b as int);
            }
            b
        },
        None => 0,
    }
}

/// The ids of the items that can be selected, in list order.
pub open spec fn selectable_ids(items: Seq<ClipboardItem>) -> Seq<i64> {
    ids_of(items.filter(selectable()))
}

/// Collects the ids of the items that can be selected, in list order.
pub fn collect_selectable_ids(items: &[ClipboardItem]) -> (r: Vec<i64>)
    ensures
        r@ == selectable_ids(items@),
{
    let mut r: Vec<i64> = Vec::new();
    let mut i: usize = 0;
    proof {
        lemma_filter_start(items@, selectable());
    }
    while i < items.len()
        invariant
            0 <= i <= items.len(),
            r@ =~= selectable_ids(items@.take(i as int)),
        decreases items.len() - i,
    {
        let ghost kept = items@.take(i as int).filter(selectable());
        proof {
            lemma_filter_step(items@, selectable(), i as int);
        }
        if !item_is_pending(&items[i]) {
            r.push(items[i].id);
            assert(ids_of(kept.push(items@[i as int])) =~= ids_of(kept).push(items@[i as int].id));
        }
        i += 1;
    }
    assert(items@.take(i as int) =~= items@);
    r
}

/// An id is selectable exactly if some item that can be selected has it.
pub proof fn lemma_selectable_ids(items: Seq<ClipboardItem>, id: i64)
    ensures
        selectable_ids(items).contains(id) <==> exists|i: int|
            0 <= i < items.len() && (#[trigger] items[i]).id == id && !is_pending(items[i]),
{
    broadcast use Seq::lemma_filter_pred, Seq::lemma_filter_contains;

    let kept = items.filter(selectable());
    if selectable_ids(items).contains(id) {
        let k = choose|k: int| 0 <= k < kept.len() && selectable_ids(items)[k] == id;
        assert(kept[k].id == id && !is_pending(kept[k]));
        lemma_filter_member(items, selectable(), k);
    }
    if exists|i: int| 0 <= i < items.len() && (#[trigger] items[i]).id == id && !is_pending(items[i])
    {
        let i = choose|i: int|
            0 <= i < items.len() && (#[trigger] items[i]).id == id && !is_pending(items[i]);
        assert(kept.contains(items[i]));
        let k = choose|k: int| 0 <= k < kept.len() && kept[k] == items[i];
        assert(selectable_ids(items)[k] == id);
    }
}

/// Holds of the items that the list shows outside the transfer station.
pub open spec fn outside_station() -> spec_fn(ClipboardItem) -> bool {
    |item: ClipboardItem| item.content_type != ContentType::File || !item.file_data.transfer
}

/// Whether the list can be brought up to date after a use of items by moving
/// rows alone: its rows are exactly the items outside the transfer station,
/// none of them twice, every row has its size, and every used item is a row.
pub open spec fn incremental_sync_is_safe(
    local_items: Seq<ClipboardItem>,
    item_sizes_len: nat,
    app_items: Seq<ClipboardItem>,
    touched: Seq<i64>,
    transfer_filter_active: bool,
    force_full_reload: bool,
) -> bool {
    let local_ids = ids_of(local_items);
    &&& !transfer_filter_active
    &&& !force_full_reload
    &&& touched.len() > 0
    &&& item_sizes_len == local_items.len()
    &&& local_ids.no_duplicates()
    &&& local_ids.to_set() == ids_of(app_items.filter(outside_station())).to_set()
    &&& forall|i: int| 0 <= i < touched.len() ==> local_ids.contains(#[trigger] touched[i])
}

/// Collects the ids of the items outside the transfer station.
fn ids_outside_station(items: &[ClipboardItem]) -> (r: HashSet<i64>)
    ensures
        r@ == ids_of(items@.filter(outside_station())).to_set(),
        r@.finite(),
{
    let mut r: HashSet<i64> = HashSet::new();
    let mut i: usize = 0;
    proof {
        lemma_filter_start(items@, outside_station());
    }
    assert(r@ =~= ids_of(items@.take(0).filter(outside_station())).to_set());
    while i < items.len()
        invariant
            0 <= i <= items.len(),
            r@ == ids_of(items@.take(i as int).filter(outside_station())).to_set(),
            r@.finite(),
        decreases items.len() - i,
    {
        let ghost kept = items@.take(i as int).filter(outside_station());
        proof {
            lemma_filter_step(items@, outside_station(), i as int);
        }
        if items[i].content_type != ContentType::File || !items[i].file_data.is_transfer() {
            r.insert(items[i].id);
            proof {
                let more = kept.push(items@[i as int]);
                assert(ids_of(more) =~= ids_of(kept).push(items@[i as int].id));
                lemma_push_to_set(ids_of(kept), items@[i as int].id);
            }
        }
        i += 1;
    }
    assert(items@.take(i as int) =~= items@);
    r
}

/// Decides whether the list can be brought up to date after a use of items by
/// moving rows alone.
pub fn can_incrementally_sync_usage(
    local_items: &[ClipboardItem],
    item_sizes_len: usize,
    app_items: &[ClipboardItem],
    touched: &[i64],
    transfer_filter_active: bool,
    force_full_reload: bool,
) -> (r: bool)
    ensures
        r == incremental_sync_is_safe(
            local_items@,
            item_sizes_len as nat,
            app_items@,
            touched@,
            transfer_filter_active,
            force_full_reload,
        ),
{
    if transfer_filter_active || force_full_reload || touched.len() == 0 || item_sizes_len
        != local_items.len() {
        return false;
    }
    let app_ids = ids_outside_station(app_items);
    let mut local_ids: HashSet<i64> = HashSet::new();
    let ghost all = ids_of(local_items@);
    let mut i: usize = 0;
    assert(local_ids@ =~= all.take(0).to_set());
    while i < local_items.len()
        invariant
            0 <= i <= local_items.len(),
            all == ids_of(local_items@),
            local_ids@ == all.take(i as int).to_set(),
            local_ids@.finite(),
            local_ids@.len() == i,
            all.take(i as int).no_duplicates(),
            app_ids@ == ids_of(app_items@.filter(outside_station())).to_set(),
            app_ids@.finite(),
            forall|j: int| 0 <= j < i ==> app_ids@.contains(#[trigger] all[j]),
        decreases local_items.len() - i,
    {
        let id = local_items[i].id;
        assert(all[i as int] == id);
        assert(all.take(i + 1) =~= all.take(i as int).push(id));
        proof {
            lemma_push_to_set(all.take(i as int), id);
        }
        if !local_ids.insert(id) {
            proof {
                let before = all.take(i as int);
                let k = choose|k: int| 0 <= k < before.len() && before[k] == id;
                assert(all[k] == all[i as int]);
            }
            return false;
        }
        if !app_ids.contains(&id) {
            assert(all.to_set().contains(all[i as int]));
            return false;
        }
        i += 1;
    }
    assert(all.take(i as int) =~= all);
    assert(local_ids@ == all.to_set());
    if app_ids.len() != local_items.len() {
        return false;
    }
    proof {
        assert forall|x: i64| all.to_set().contains(x) implies app_ids@.contains(x) by {
            let k = choose|k: int| 0 <= k < all.len() && all[k] == x;
        }
        vstd::set_lib::lemma_subset_equality(all.to_set(), app_ids@);
    }
    let mut k: usize = 0;
    while k < touched.len()
        invariant
            0 <= k <= touched.len(),
            all == ids_of(local_items@),
            local_ids@ == all.to_set(),
            forall|j: int| 0 <= j < k ==> all.contains(#[trigger] touched@[j]),
        decreases touched.len() - k,
    {
        if !local_ids.contains(&touched[k]) {
            assert(!all.contains(touched@[k as int]));
            return false;
        }
        k += 1;
    }
    true
}

/// The placeholder for a pending image: an image item that is not stored, with
/// an id below those of stored items.
pub open spec fn stands_for(item: ClipboardItem, p: PendingImageView, index: int) -> bool {
    &&& item.id == -2 - index
    &&& is_pending(item)
    &&& item.content_type == ContentType::Image
    &&& item.content_hash == p.raw_hash
    &&& item.image_width == p.width
    &&& item.image_height == p.height
    &&& item.source_app_name == p.source_name
    &&& item.source_app_icon == p.source_icon
    &&& item.created_at == p.copied_at
    &&& item.updated_at == p.copied_at
    &&& item.image_path@ == Seq::<char>::empty()
    &&& item.full_text@ == Seq::<char>::empty()
    &&& item.rich_data@ == Seq::<char>::empty()
    &&& item.note@ == Seq::<char>::empty()
    &&& item.custom_hotkey@ == Seq::<char>::empty()
    &&& item.custom_hotkey_format@ == Seq::<char>::empty()
    &&& item.existence_observed_at@ == Seq::<char>::empty()
    &&& item.file_data.files@.len() == 0
    &&& item.file_data.remote_hash@ == Seq::<char>::empty()
    &&& !item.file_data.transfer
    &&& item.tags@.len() == 0
    &&& !item.is_favorite
    &&& item.size == 0
}

/// Makes the placeholder for a pending image, so that it is shown with the same
/// card as a stored image.
pub fn synthesize_pending_item(p: &PendingImageView, index: usize) -> (r: ClipboardItem)
    requires
        index <= i64::MAX - 2,
    ensures
        stands_for(r, *p, index as int),
{
    ClipboardItem {
        id: -2 - (index as i64),
        content_type: ContentType::Image,
        full_text: String::new(),
        content_hash: p.raw_hash,
        created_at: p.copied_at,
        updated_at: p.copied_at,
        image_path: String::new(),
        image_width: p.width,
        image_height: p.height,
        rich_data: String::new(),
        file_data: FileData::empty(),
        is_favorite: false,
        note: String::new(),
        source_app_name: p.source_name.clone(),
        source_app_icon: p.source_icon.clone(),
        size: 0,
        tags: Vec::new(),
        meta_type: "pending-image".to_owned(),
        custom_hotkey: String::new(),
        custom_hotkey_format: String::new(),
        existence_observed_at: String::new(),
    }
}

/// Whether `combined` holds the placeholders of the pending images, followed by
/// the real items.
pub open spec fn is_combined(
    combined: Seq<ClipboardItem>,
    pending: Seq<PendingImageView>,
    real_items: Seq<ClipboardItem>,
) -> bool {
    &&& combined.len() == pending.len() + real_items.len()
    &&& forall|i: int|
        0 <= i < pending.len() ==> stands_for(#[trigger] combined[i], pending[i], i)
    &&& combined.skip(pending.len() as int) == real_items
}

/// Puts the placeholders of the pending images before the real items.
pub fn combine_with_pending(
    pending: &[PendingImageView],
    real_items: Vec<ClipboardItem>,
) -> (r: Vec<ClipboardItem>)
    requires
        pending@.len() <= i64::MAX - 2,
    ensures
        is_combined(r@, pending@, real_items@),
{
    if pending.len() == 0 {
        assert(real_items@.skip(0) =~= real_items@);
        return real_items;
    }
    let mut combined: Vec<ClipboardItem> = Vec::new();
    let mut i: usize = 0;
    while i < pending.len()
        invariant
            0 <= i <= pending.len(),
            pending@.len() <= i64::MAX - 2,
            combined@.len() == i,
            forall|j: int| 0 <= j < i ==> stands_for(#[trigger] combined@[j], pending@[j], j),
        decreases pending.len() - i,
    {
        combined.push(synthesize_pending_item(&pending[i], i));
        i += 1;
    }
    let mut rest = real_items;
    combined.append(&mut rest);
    assert(combined@.skip(pending@.len() as int) =~= real_items@);
    combined
}

} // verus!
