//! What the panels of the clipboard list and the work in place are for.

use vstd::prelude::*;

use crate::app_state::{ClipboardListEvent, Op, RequestModel};
use crate::click::Modifiers;
use crate::clipboard_list::{world, ConfirmModel, ListModel, ListWorld, TagPickerAnchor};
use crate::items::{id_at, row_of};
use crate::list_panels::on_station;
use crate::list_pointer::{is_uploading, selection_order, CardView};
use crate::list_tags::{chosen_and_tagged, chosen_and_untagged};
use crate::paste_laws::{only_dismissed, something_open, unbegun};
use crate::selection_laws::{
    adds, adds_and_selects, bare, has_selected, is_real, law_items_are_found_in_their_first_row,
    lemma_added, only_reselected,
};
use crate::types::{ClipboardItem, ContentType, FileEntry, TagState};

verus! {

/// Whether a row holds a selected item.
pub open spec fn is_selected_row<S>(list: ListModel<S>, i: int) -> bool {
    0 <= i < list.items.len() && list.selected_ids.contains(list.items[i].id)
}

/// Whether one of a row's tags has this id.
pub open spec fn row_has_tag(items: Seq<ClipboardItem>, i: int, tag_id: i64) -> bool {
    exists|k: int| 0 <= k < items[i].tags@.len() && (#[trigger] items[i].tags@[k]).id == tag_id
}

/// About the selected items, the picker shows a tag as absent where no selected
/// row has it, as on all where every selected row has it and there is one, and as
/// partial otherwise. About one item, it shows it as on all exactly if the item's
/// row has it.
pub proof fn law_picker_shows_who_carries_a_tag<S>(list: ListModel<S>, tag_id: i64)
    ensures
        list.tag_picker_is_batch ==> {
            let some_have = exists|i: int|
                is_selected_row(list, i) && #[trigger] row_has_tag(list.items, i, tag_id);
            let some_lack = exists|i: int|
                is_selected_row(list, i) && !#[trigger] row_has_tag(list.items, i, tag_id);
            &&& list.tag_state(tag_id) == TagState::Absent <==> !some_have
            &&& list.tag_state(tag_id) == TagState::Partial <==> some_have && some_lack
            &&& list.tag_state(tag_id) == TagState::All <==> some_have && !some_lack
        },
        !list.tag_picker_is_batch ==> {
            let has = row_of(list.items, Some(list.tag_picker_item_id)) matches Some(i)
                && row_has_tag(list.items, i, tag_id);
            &&& list.tag_state(tag_id) == TagState::All <==> has
            &&& list.tag_state(tag_id) == TagState::Absent <==> !has
        },
{
    let items = list.items;
    let ids = list.selected_ids;
    if exists|i: int| is_selected_row(list, i) && #[trigger] row_has_tag(items, i, tag_id) {
        let i = choose|i: int|
            is_selected_row(list, i) && #[trigger] row_has_tag(items, i, tag_id);
        assert(chosen_and_tagged(items, ids, tag_id, i));
    }
    if exists|i: int| is_selected_row(list, i) && !#[trigger] row_has_tag(items, i, tag_id) {
        let i = choose|i: int|
            is_selected_row(list, i) && !#[trigger] row_has_tag(items, i, tag_id);
        assert(chosen_and_untagged(items, ids, tag_id, i));
    }
    if exists|i: int| chosen_and_tagged(items, ids, tag_id, i) {
        let i = choose|i: int| chosen_and_tagged(items, ids, tag_id, i);
        assert(is_selected_row(list, i) && row_has_tag(items, i, tag_id));
    }
    if exists|i: int| chosen_and_untagged(items, ids, tag_id, i) {
        let i = choose|i: int| chosen_and_untagged(items, ids, tag_id, i);
        assert(is_selected_row(list, i) && !row_has_tag(items, i, tag_id));
    }
}

/// A click on a tag of the picker, as the picker shows it, adds the tag to the
/// selected items exactly if none of their rows has it, and otherwise removes it
/// from them. About one stored item it toggles the tag of that item. The list is
/// brought up to date after it, and nothing else changes.
pub proof fn law_picker_adds_what_nobody_carries<S>(w: ListWorld<S>, tag_id: i64)
    ensures
        ({
            let after = w.toggle_tag(tag_id, w.list.tag_state(tag_id));
            let nobody = forall|i: int|
                is_selected_row(w.list, i) ==> !#[trigger] row_has_tag(w.list.items, i, tag_id);
            let about = |op: Op|
                RequestModel { op, ids: w.list.selected_ids, names: Seq::empty() };
            &&& after.list == w.list
            &&& w.list.tag_picker_is_batch && nobody ==> adds(
                w.app,
                after.app,
                seq![about(Op::BatchAddTag { tag_id }), bare(Op::SyncList)],
            )
            &&& w.list.tag_picker_is_batch && !nobody ==> adds(
                w.app,
                after.app,
                seq![about(Op::BatchRemoveTag { tag_id }), bare(Op::SyncList)],
            )
            &&& !w.list.tag_picker_is_batch && w.list.tag_picker_item_id > 0 ==> adds(
                w.app,
                after.app,
                seq![
                    bare(Op::ToggleItemTag { item_id: w.list.tag_picker_item_id, tag_id }),
                    bare(Op::SyncList),
                ],
            )
            &&& !w.list.tag_picker_is_batch && w.list.tag_picker_item_id <= 0 ==> adds(
                w.app,
                after.app,
                seq![bare(Op::SyncList)],
            )
        }),
{
    lemma_added(w.app.requests);
    law_picker_shows_who_carries_a_tag(w.list, tag_id);
    if w.list.tag_picker_is_batch {
        let items = w.list.items;
        if w.list.tag_state(tag_id) == TagState::Absent {
            assert forall|i: int| is_selected_row(w.list, i) implies !#[trigger] row_has_tag(
                items,
                i,
                tag_id,
            ) by {}
        } else {
            let i = choose|i: int|
                is_selected_row(w.list, i) && #[trigger] row_has_tag(items, i, tag_id);
            assert(row_has_tag(items, i, tag_id));
        }
    }
}

/// What a click on a tag asks for follows from the state that it was shown in:
/// adding where it was absent, removing where it was on some or on all.
pub proof fn law_picker_follows_the_shown_state<S>(w: ListWorld<S>, tag_id: i64)
    requires
        w.list.tag_picker_is_batch,
    ensures
        w.toggle_tag(tag_id, TagState::Absent).app.requests.drop_last().last().op
            == (Op::BatchAddTag { tag_id }),
        w.toggle_tag(tag_id, TagState::Partial).app.requests.drop_last().last().op
            == (Op::BatchRemoveTag { tag_id }),
        w.toggle_tag(tag_id, TagState::All) == w.toggle_tag(tag_id, TagState::Partial),
{
}

/// Clearing tags is about the selected items where the picker is, and closes it;
/// about one stored item it leaves the picker open.
pub proof fn law_clearing_tags_is_about_the_picked_items<S>(w: ListWorld<S>)
    ensures
        ({
            let after = w.clear_tags();
            let id = w.list.tag_picker_item_id;
            if w.list.tag_picker_is_batch {
                &&& after.list == (ListModel {
                    tag_picker_visible: false,
                    tag_picker_item_id: -1i64,
                    ..w.list
                })
                &&& adds(
                    w.app,
                    after.app,
                    seq![
                        RequestModel {
                            op: Op::ClearTagsForItems,
                            ids: w.list.selected_ids,
                            names: Seq::empty(),
                        },
                        bare(Op::SyncList),
                    ],
                )
            } else {
                &&& after.list == w.list
                &&& id > 0 ==> adds(
                    w.app,
                    after.app,
                    seq![bare(Op::ClearItemTags { id }), bare(Op::SyncList)],
                )
                &&& id <= 0 ==> adds(w.app, after.app, seq![bare(Op::SyncList)])
            }
        }),
{
    lemma_added(w.app.requests);
}

/// Whether the tag picker is open at an anchor, about one item or about the
/// selected ones, and nothing else of the list has changed.
pub open spec fn picker_opened<S>(
    before: ListModel<S>,
    after: ListModel<S>,
    is_batch: bool,
    item_id: i64,
    anchor: TagPickerAnchor,
) -> bool {
    after == (ListModel {
        tag_picker_visible: true,
        tag_picker_is_batch: is_batch,
        tag_picker_item_id: item_id,
        tag_picker_anchor: anchor,
        ..before
    })
}

/// The tag picker opens beside the active row, unless something is open: about the
/// selected items where there are several, else about the active one.
pub proof fn law_picker_opens_beside_the_active_row<S>(w: ListWorld<S>, i: int)
    requires
        w.list.wf(),
    ensures
        ({
            let after = w.pick_tags();
            let opens = !something_open(w.list) && id_at(
                w.list.items,
                w.list.selected_index,
            ) is Some;
            &&& after.app == w.app
            &&& !opens ==> after == w
            &&& opens && w.list.selected_index == Some(i) ==> picker_opened(
                w.list,
                after.list,
                w.list.selected_ids.len() > 1,
                if w.list.selected_ids.len() > 1 {
                    -1i64
                } else {
                    w.list.items[i].id
                },
                TagPickerAnchor::Row { index: i as usize },
            )
        }),
{
}

/// From the context menu the picker opens at the menu, about what the menu is
/// about; from the toolbar at the pointer, about the selected items or about the
/// hovered one, which has to be a stored item.
pub proof fn law_picker_is_about_what_was_pointed_at<S>(w: ListWorld<S>, is_batch: bool)
    ensures
        picker_opened(
            w.list,
            w.pick_tags_from_menu().list,
            w.list.context_menu_is_batch,
            match w.list.context_menu_item {
                Some(item) => if w.list.context_menu_is_batch {
                    -1i64
                } else {
                    item.id
                },
                None => -1i64,
            },
            TagPickerAnchor::ContextMenu,
        ),
        w.pick_tags_from_menu().app == w.app,
        picker_opened(
            w.list,
            w.pick_tags_hovered(true).list,
            true,
            -1i64,
            TagPickerAnchor::Pointer,
        ),
        w.pick_tags_hovered(is_batch).app == w.app,
        match id_at(w.list.items, w.list.hovered_index) {
            Some(id) => if id > 0 {
                picker_opened(
                    w.list,
                    w.pick_tags_hovered(false).list,
                    false,
                    id,
                    TagPickerAnchor::Pointer,
                )
            } else {
                w.pick_tags_hovered(false) == w
            },
            None => w.pick_tags_hovered(false) == w,
        },
{
}

/// Toggling favorites is about all selected items where there are several, and
/// then the top is shown; else about the active item, which stays active.
pub proof fn law_favorites_are_toggled_for_the_selection<S>(w: ListWorld<S>)
    requires
        w.list.wf(),
    ensures
        ({
            let after = w.toggle_favorite_selected();
            &&& after.list == w.list
            &&& w.list.selected_ids.len() > 1 ==> adds(
                w.app,
                after.app,
                seq![bare(Op::BatchToggleFavorite), bare(Op::SyncList), bare(Op::SelectTop)],
            )
            &&& w.list.selected_ids.len() <= 1 ==> match id_at(
                w.list.items,
                w.list.selected_index,
            ) {
                Some(id) => adds(
                    w.app,
                    after.app,
                    seq![
                        bare(Op::ToggleFavorite { id }),
                        bare(Op::SyncList),
                        bare(Op::ReselectToggled { id }),
                    ],
                ),
                None => adds(w.app, after.app, seq![bare(Op::SyncList), bare(Op::SelectTop)]),
            }
        }),
{
    lemma_added(w.app.requests);
}

/// The edit page is opened for the active item, and its note is edited from what
/// it says, unless it already is: the item becomes the only selected one and is
/// locked under the pointer.
pub proof fn law_editing_is_about_the_active_item<S>(w: ListWorld<S>, i: int)
    requires
        w.list.selected_index == Some(i),
    ensures
        ({
            let items = w.list.items;
            let page = w.edit_active();
            let note = w.edit_active_note();
            let id = items[i].id;
            &&& page.list == w.list
            &&& 0 <= i < items.len() ==> adds(
                w.app,
                page.app,
                seq![bare(Op::Emit { event: ClipboardListEvent::OpenEdit(id) })],
            )
            &&& !(0 <= i < items.len()) ==> page == w && note == w
            &&& 0 <= i < items.len() && w.list.editing_note_id == id ==> note == w
            &&& 0 <= i < items.len() && w.list.editing_note_id != id ==> {
                &&& note.list.editing_note_id == id
                &&& note.list.selected_ids == seq![id]
                &&& id_at(items, note.list.hovered_index) == Some(id)
                &&& id_at(items, note.list.selected_index) == Some(id)
                &&& adds_and_selects(
                    w.app,
                    note.app,
                    seq![id],
                    seq![bare(Op::FillNoteEditor { text: Some(items[i].note) })],
                )
            }
        }),
{
    lemma_added(w.app.requests);
    if 0 <= i < w.list.items.len() {
        law_items_are_found_in_their_first_row(w.list.items, w.list.items[i].id);
    }
}

/// Editing an item's note marks the item, selects it alone, locks it under the
/// pointer, and fills the editor with the text it starts from; nothing else of the
/// list changes.
pub proof fn law_notes_are_edited_in_their_row<S>(
    w: ListWorld<S>,
    id: i64,
    text: Option<String>,
    i: int,
)
    requires
        row_of(w.list.items, Some(id)) == Some(i),
    ensures
        ({
            let after = w.edit_note(id, text);
            &&& has_selected(after.list, i)
            &&& after.list.editing_note_id == id
            &&& after.list.hovered_index == Some(i)
            &&& only_reselected(
                ListModel { editing_note_id: id, hovered_index: Some(i), ..w.list },
                after.list,
            )
            &&& adds_and_selects(
                w.app,
                after.app,
                seq![id],
                seq![bare(Op::FillNoteEditor { text })],
            )
        }),
{
    lemma_added(w.app.requests);
    law_items_are_found_in_their_first_row(w.list.items, id);
}

/// A note that is being edited is stored for its item, and the list is brought up
/// to date; in any case the editing ends, no row is hovered, and the list gets the
/// focus.
pub proof fn law_edited_notes_are_stored<S>(w: ListWorld<S>, text: String)
    ensures
        ({
            let after = w.commit_note(text);
            &&& after.list == (ListModel {
                editing_note_id: -1i64,
                hovered_index: None,
                ..w.list
            })
            &&& w.list.editing_note_id > 0 ==> adds(
                w.app,
                after.app,
                seq![
                    bare(Op::UpdateNote { id: w.list.editing_note_id, text }),
                    bare(Op::SyncList),
                    bare(Op::FocusList),
                ],
            )
            &&& w.list.editing_note_id <= 0 ==> adds(w.app, after.app, seq![bare(Op::FocusList)])
        }),
{
    lemma_added(w.app.requests);
}

/// A hotkey is recorded with the item's own format, where it has one, else with
/// the default. Everything open is closed, and the item is selected alone and
/// locked under the pointer.
pub proof fn law_hotkeys_are_recorded_with_the_items_format<S>(
    w: ListWorld<S>,
    id: i64,
    default_format: String,
    i: int,
)
    requires
        row_of(w.list.items, Some(id)) == Some(i),
    ensures
        ({
            let after = w.record_hotkey(id, default_format);
            let own = w.list.items[i].custom_hotkey_format;
            let format = if own@.len() > 0 {
                own
            } else {
                default_format
            };
            &&& has_selected(after.list, i)
            &&& after.list.recording_hotkey_id == id
            &&& after.list.recording_hotkey_format == format@
            &&& after.list.hovered_index == Some(i)
            &&& !after.list.context_menu_visible
            &&& after.list.context_menu_item is None
            &&& !after.list.tag_picker_visible
            &&& after.list.tag_picker_item_id == -1
            &&& after.list.confirm_dialog is None
            &&& after.list.items == w.list.items
            &&& after.list.editing_note_id == w.list.editing_note_id
            &&& after.list.escape_consumed_inline == w.list.escape_consumed_inline
            &&& adds_and_selects(
                w.app,
                after.app,
                seq![id],
                seq![bare(Op::StartItemHotkeyRecording { id, format })],
            )
        }),
{
    lemma_added(w.app.requests);
    law_items_are_found_in_their_first_row(w.list.items, id);
}

/// A recording ends with no item, no format and no hovered row, and the program is
/// told to cancel it. It is confirmed instead, and goes on, where a hotkey was
/// recorded.
pub proof fn law_recordings_end_without_a_trace<S>(w: ListWorld<S>, consumed: bool)
    ensures
        w.cancel_recording(consumed).list == (ListModel {
            recording_hotkey_id: -1i64,
            recording_hotkey_format: Seq::empty(),
            hovered_index: None,
            escape_consumed_inline: consumed,
            ..w.list
        }),
        adds(w.app, w.cancel_recording(consumed).app, seq![bare(Op::CancelCustomRecording)]),
        w.app.pending_single_hotkey ==> w.confirm_recording().list == w.list && adds(
            w.app,
            w.confirm_recording().app,
            seq![bare(Op::ConfirmHotkeyRecording)],
        ),
        !w.app.pending_single_hotkey ==> w.confirm_recording() == w.cancel_recording(true),
        w.list.not_recording() == (ListModel {
            recording_hotkey_id: -1i64,
            recording_hotkey_format: Seq::empty(),
            hovered_index: None,
            ..w.list
        }),
{
    lemma_added(w.app.requests);
}

/// Whether the item with an id is on the transfer station under a name.
pub open spec fn is_on_station(items: Seq<ClipboardItem>, id: i64) -> bool {
    row_of(items, Some(id)) matches Some(i) && items[i].id < 0 && items[i].meta_type@
        == "transfer"@ && items[i].file_data.remote_hash@.len() > 0
}

/// Only entries of the transfer station are selected where something is, and all
/// of it is on the station.
pub proof fn law_station_is_told_by_its_entries<S>(list: ListModel<S>)
    ensures
        list.only_station_selected() <==> list.selected_ids.len() > 0 && forall|k: int|
            0 <= k < list.selected_ids.len() ==> is_on_station(
                list.items,
                #[trigger] list.selected_ids[k],
            ),
{
    let ids = list.selected_ids;
    let items = list.items;
    let keep = on_station(items);
    assert forall|id: i64| #[trigger] is_on_station(items, id) == keep(id) by {}
    crate::filters::lemma_filter_all(ids, keep);
    if ids.filter(keep).len() == ids.len() {
        assert forall|k: int| 0 <= k < ids.len() implies is_on_station(items, #[trigger] ids[k]) by {
            ids.lemma_filter_pred(keep, k);
        }
    }
    if forall|k: int| 0 <= k < ids.len() ==> is_on_station(items, #[trigger] ids[k]) {
        assert forall|k: int| 0 <= k < ids.len() implies keep(#[trigger] ids[k]) by {
            assert(is_on_station(items, ids[k]));
        }
    }
}

/// Deleting asks first. Where everything selected is on the transfer station, it
/// asks about those entries, by their names in the order of selection; otherwise
/// about all selected items, by their number, where there are several; otherwise
/// about the active item.
pub proof fn law_deleting_asks_about_the_selection<S>(list: ListModel<S>)
    requires
        list.wf(),
    ensures
        ({
            let ids = list.selected_ids;
            let question = list.delete_question();
            let station = ids.len() > 0 && forall|k: int|
                0 <= k < ids.len() ==> is_on_station(list.items, #[trigger] ids[k]);
            let hash = |k: int|
                list.items[row_of(list.items, Some(ids[k])).unwrap()].file_data.remote_hash;
            &&& station && ids.len() == 1 ==> question == Some(
                ConfirmModel::Transfer { hash: hash(0) },
            )
            &&& station && ids.len() > 1 ==> match question {
                Some(ConfirmModel::TransferBatch { hashes }) => {
                    &&& hashes.len() == ids.len()
                    &&& forall|k: int| 0 <= k < ids.len() ==> #[trigger] hashes[k] == hash(k)
                },
                _ => false,
            }
            &&& !station && ids.len() > 1 ==> question == Some(
                ConfirmModel::Batch { count: ids.len() },
            )
            &&& !station && ids.len() <= 1 ==> question == (match id_at(
                list.items,
                list.selected_index,
            ) {
                Some(id) => Some(ConfirmModel::Single { id }),
                None => None,
            })
        }),
{
    let ids = list.selected_ids;
    let items = list.items;
    let keep = on_station(items);
    law_station_is_told_by_its_entries(list);
    crate::filters::lemma_filter_all(ids, keep);
    ids.lemma_filter_len(keep);
}

/// Asking the question puts it in front of the list and changes nothing else.
pub proof fn law_delete_question_is_shown<S>(w: ListWorld<S>)
    ensures
        w.ask_delete().app == w.app,
        match w.list.delete_question() {
            Some(question) => w.ask_delete().list == (ListModel {
                confirm_dialog: Some(question),
                ..w.list
            }),
            None => w.ask_delete() == w,
        },
{
}

/// Escape ends one thing: first the mark that it was already used, then a
/// recording, then whatever is open or edited, then a selection of several. It is
/// of use exactly if there is one of these.
pub proof fn law_escape_ends_one_thing<S>(w: ListWorld<S>, mark: bool)
    requires
        w.list.wf(),
    ensures
        ({
            let after = w.escape(mark);
            let list = w.list;
            let several = list.selected_ids.len() > 1 && row_of(
                list.items,
                Some(list.selected_ids[0]),
            ) is Some;
            &&& w.escapes() <==> list.escape_consumed_inline || something_open(list) || several
            &&& list.escape_consumed_inline ==> after == world(
                (ListModel { escape_consumed_inline: false, ..list }),
                w.app,
            )
            &&& !list.escape_consumed_inline && list.recording_hotkey_id > 0 ==> {
                &&& after.list == (ListModel {
                    recording_hotkey_id: -1i64,
                    recording_hotkey_format: Seq::empty(),
                    hovered_index: None,
                    escape_consumed_inline: mark,
                    ..list
                })
                &&& adds(w.app, after.app, seq![bare(Op::CancelCustomRecording)])
            }
            &&& !list.escape_consumed_inline && list.recording_hotkey_id <= 0 && something_open(
                list,
            ) ==> {
                &&& after.app == w.app
                &&& after.list.editing_note_id == -1
                &&& after.list.confirm_dialog is None
                &&& after.list.escape_consumed_inline == mark
                &&& only_dismissed(
                    ListModel {
                        editing_note_id: -1i64,
                        confirm_dialog: None,
                        escape_consumed_inline: mark,
                        ..list
                    },
                    after.list,
                )
            }
            &&& !list.escape_consumed_inline && !something_open(list) && several ==> {
                &&& after.list.selected_ids == seq![list.selected_ids[0]]
                &&& only_reselected(list, after.list)
                &&& after.app.selected_ids == seq![list.selected_ids[0]]
                &&& after.app.requests == w.app.requests
            }
            &&& !w.escapes() ==> after == w
        }),
{
    lemma_added(w.app.requests);
}

/// Where the list has no use for Escape, the window is asked to hide; never
/// otherwise.
pub proof fn law_escape_hides_the_window_last<S>(w: ListWorld<S>)
    ensures
        w.escapes() ==> w.escape_or_hide() == w.escape(true),
        !w.escapes() ==> w.escape_or_hide().list == w.escape(true).list && adds(
            w.escape(true).app,
            w.escape_or_hide().app,
            seq![bare(Op::Emit { event: ClipboardListEvent::RequestHide })],
        ),
{
    lemma_added(w.escape(true).app.requests);
}

/// While an item is edited in place the pointer changes nothing. Otherwise the row
/// under it is hovered, and a row that it newly enters is selected alone, unless
/// several items are selected, a modifier for selecting is held, or the row is a
/// placeholder.
pub proof fn law_pointer_selects_the_row_it_enters<S>(w: ListWorld<S>, index: int, m: Modifiers)
    ensures
        ({
            let after = w.hover(index, m);
            let locked = w.list.editing_note_id > 0 || w.list.recording_hotkey_id > 0;
            let selects = w.list.hovered_index != Some(index) && w.list.selected_ids.len() <= 1
                && !m.control && !(m.mac && m.platform) && !m.shift && is_real(
                w.list.items,
                index,
            );
            let entered = ListModel { hovered_index: Some(index), ..w.list };
            &&& locked ==> after == w
            &&& !locked ==> after.list.hovered_index == Some(index)
            &&& !locked && !selects ==> after == world(entered, w.app)
            &&& !locked && selects ==> {
                &&& has_selected(after.list, index)
                &&& only_reselected(entered, after.list)
                &&& adds_and_selects(w.app, after.app, seq![w.list.items[index].id], Seq::empty())
            }
        }),
{
    lemma_added(w.app.requests);
}

/// A right click opens the context menu for its row, unless that is a placeholder.
/// A row that is not selected is selected alone first; the menu is about all
/// selected items exactly if the row is one of several.
pub proof fn law_right_click_opens_the_menu_for_its_row<S>(w: ListWorld<S>, index: int)
    ensures
        ({
            let after = w.right_click(index);
            let item = w.list.items[index];
            let selected = w.list.selected_ids.contains(item.id);
            let opened = ListModel {
                context_menu_visible: true,
                context_menu_item: Some(item@),
                context_menu_is_batch: selected && w.list.selected_ids.len() > 1,
                ..unbegun(w.list)
            };
            &&& !is_real(w.list.items, index) ==> after == world(unbegun(w.list), w.app)
            &&& is_real(w.list.items, index) && selected ==> after == world(opened, w.app)
            &&& is_real(w.list.items, index) && !selected ==> {
                &&& has_selected(after.list, index)
                &&& only_reselected(opened, after.list)
                &&& adds_and_selects(w.app, after.app, seq![item.id], Seq::empty())
            }
        }),
{
    lemma_added(w.app.requests);
}

/// The item that is edited in place is the one whose note is edited, else the one
/// whose hotkey is recorded.
pub proof fn law_one_item_is_edited_in_place<S>(list: ListModel<S>)
    ensures
        list.editing_note_id > 0 ==> list.locked_item() == Some(list.editing_note_id),
        list.editing_note_id <= 0 && list.recording_hotkey_id > 0 ==> list.locked_item() == Some(
            list.recording_hotkey_id,
        ),
        list.editing_note_id <= 0 && list.recording_hotkey_id <= 0 ==> list.locked_item() is None,
        list.busy() <==> something_open(list),
        only_dismissed(list, list.panels_dismissed()),
        list.menu_hidden() == (ListModel {
            context_menu_visible: false,
            context_menu_item: None,
            ..list
        }),
        list.picker_hidden() == (ListModel {
            tag_picker_visible: false,
            tag_picker_item_id: -1i64,
            ..list
        }),
{
}

/// The number on a card is the item's place among the selected ones, counted from
/// one; no number where it is not selected.
pub proof fn law_cards_number_the_selection(ids: Seq<i64>, id: i64, k: int)
    ensures
        !ids.contains(id) ==> selection_order(ids, id) == 0,
        0 <= k < ids.len() && ids[k] == id && (forall|j: int|
            0 <= j < k ==> #[trigger] ids[j] != id) ==> selection_order(ids, id) == k + 1,
{
    ids.index_of_first_ensures(id);
}

/// A card shows an upload exactly if one of its files is being uploaded.
pub proof fn law_uploads_are_told_by_their_paths(files: Seq<FileEntry>, uploads: Seq<String>)
    ensures
        is_uploading(files, uploads) <==> exists|k: int, u: int|
            0 <= k < files.len() && 0 <= u < uploads.len() && (#[trigger] files[k]).path@ == (
            #[trigger] uploads[u])@,
{
    if is_uploading(files, uploads) {
        let k = choose|k: int|
            0 <= k < files.len() && crate::text::holds_name(uploads, (#[trigger] files[k]).path@);
        let u = choose|u: int|
            0 <= u < uploads.len() && (#[trigger] uploads[u])@ == files[k].path@;
        assert(files[k].path@ == uploads[u]@);
    }
    if exists|k: int, u: int|
        0 <= k < files.len() && 0 <= u < uploads.len() && (#[trigger] files[k]).path@ == (
        #[trigger] uploads[u])@ {
        let (k, u) = choose|k: int, u: int|
            0 <= k < files.len() && 0 <= u < uploads.len() && (#[trigger] files[k]).path@ == (
            #[trigger] uploads[u])@;
        assert(uploads[u]@ == files[k].path@);
        assert(crate::text::holds_name(uploads, files[k].path@));
    }
}

/// The place of the pointer counts unless an item is edited in place, or the
/// pointer enters a placeholder that it would select if it could.
pub proof fn law_pointer_counts_over_items<S>(list: ListModel<S>, index: int, m: Modifiers)
    ensures
        ({
            let counts = list.pointer_counts(index, m);
            let locked = list.editing_note_id > 0 || list.recording_hotkey_id > 0;
            &&& locked ==> !counts
            &&& !locked && !(0 <= index < list.items.len() && !is_real(list.items, index))
                ==> counts
            &&& !locked && list.hovered_index == Some(index) ==> counts
            &&& !locked && (m.shift || m.control || list.selected_ids.len() > 1) ==> counts
            &&& !locked && 0 <= index < list.items.len() && !is_real(list.items, index)
                && list.hovered_index != Some(index) && list.selected_ids.len() <= 1 && !m.shift
                && !m.control && !m.platform ==> !counts
        }),
{
}

/// Off the rows the pointer is over none of them, unless an item is edited in
/// place.
pub proof fn law_pointer_leaves_the_rows<S>(list: ListModel<S>)
    ensures
        ({
            let locked = list.editing_note_id > 0 || list.recording_hotkey_id > 0;
            &&& locked ==> list.left() == list
            &&& !locked ==> list.left() == (ListModel { hovered_index: None, ..list })
        }),
{
}

/// A right click with Control on macOS does what a click with it does; any other
/// opens the menu.
pub proof fn law_right_clicks_are_told_apart<S>(w: ListWorld<S>, index: int)
    requires
        w.list.can_select(index),
    ensures
        w.press_right(index, true) == w.toggle(index),
        w.press_right(index, true).list.context_menu_visible == w.list.context_menu_visible,
        w.press_right(index, false).list.context_menu_visible,
        w.press_right(index, false).list.context_menu_item == Some(w.list.items[index]@),
        w.press_right(index, false) == w.right_click(index),
{
}

/// A card is shown as selected where its item is, and as under the pointer where
/// the pointer is over its row. The item that is edited in place is shown as
/// both, and no other is shown as under the pointer meanwhile.
pub proof fn law_cards_show_selection_and_pointer<S>(
    list: ListModel<S>,
    index: int,
    uploads: Seq<String>,
    card: CardView,
)
    requires
        0 <= index < list.items.len(),
        list.is_card(index, uploads, card),
    ensures
        ({
            let id = list.items[index].id;
            let edits = list.editing_note_id > 0;
            let records = !edits && list.recording_hotkey_id > 0;
            let here = (edits && list.editing_note_id == id) || (records
                && list.recording_hotkey_id == id);
            &&& list.selected_ids.contains(id) ==> card.selected
            &&& here ==> card.selected && card.hovered
            &&& !here && !list.selected_ids.contains(id) ==> !card.selected
            &&& !here && (edits || records) ==> !card.hovered
            &&& !edits && !records ==> (card.hovered <==> list.hovered_index == Some(index))
            &&& card.selection_order > 0 <==> list.selected_ids.contains(id)
        }),
{
    list.selected_ids.index_of_first_ensures(list.items[index].id);
}

/// A card shows the editor of its note and the recording of its hotkey exactly
/// where its own item is the one. While it records, it shows the format that is
/// being chosen, otherwise that of its hotkey. An upload is shown for files only.
pub proof fn law_cards_show_work_in_place<S>(
    list: ListModel<S>,
    index: int,
    uploads: Seq<String>,
    card: CardView,
)
    requires
        0 <= index < list.items.len(),
        list.is_card(index, uploads, card),
    ensures
        ({
            let item = list.items[index];
            &&& card.editing <==> list.editing_note_id == item.id
            &&& card.recording_hotkey <==> list.recording_hotkey_id == item.id
            &&& card.recording_hotkey ==> card.hotkey_format@ == list.recording_hotkey_format
            &&& !card.recording_hotkey ==> card.hotkey_format@ == item.custom_hotkey_format@
            &&& item.content_type != ContentType::File ==> !card.source_is_uploading
            &&& item.content_type == ContentType::File ==> (card.source_is_uploading <==> exists|
                k: int,
                u: int,
            |
                0 <= k < item.file_data.files@.len() && 0 <= u < uploads.len() && (
                #[trigger] item.file_data.files@[k]).path@ == (#[trigger] uploads[u])@)
        }),
{
    law_uploads_are_told_by_their_paths(list.items[index].file_data.files@, uploads);
}

/// The format of a hotkey changes while it is recorded, and the program gets it;
/// at other times nothing changes.
pub proof fn law_formats_change_while_recording<S>(w: ListWorld<S>, format: String)
    ensures
        w.list.recording_hotkey_id <= 0 ==> w.choose_format(format) == w,
        w.list.recording_hotkey_id > 0 ==> w.choose_format(format).list == (ListModel {
            recording_hotkey_format: format@,
            ..w.list
        }) && adds(
            w.app,
            w.choose_format(format).app,
            seq![bare(Op::UpdateRecordingFormat { format })],
        ),
{
    lemma_added(w.app.requests);
}

} // verus!
