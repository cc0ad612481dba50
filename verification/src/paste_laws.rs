//! What clicks on cards and pasting are for.

use vstd::prelude::*;

use crate::app_state::{Op, RequestModel};
use crate::click::{
    card_modifier, double_click_kind, paste_click_mode, CardModifier, ModifiedDoubleClickCandidate,
    ModifiedPasteModifier, Modifiers, PasteClickMode,
};
use crate::clipboard_list::{world, ListModel, ListWorld};
use crate::items::row_of;
use crate::list_click::open_op;
use crate::selection_laws::{adds, bare, has_selected, is_real, lemma_added};
use crate::types::{ClipboardItem, ContentType};

verus! {

/// Whether no modifier is held.
pub open spec fn nothing_held(m: Modifiers) -> bool {
    !m.control && !m.alt && !m.shift && !m.platform && !m.function
}

/// Whether Shift alone is held.
pub open spec fn shift_held(m: Modifiers) -> bool {
    m.shift && !m.control && !m.alt && !m.platform && !m.function
}

/// Whether the primary modifier alone is held: Command on macOS, Control
/// elsewhere.
pub open spec fn primary_held(m: Modifiers) -> bool {
    &&& !m.alt && !m.shift && !m.function
    &&& if m.mac {
        m.platform && !m.control
    } else {
        m.control && !m.platform
    }
}

/// Whether a modifier that adds to the selection is held alone: Control, or
/// Command on macOS.
pub open spec fn additive_held(m: Modifiers) -> bool {
    &&& !m.alt && !m.shift && !m.function
    &&& (m.control && !m.platform) || (m.mac && m.platform && !m.control)
}

/// Whether something is open over the list or edited in it.
pub open spec fn something_open<S>(list: ListModel<S>) -> bool {
    ||| list.context_menu_visible
    ||| list.tag_picker_visible
    ||| list.confirm_dialog is Some
    ||| list.editing_note_id > 0
    ||| list.recording_hotkey_id > 0
}

/// Whether `after` is `before` with the context menu, the tag picker and the
/// hovered row gone, and nothing else changed.
pub open spec fn only_dismissed<S>(before: ListModel<S>, after: ListModel<S>) -> bool {
    &&& !after.context_menu_visible
    &&& after.context_menu_item is None
    &&& !after.tag_picker_visible
    &&& after.tag_picker_item_id == -1
    &&& after.hovered_index is None
    &&& before == (ListModel {
        context_menu_visible: before.context_menu_visible,
        context_menu_item: before.context_menu_item,
        tag_picker_visible: before.tag_picker_visible,
        tag_picker_item_id: before.tag_picker_item_id,
        hovered_index: before.hovered_index,
        ..after
    })
}

/// The same list where nothing was begun.
pub open spec fn unbegun<S>(list: ListModel<S>) -> ListModel<S> {
    ListModel { modified_double_click_candidate: None, ..list }
}

/// The requests that use items and bring the list up to date after it.
pub open spec fn uses(op: Op) -> Seq<RequestModel> {
    seq![bare(op), bare(Op::SyncListForUsage)]
}

/// The requests that paste the selected items.
pub open spec fn pastes_all(ids: Seq<i64>, plain: bool) -> Seq<RequestModel> {
    seq![
        RequestModel { op: Op::BatchPaste { plain }, ids, names: Seq::empty() },
        bare(Op::SyncListForUsage),
    ]
}

/// Whether these requests are the default for an item: an entry of the transfer
/// station is opened where it is stored locally, and fetched where it is not; any
/// other item is pasted with its formatting.
pub open spec fn is_default_use(item: ClipboardItem, requests: Seq<RequestModel>) -> bool {
    let files = item.file_data.files@;
    if item.id < 0 && item.meta_type@ == "transfer"@ {
        if files.len() > 0 && files[0].path@.len() > 0 {
            requests == seq![
                bare(Op::OpenTransferLocation { path: files[0].path }),
                bare(Op::SyncList),
            ]
        } else {
            requests == seq![
                bare(Op::DownloadTransfer { hash: item.file_data.remote_hash }),
                bare(Op::SyncList),
            ]
        }
    } else {
        requests == uses(Op::PasteItem { id: item.id, plain: false })
    }
}

/// What modifiers mean follows from the keys that are held: the primary modifier
/// is Command on macOS and Control elsewhere, and each reading of a click asks for
/// its keys and no other.
pub proof fn law_modifiers_mean_the_keys_that_are_held(m: Modifiers)
    ensures
        m.primary() <==> (if m.mac {
            m.platform
        } else {
            m.control
        }),
        m.additive() <==> m.control || (m.mac && m.platform),
        card_modifier(m) == CardModifier::Unmodified <==> nothing_held(m),
        card_modifier(m) == CardModifier::Shift <==> shift_held(m),
        card_modifier(m) == CardModifier::Primary <==> additive_held(m),
        double_click_kind(m) == Some(ModifiedPasteModifier::Bitmap) <==> primary_held(m),
        double_click_kind(m) == Some(ModifiedPasteModifier::PlainText) <==> shift_held(m),
        m.count() == 0 <==> nothing_held(m),
        0 <= m.count() <= 5,
{
}

/// Pasting with the keyboard closes what is open and pastes nothing. With nothing
/// open it pastes all selected items at once, in the order in which they were
/// selected, where there are several; the only one, where it is in the list; and
/// it brings the list up to date in any case.
pub proof fn law_pasting_uses_the_selection<S>(w: ListWorld<S>, plain: bool)
    ensures
        ({
            let after = w.paste_selected(plain);
            let ids = w.list.selected_ids;
            if something_open(w.list) {
                only_dismissed(w.list, after.list) && after.app == w.app
            } else {
                &&& after.list == w.list
                &&& ids.len() > 1 ==> adds(w.app, after.app, pastes_all(ids, plain))
                &&& ids.len() == 1 && row_of(w.list.items, Some(ids[0])) is Some ==> adds(
                    w.app,
                    after.app,
                    uses(
                        if plain {
                            Op::PasteItemPlain { id: ids[0] }
                        } else {
                            Op::PasteItem { id: ids[0], plain: false }
                        },
                    ),
                )
                &&& ids.len() == 0 || (ids.len() == 1 && row_of(
                    w.list.items,
                    Some(ids[0]),
                ) is None) ==> adds(w.app, after.app, seq![bare(Op::SyncListForUsage)])
            }
        }),
{
    lemma_added(w.app.requests);
}

/// With nothing open and exactly one image selected, the paste with the primary
/// modifier pastes exactly that image as a bitmap. Whatever else is selected, it
/// pastes as the setting for plain text says, and it closes what is open instead.
pub proof fn law_single_images_are_pasted_as_bitmaps<S>(w: ListWorld<S>, i: int)
    ensures
        ({
            let after = w.paste_bitmap_or_default();
            let ids = w.list.selected_ids;
            let image = ids.len() == 1 && row_of(w.list.items, Some(ids[0])) == Some(i)
                && w.list.items[i].content_type == ContentType::Image;
            &&& something_open(w.list) ==> only_dismissed(w.list, after.list) && after.app == w.app
            &&& !something_open(w.list) && image ==> after.list == w.list && adds(
                w.app,
                after.app,
                uses(Op::PasteImageAsBitmap { id: ids[0] }),
            )
            &&& !something_open(w.list) && (ids.len() != 1 || row_of(
                w.list.items,
                Some(ids[0]),
            ) is None || (row_of(w.list.items, Some(ids[0])) == Some(i)
                && w.list.items[i].content_type != ContentType::Image)) ==> after
                == w.paste_selected(w.app.settings.copy_as_plain_text)
        }),
{
    lemma_added(w.app.requests);
}

/// In single-click mode, with at most one item selected, a click without a
/// modifier uses the clicked item and leaves the selection alone.
pub proof fn law_single_clicks_use_the_clicked_item<S>(
    w: ListWorld<S>,
    index: int,
    m: Modifiers,
) -> (requests: Seq<RequestModel>)
    requires
        paste_click_mode(w.app.settings.paste_click_mode@) == PasteClickMode::SingleClick,
        is_real(w.list.items, index),
        w.list.selected_ids.len() <= 1,
        nothing_held(m),
    ensures
        w.click(index, m).list == unbegun(w.list),
        is_default_use(w.list.items[index], requests),
        adds(w.app, w.click(index, m).app, requests),
{
    law_modifiers_mean_the_keys_that_are_held(m);
    lemma_added(w.app.requests);
    let item = w.list.items[index];
    assert(w.click(index, m) == world(unbegun(w.list), w.app).paste_row(index));
    if item.id < 0 && item.meta_type@ == "transfer"@ {
        seq![bare(open_op(item@.file_data)), bare(Op::SyncList)]
    } else {
        uses(Op::PasteItem { id: item.id, plain: false })
    }
}

/// In single-click mode, with at most one item selected, a click on the selected
/// item with Shift pastes it as plain text, and with the modifier that adds to the
/// selection as a bitmap, if it is an image; on another item they select as they
/// do in double-click mode.
pub proof fn law_modified_single_clicks_paste_the_selected_item<S>(
    w: ListWorld<S>,
    index: int,
    m: Modifiers,
)
    requires
        paste_click_mode(w.app.settings.paste_click_mode@) == PasteClickMode::SingleClick,
        is_real(w.list.items, index),
        w.list.selected_ids.len() <= 1,
    ensures
        ({
            let after = w.click(index, m);
            let item = w.list.items[index];
            let selected = w.list.selected_ids.contains(item.id);
            &&& shift_held(m) && selected ==> after.list == unbegun(w.list) && adds(
                w.app,
                after.app,
                uses(Op::PasteItemPlain { id: item.id }),
            )
            &&& additive_held(m) && selected && item.content_type == ContentType::Image ==> after.list
                == unbegun(w.list) && adds(
                w.app,
                after.app,
                uses(Op::PasteImageAsBitmap { id: item.id }),
            )
            &&& additive_held(m) && selected && item.content_type != ContentType::Image ==> after
                == world(unbegun(w.list), w.app)
            &&& additive_held(m) && !selected ==> after == w.toggle(index)
            &&& shift_held(m) && !selected ==> after == w.range_to(index)
        }),
{
    law_modifiers_mean_the_keys_that_are_held(m);
    lemma_added(w.app.requests);
}

/// In single-click mode, with several items selected, a click only manages the
/// selection; and with several modifiers, or one that means nothing, a click does
/// nothing.
pub proof fn law_single_clicks_manage_a_selection_of_several<S>(
    w: ListWorld<S>,
    index: int,
    m: Modifiers,
)
    requires
        paste_click_mode(w.app.settings.paste_click_mode@) == PasteClickMode::SingleClick,
        is_real(w.list.items, index),
    ensures
        ({
            let after = w.click(index, m);
            let several = w.list.selected_ids.len() > 1;
            &&& several && nothing_held(m) ==> has_selected(after.list, index)
                && after.app.selected_ids == seq![w.list.items[index].id] && after.app.requests
                == w.app.requests
            &&& several && additive_held(m) ==> after == w.toggle(index)
            &&& several && shift_held(m) ==> after == w.range_to(index)
            &&& !nothing_held(m) && !additive_held(m) && !shift_held(m) ==> after == world(
                unbegun(w.list),
                w.app,
            )
        }),
{
    law_modifiers_mean_the_keys_that_are_held(m);
}

/// In double-click mode a click selects and asks for nothing: a modifier that adds
/// to the selection toggles the row, otherwise Shift selects a range, otherwise
/// the row is selected alone. It begins a modified double click exactly if the
/// primary modifier or Shift is held alone, the row held the only selected item,
/// and the selection did not change.
pub proof fn law_clicks_in_double_click_mode_select<S>(w: ListWorld<S>, index: int, m: Modifiers)
    requires
        paste_click_mode(w.app.settings.paste_click_mode@) == PasteClickMode::DoubleClick,
        is_real(w.list.items, index),
    ensures
        ({
            let after = w.click(index, m);
            let item = w.list.items[index];
            let selects = if m.control || (m.mac && m.platform) {
                w.toggle(index)
            } else if m.shift {
                w.range_to(index)
            } else {
                w.select(index)
            };
            let begins = w.list.selected_ids == seq![item.id] && selects.list.selected_ids == seq![
                item.id,
            ];
            &&& unbegun(after.list) == unbegun(selects.list)
            &&& after.app == selects.app
            &&& after.app.requests == w.app.requests
            &&& begins && primary_held(m) ==> after.list.modified_double_click_candidate == Some(
                ModifiedDoubleClickCandidate {
                    item_id: item.id,
                    modifier: ModifiedPasteModifier::Bitmap,
                },
            )
            &&& begins && shift_held(m) ==> after.list.modified_double_click_candidate == Some(
                ModifiedDoubleClickCandidate {
                    item_id: item.id,
                    modifier: ModifiedPasteModifier::PlainText,
                },
            )
            &&& !begins || (!primary_held(m) && !shift_held(m))
                ==> after.list.modified_double_click_candidate is None
        }),
{
    law_modifiers_mean_the_keys_that_are_held(m);
    let item = w.list.items[index];
    let ids = w.list.selected_ids;
    if ids.len() == 1 && ids[0] == item.id {
        assert(ids =~= seq![item.id]);
    }
}

/// A double click ends what a click has begun and changes nothing else of the
/// list. In single-click mode it asks for nothing. In double-click mode, without a
/// modifier, it pastes all selected items where there are several, else it uses
/// the clicked one; with the primary modifier alone it pastes an image as a
/// bitmap, and with Shift alone the item as plain text, each only where a click
/// with that modifier has begun it on this item; otherwise it asks for nothing.
pub proof fn law_double_clicks_paste_what_was_begun<S>(
    w: ListWorld<S>,
    index: int,
    m: Modifiers,
) -> (requests: Seq<RequestModel>)
    requires
        is_real(w.list.items, index),
    ensures
        ({
            let after = w.double_click(index, m);
            let item = w.list.items[index];
            let ids = w.list.selected_ids;
            let single = paste_click_mode(w.app.settings.paste_click_mode@)
                == PasteClickMode::SingleClick;
            let begun = w.list.modified_double_click_candidate;
            let bitmap = primary_held(m) && item.content_type == ContentType::Image && begun == Some(
                ModifiedDoubleClickCandidate {
                    item_id: item.id,
                    modifier: ModifiedPasteModifier::Bitmap,
                },
            );
            let plain = shift_held(m) && begun == Some(
                ModifiedDoubleClickCandidate {
                    item_id: item.id,
                    modifier: ModifiedPasteModifier::PlainText,
                },
            );
            &&& after.list == unbegun(w.list)
            &&& adds(w.app, after.app, requests)
            &&& single ==> requests.len() == 0
            &&& !single && nothing_held(m) && ids.len() > 1 ==> requests == pastes_all(ids, false)
            &&& !single && nothing_held(m) && ids.len() <= 1 ==> is_default_use(item, requests)
            &&& !single && bitmap ==> requests == uses(Op::PasteImageAsBitmap { id: item.id })
            &&& !single && plain ==> requests == uses(Op::PasteItemPlain { id: item.id })
            &&& !single && !nothing_held(m) && !bitmap && !plain ==> requests.len() == 0
        }),
{
    law_modifiers_mean_the_keys_that_are_held(m);
    lemma_added(w.app.requests);
    let item = w.list.items[index];
    let after = w.double_click(index, m);
    let old = w.app.requests;
    let requests = after.app.requests.skip(old.len() as int);
    assert(after.app.requests =~= old + requests);
    assert forall|r: Seq<RequestModel>| #[trigger] (old + r).skip(old.len() as int) == r by {
        assert((old + r).skip(old.len() as int) =~= r);
    }
    assert(old.skip(old.len() as int) =~= Seq::<RequestModel>::empty());
    requests
}

/// The setting that names single clicks chooses them, and every other value
/// chooses double clicks.
pub proof fn law_click_mode_follows_the_setting(value: Seq<char>)
    ensures
        paste_click_mode(value) == PasteClickMode::SingleClick <==> value == "single_click"@,
        paste_click_mode(value) == PasteClickMode::DoubleClick <==> value != "single_click"@,
{
}

/// While a note is edited a click on a card does nothing yet; otherwise it is a
/// click on that row.
pub proof fn law_clicks_wait_for_the_note<S>(w: ListWorld<S>, index: int, m: Modifiers)
    ensures
        w.list.editing_note_id > 0 ==> w.click_card(index, m) == w,
        w.list.editing_note_id <= 0 ==> w.click_card(index, m) == w.click(index, m),
{
}

} // verus!
