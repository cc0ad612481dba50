//! What the context menu, the toolbar and the keys are for.

use vstd::prelude::*;

use crate::app_state::{ClipboardListEvent, Op, RequestModel};
use crate::clipboard_list::{world, ConfirmModel, ListModel, ListWorld};
use crate::list_menu::{menu_action, toolbar_action, BatchAction, CardAction, ItemAction};
use crate::list_panels::transfer_hashes;
use crate::paste_laws::{pastes_all, uses};
use crate::selection_laws::{adds, bare, is_real, lemma_added};
use crate::text::begins_with;
use crate::types::{ContentType, ItemModel};

verus! {

/// The names of the actions are all different: by their lengths, and where those
/// are equal, by a letter.
proof fn lemma_names_differ()
    ensures
        "paste"@.len() == 5,
        "paste_as_rgb"@.len() == 12,
        "paste_as_hex"@.len() == 12,
        "paste_image_path"@.len() == 16,
        "paste_file_path"@.len() == 15,
        "paste_ocr"@.len() == 9,
        "qr_detect"@.len() == 9,
        "set_hotkey"@.len() == 10,
        "remove_hotkey"@.len() == 13,
        "upload_to_transfer"@.len() == 18,
        "copy"@.len() == 4,
        "paste_plain"@.len() == 11,
        "paste_image_bitmap"@.len() == 18,
        "open_image"@.len() == 10,
        "open_location"@.len() == 13,
        "edit_note"@.len() == 9,
        "toggle_favorite"@.len() == 15,
        "delete"@.len() == 6,
        "edit"@.len() == 4,
        "download_transfer"@.len() == 17,
        "delete_transfer"@.len() == 15,
        "toggle_transfer_pin"@.len() == 19,
        "open_transfer_location"@.len() == 22,
        "batch_paste"@.len() == 11,
        "merge_selected"@.len() == 14,
        "batch_favorite"@.len() == 14,
        "batch_delete"@.len() == 12,
        "batch_delete_transfer"@.len() == 21,
        "show_tag_picker"@.len() == 15,
        "qr_action"@.len() == 9,
        "batch_tag"@.len() == 9,
        "paste_as_rgb"@ != "paste_as_hex"@,
        "paste_as_rgb"@ != "batch_delete"@,
        "paste_as_hex"@ != "batch_delete"@,
        "paste_file_path"@ != "toggle_favorite"@,
        "paste_file_path"@ != "delete_transfer"@,
        "paste_file_path"@ != "show_tag_picker"@,
        "paste_ocr"@ != "qr_detect"@,
        "paste_ocr"@ != "edit_note"@,
        "paste_ocr"@ != "qr_action"@,
        "paste_ocr"@ != "batch_tag"@,
        "qr_detect"@ != "edit_note"@,
        "qr_detect"@ != "qr_action"@,
        "qr_detect"@ != "batch_tag"@,
        "set_hotkey"@ != "open_image"@,
        "remove_hotkey"@ != "open_location"@,
        "upload_to_transfer"@ != "paste_image_bitmap"@,
        "copy"@ != "edit"@,
        "paste_plain"@ != "batch_paste"@,
        "edit_note"@ != "qr_action"@,
        "edit_note"@ != "batch_tag"@,
        "toggle_favorite"@ != "delete_transfer"@,
        "toggle_favorite"@ != "show_tag_picker"@,
        "delete_transfer"@ != "show_tag_picker"@,
        "merge_selected"@ != "batch_favorite"@,
        "qr_action"@ != "batch_tag"@,
{
    reveal_strlit("paste");
    reveal_strlit("paste_as_rgb");
    reveal_strlit("paste_as_hex");
    reveal_strlit("paste_image_path");
    reveal_strlit("paste_file_path");
    reveal_strlit("paste_ocr");
    reveal_strlit("qr_detect");
    reveal_strlit("set_hotkey");
    reveal_strlit("remove_hotkey");
    reveal_strlit("upload_to_transfer");
    reveal_strlit("copy");
    reveal_strlit("paste_plain");
    reveal_strlit("paste_image_bitmap");
    reveal_strlit("open_image");
    reveal_strlit("open_location");
    reveal_strlit("edit_note");
    reveal_strlit("toggle_favorite");
    reveal_strlit("delete");
    reveal_strlit("edit");
    reveal_strlit("download_transfer");
    reveal_strlit("delete_transfer");
    reveal_strlit("toggle_transfer_pin");
    reveal_strlit("open_transfer_location");
    reveal_strlit("batch_paste");
    reveal_strlit("merge_selected");
    reveal_strlit("batch_favorite");
    reveal_strlit("batch_delete");
    reveal_strlit("batch_delete_transfer");
    reveal_strlit("show_tag_picker");
    reveal_strlit("qr_action");
    reveal_strlit("batch_tag");
    assert("paste_as_rgb"@[9] != "paste_as_hex"@[9]);
    assert("paste_as_rgb"@[0] != "batch_delete"@[0]);
    assert("paste_as_hex"@[0] != "batch_delete"@[0]);
    assert("paste_file_path"@[0] != "toggle_favorite"@[0]);
    assert("paste_file_path"@[0] != "delete_transfer"@[0]);
    assert("paste_file_path"@[0] != "show_tag_picker"@[0]);
    assert("paste_ocr"@[0] != "qr_detect"@[0]);
    assert("paste_ocr"@[0] != "edit_note"@[0]);
    assert("paste_ocr"@[0] != "qr_action"@[0]);
    assert("paste_ocr"@[0] != "batch_tag"@[0]);
    assert("qr_detect"@[0] != "edit_note"@[0]);
    assert("qr_detect"@[3] != "qr_action"@[3]);
    assert("qr_detect"@[0] != "batch_tag"@[0]);
    assert("set_hotkey"@[0] != "open_image"@[0]);
    assert("remove_hotkey"@[0] != "open_location"@[0]);
    assert("upload_to_transfer"@[0] != "paste_image_bitmap"@[0]);
    assert("copy"@[0] != "edit"@[0]);
    assert("paste_plain"@[0] != "batch_paste"@[0]);
    assert("edit_note"@[0] != "qr_action"@[0]);
    assert("edit_note"@[0] != "batch_tag"@[0]);
    assert("toggle_favorite"@[0] != "delete_transfer"@[0]);
    assert("toggle_favorite"@[0] != "show_tag_picker"@[0]);
    assert("delete_transfer"@[0] != "show_tag_picker"@[0]);
    assert("merge_selected"@[0] != "batch_favorite"@[0]);
    assert("qr_action"@[0] != "batch_tag"@[0]);
}

/// A name in the menu stands for the action that it names, and for nothing else.
proof fn lemma_menu_names()
    ensures
        menu_action("paste"@) == CardAction::Item(ItemAction::Paste),
        menu_action("paste_as_rgb"@) == CardAction::Item(ItemAction::PasteAsRgb),
        menu_action("paste_as_hex"@) == CardAction::Item(ItemAction::PasteAsHex),
        menu_action("paste_image_path"@) == CardAction::Item(ItemAction::PasteImagePath),
        menu_action("paste_file_path"@) == CardAction::Item(ItemAction::PasteFilePath),
        menu_action("paste_ocr"@) == CardAction::Item(ItemAction::PasteOcr),
        menu_action("qr_detect"@) == CardAction::Item(ItemAction::QrDetect),
        menu_action("set_hotkey"@) == CardAction::Item(ItemAction::SetHotkey),
        menu_action("remove_hotkey"@) == CardAction::Item(ItemAction::RemoveHotkey),
        menu_action("upload_to_transfer"@) == CardAction::Item(ItemAction::UploadToTransfer),
        menu_action("copy"@) == CardAction::Item(ItemAction::Copy),
        menu_action("paste_plain"@) == CardAction::Item(ItemAction::PastePlain),
        menu_action("paste_image_bitmap"@) == CardAction::Item(ItemAction::PasteImageBitmap),
        menu_action("open_image"@) == CardAction::Item(ItemAction::OpenImage),
        menu_action("open_location"@) == CardAction::Item(ItemAction::OpenLocation),
        menu_action("edit_note"@) == CardAction::Item(ItemAction::EditNote),
        menu_action("toggle_favorite"@) == CardAction::Item(ItemAction::ToggleFavorite),
        menu_action("delete"@) == CardAction::Item(ItemAction::Delete),
        menu_action("edit"@) == CardAction::Item(ItemAction::Edit),
        menu_action("download_transfer"@) == CardAction::Item(ItemAction::DownloadTransfer),
        menu_action("delete_transfer"@) == CardAction::Item(ItemAction::DeleteTransfer),
        menu_action("toggle_transfer_pin"@) == CardAction::Item(ItemAction::ToggleTransferPin),
        menu_action("open_transfer_location"@) == CardAction::Item(ItemAction::OpenTransferLocation),
        menu_action("batch_paste"@) == CardAction::Batch(BatchAction::Paste),
        menu_action("merge_selected"@) == CardAction::Batch(BatchAction::Merge),
        menu_action("batch_favorite"@) == CardAction::Batch(BatchAction::Favorite),
        menu_action("batch_delete"@) == CardAction::Batch(BatchAction::Delete),
        menu_action("batch_delete_transfer"@) == CardAction::Batch(BatchAction::DeleteTransfer),
        menu_action("show_tag_picker"@) == CardAction::ShowTagPicker,
        menu_action("qr_action"@) == CardAction::Unknown,
        menu_action("batch_tag"@) == CardAction::Unknown,
{
    lemma_names_differ();
}

/// A name in the toolbar stands for the action that it names, and for nothing
/// else.
proof fn lemma_toolbar_names()
    ensures
        toolbar_action("copy"@) == CardAction::Item(ItemAction::Copy),
        toolbar_action("paste_plain"@) == CardAction::Item(ItemAction::PastePlain),
        toolbar_action("paste_image_bitmap"@) == CardAction::Item(ItemAction::PasteImageBitmap),
        toolbar_action("open_image"@) == CardAction::Item(ItemAction::OpenImage),
        toolbar_action("open_location"@) == CardAction::Item(ItemAction::OpenLocation),
        toolbar_action("edit_note"@) == CardAction::Item(ItemAction::EditNote),
        toolbar_action("toggle_favorite"@) == CardAction::Item(ItemAction::ToggleFavorite),
        toolbar_action("delete"@) == CardAction::Item(ItemAction::Delete),
        toolbar_action("edit"@) == CardAction::Item(ItemAction::Edit),
        toolbar_action("download_transfer"@) == CardAction::Item(ItemAction::DownloadTransfer),
        toolbar_action("delete_transfer"@) == CardAction::Item(ItemAction::DeleteTransfer),
        toolbar_action("toggle_transfer_pin"@) == CardAction::Item(ItemAction::ToggleTransferPin),
        toolbar_action("open_transfer_location"@) == CardAction::Item(ItemAction::OpenTransferLocation),
        toolbar_action("qr_action"@) == CardAction::Item(ItemAction::QrAction),
        toolbar_action("batch_paste"@) == CardAction::Batch(BatchAction::Paste),
        toolbar_action("merge_selected"@) == CardAction::Batch(BatchAction::Merge),
        toolbar_action("batch_favorite"@) == CardAction::Batch(BatchAction::Favorite),
        toolbar_action("batch_delete"@) == CardAction::Batch(BatchAction::Delete),
        toolbar_action("batch_delete_transfer"@) == CardAction::Batch(BatchAction::DeleteTransfer),
        toolbar_action("batch_tag"@) == CardAction::Batch(BatchAction::Tag),
        toolbar_action("show_tag_picker"@) == CardAction::ShowTagPicker,
        toolbar_action("paste"@) == CardAction::Unknown,
        toolbar_action("paste_as_rgb"@) == CardAction::Unknown,
        toolbar_action("paste_as_hex"@) == CardAction::Unknown,
        toolbar_action("paste_image_path"@) == CardAction::Unknown,
        toolbar_action("paste_file_path"@) == CardAction::Unknown,
        toolbar_action("paste_ocr"@) == CardAction::Unknown,
        toolbar_action("qr_detect"@) == CardAction::Unknown,
        toolbar_action("set_hotkey"@) == CardAction::Unknown,
        toolbar_action("remove_hotkey"@) == CardAction::Unknown,
        toolbar_action("upload_to_transfer"@) == CardAction::Unknown,
{
    lemma_names_differ();
}
/// The list with the context menu closed.
pub open spec fn closed_menu<S>(list: ListModel<S>) -> ListModel<S> {
    ListModel { context_menu_visible: false, context_menu_item: None, ..list }
}

/// Whether an entry of the context menu closes the menu, changes nothing else of
/// the list, and asks for exactly this.
pub open spec fn menu_asks<S>(w: ListWorld<S>, name: Seq<char>, requests: Seq<RequestModel>) -> bool {
    forall|format: String|
        {
            let after = #[trigger] w.choose_in_menu(menu_action(name), format);
            &&& after.list == closed_menu(w.list)
            &&& adds(w.app, after.app, requests)
        }
}

/// Whether an entry of the context menu closes the menu and asks this question.
pub open spec fn menu_questions<S>(w: ListWorld<S>, name: Seq<char>, question: ConfirmModel) -> bool {
    forall|format: String| #[trigger]
        w.choose_in_menu(menu_action(name), format) == world(
            (ListModel { confirm_dialog: Some(question), ..closed_menu(w.list) }),
            w.app,
        )
}

/// The entries of the context menu that paste and copy do so with the item that
/// the menu was opened for, each in its form, and bring the list up to date.
pub proof fn law_menu_pastes_its_item<S>(w: ListWorld<S>, item: ItemModel)
    requires
        w.list.context_menu_item == Some(item),
    ensures
        ({
            let id = item.id;
            let plain = w.app.settings.copy_as_plain_text;
            &&& menu_asks(w, "copy"@, uses(Op::CopyItem { id, plain }))
            &&& menu_asks(w, "paste"@, uses(Op::PasteItem { id, plain }))
            &&& menu_asks(w, "paste_plain"@, uses(Op::PasteItemPlain { id }))
            &&& menu_asks(w, "paste_as_rgb"@, uses(Op::PasteAsRgb { id }))
            &&& menu_asks(w, "paste_as_hex"@, uses(Op::PasteAsHex { id }))
            &&& menu_asks(w, "paste_image_path"@, uses(Op::PasteImagePath { id }))
            &&& menu_asks(w, "paste_file_path"@, uses(Op::PasteFilePath { id }))
            &&& menu_asks(w, "paste_image_bitmap"@, uses(Op::PasteImageAsBitmap { id }))
            &&& menu_asks(w, "paste_ocr"@, uses(Op::PasteOcr { id }))
        }),
{
    lemma_menu_names();
    lemma_added(w.app.requests);
}

/// The entries of the context menu that open, edit and change an item do so with
/// the item that the menu was opened for.
pub proof fn law_menu_changes_its_item<S>(w: ListWorld<S>, item: ItemModel)
    requires
        w.list.context_menu_item == Some(item),
    ensures
        ({
            let id = item.id;
            &&& menu_asks(w, "open_image"@, seq![bare(Op::OpenOriginalImage { id })])
            &&& menu_asks(w, "open_location"@, seq![bare(Op::OpenItemLocation { id })])
            &&& menu_asks(w, "qr_detect"@, seq![bare(Op::QrDetect { id }), bare(Op::SyncList)])
            &&& menu_asks(
                w,
                "edit"@,
                seq![bare(Op::Emit { event: ClipboardListEvent::OpenEdit(id) })],
            )
            &&& menu_asks(
                w,
                "toggle_favorite"@,
                seq![
                    bare(Op::ToggleFavorite { id }),
                    bare(Op::SyncList),
                    bare(Op::ReselectToggled { id }),
                ],
            )
            &&& menu_asks(
                w,
                "remove_hotkey"@,
                seq![
                    bare(Op::ClearItemHotkey { id }),
                    bare(Op::UnregisterItemHotkey { id }),
                    bare(Op::SyncList),
                ],
            )
            &&& menu_questions(w, "delete"@, ConfirmModel::Single { id })
        }),
{
    lemma_menu_names();
    lemma_added(w.app.requests);
}

/// The entries of the context menu for the transfer station are about the entry
/// that the menu was opened for: by its name there, by the path of its first file,
/// and pinning is undone exactly where it carries the mark of a pinned entry.
pub proof fn law_menu_transfers_its_item<S>(w: ListWorld<S>, item: ItemModel)
    requires
        w.list.context_menu_item == Some(item),
    ensures
        ({
            let id = item.id;
            let hash = item.file_data.remote_hash;
            let files = item.file_data.files;
            let pinned = exists|k: int|
                0 <= k < item.tags.len() && (#[trigger] item.tags[k]).uid@
                    == w.app.pinned_status_uid@;
            &&& menu_asks(
                w,
                "upload_to_transfer"@,
                seq![bare(Op::UploadToTransfer { id }), bare(Op::SyncList)],
            )
            &&& menu_asks(
                w,
                "download_transfer"@,
                seq![bare(Op::DownloadTransfer { hash }), bare(Op::SyncList)],
            )
            &&& menu_asks(
                w,
                "toggle_transfer_pin"@,
                seq![
                    bare(Op::SetTransferPinned { hash, pinned: !pinned }),
                    bare(Op::SyncList),
                ],
            )
            &&& files.len() > 0 ==> menu_asks(
                w,
                "open_transfer_location"@,
                seq![bare(Op::OpenTransferLocation { path: files[0].path })],
            )
            &&& files.len() == 0 ==> menu_asks(w, "open_transfer_location"@, Seq::empty())
            &&& menu_questions(w, "delete_transfer"@, ConfirmModel::Transfer { hash })
        }),
{
    lemma_menu_names();
    lemma_added(w.app.requests);
}

/// The entries of the context menu for several items are about the selected ones.
pub proof fn law_menu_batches_are_about_the_selection<S>(w: ListWorld<S>)
    ensures
        ({
            let ids = w.list.selected_ids;
            &&& menu_asks(
                w,
                "batch_paste"@,
                pastes_all(ids, w.app.settings.copy_as_plain_text),
            )
            &&& menu_asks(
                w,
                "merge_selected"@,
                seq![bare(Op::MergeSelected), bare(Op::SyncList), bare(Op::RevealMerged)],
            )
            &&& menu_asks(
                w,
                "batch_favorite"@,
                seq![bare(Op::BatchToggleFavorite), bare(Op::SyncList), bare(Op::SelectTop)],
            )
            &&& menu_questions(w, "batch_delete"@, ConfirmModel::Batch { count: ids.len() })
        }),
{
    lemma_menu_names();
    lemma_added(w.app.requests);
}

/// The entry that deletes several entries of the transfer station asks about those
/// of the selected items that are there, and asks nothing where none is.
pub proof fn law_menu_deletes_selected_transfers<S>(w: ListWorld<S>)
    ensures
        ({
            let hashes = transfer_hashes(w.list.items, w.list.selected_ids);
            &&& hashes.len() > 0 ==> menu_questions(
                w,
                "batch_delete_transfer"@,
                ConfirmModel::TransferBatch { hashes },
            )
            &&& hashes.len() == 0 ==> menu_asks(w, "batch_delete_transfer"@, Seq::empty())
        }),
{
    lemma_menu_names();
    lemma_added(w.app.requests);
    assert(world(closed_menu(w.list), w.app).list == w.list.menu_hidden());
}

/// The entry for notes edits the note of the menu's item from nothing, and the one
/// for hotkeys records one for it; each closes the menu.
pub proof fn law_menu_edits_its_item_in_place<S>(w: ListWorld<S>, item: ItemModel, format: String)
    requires
        w.list.context_menu_item == Some(item),
    ensures
        w.choose_in_menu(menu_action("edit_note"@), format) == world(
            closed_menu(w.list),
            w.app,
        ).edit_note(item.id, None),
        w.choose_in_menu(menu_action("set_hotkey"@), format) == world(
            closed_menu(w.list),
            w.app,
        ).record_hotkey(item.id, format),
{
    lemma_menu_names();
}

/// Any other name only closes the menu, and so does an entry about an item where
/// the menu is about none.
pub proof fn law_menu_closes_in_any_case<S>(w: ListWorld<S>, action: CardAction, format: String)
    ensures
        !w.choose_in_menu(action, format).list.context_menu_visible,
        w.choose_in_menu(action, format).list.context_menu_item is None,
        action is Unknown ==> w.choose_in_menu(action, format) == world(
            closed_menu(w.list),
            w.app,
        ),
        action is Item && w.list.context_menu_item is None ==> w.choose_in_menu(action, format)
            == world(closed_menu(w.list), w.app),
        menu_action("qr_action"@) is Unknown,
        menu_action("batch_tag"@) is Unknown,
        w.choose_in_menu(menu_action("show_tag_picker"@), format) == world(
            closed_menu(w.pick_tags_from_menu().list),
            w.app,
        ),
{
    lemma_menu_names();
}

/// Whether an action of the toolbar selects the hovered row and asks for exactly
/// this.
pub open spec fn toolbar_asks<S>(
    w: ListWorld<S>,
    index: int,
    name: Seq<char>,
    requests: Seq<RequestModel>,
) -> bool {
    forall|format: String|
        {
            let after = #[trigger] w.choose_in_toolbar(name, format);
            &&& after.list == w.select(index).list
            &&& adds(w.select(index).app, after.app, requests)
        }
}

/// Whether an action of the toolbar on several items changes nothing of the list
/// and asks for exactly this.
pub open spec fn toolbar_asks_for_all<S>(
    w: ListWorld<S>,
    name: Seq<char>,
    requests: Seq<RequestModel>,
) -> bool {
    forall|format: String|
        {
            let after = #[trigger] w.choose_in_toolbar(name, format);
            &&& after.list == w.list
            &&& adds(w.app, after.app, requests)
        }
}

/// No name of an action on one item begins like those on several.
proof fn lemma_item_names()
    ensures
        !begins_with("copy"@, "batch_"@),
        !begins_with("paste_plain"@, "batch_"@),
        !begins_with("paste_image_bitmap"@, "batch_"@),
        !begins_with("open_image"@, "batch_"@),
        !begins_with("open_location"@, "batch_"@),
        !begins_with("qr_action"@, "batch_"@),
        !begins_with("edit"@, "batch_"@),
        !begins_with("edit_note"@, "batch_"@),
        !begins_with("toggle_favorite"@, "batch_"@),
        !begins_with("delete"@, "batch_"@),
        !begins_with("download_transfer"@, "batch_"@),
        !begins_with("delete_transfer"@, "batch_"@),
        !begins_with("toggle_transfer_pin"@, "batch_"@),
        !begins_with("open_transfer_location"@, "batch_"@),
        !begins_with("show_tag_picker"@, "batch_"@),
        begins_with("batch_paste"@, "batch_"@),
        begins_with("batch_favorite"@, "batch_"@),
        begins_with("batch_delete"@, "batch_"@),
        begins_with("batch_delete_transfer"@, "batch_"@),
        begins_with("batch_tag"@, "batch_"@),
{
    reveal_strlit("batch_");
    reveal_strlit("copy");
    reveal_strlit("paste_plain");
    reveal_strlit("paste_image_bitmap");
    reveal_strlit("open_image");
    reveal_strlit("open_location");
    reveal_strlit("qr_action");
    reveal_strlit("edit");
    reveal_strlit("edit_note");
    reveal_strlit("toggle_favorite");
    reveal_strlit("delete");
    reveal_strlit("download_transfer");
    reveal_strlit("delete_transfer");
    reveal_strlit("toggle_transfer_pin");
    reveal_strlit("open_transfer_location");
    reveal_strlit("show_tag_picker");
    reveal_strlit("batch_paste");
    reveal_strlit("batch_favorite");
    reveal_strlit("batch_delete");
    reveal_strlit("batch_delete_transfer");
    reveal_strlit("batch_tag");
    assert("batch_"@[0] == 'b');
    assert("batch_paste"@.take(6) =~= "batch_"@);
    assert("batch_favorite"@.take(6) =~= "batch_"@);
    assert("batch_delete"@.take(6) =~= "batch_"@);
    assert("batch_delete_transfer"@.take(6) =~= "batch_"@);
    assert("batch_tag"@.take(6) =~= "batch_"@);
}

/// The toolbar of a hovered card acts on its item, which becomes the only selected
/// one: it pastes, copies and opens it, and an image alone as a bitmap.
pub proof fn law_toolbar_uses_the_hovered_item<S>(w: ListWorld<S>, index: int)
    requires
        w.list.hovered_index == Some(index),
        is_real(w.list.items, index),
    ensures
        ({
            let item = w.list.items[index];
            let id = item.id;
            let plain = w.app.settings.copy_as_plain_text;
            &&& toolbar_asks(w, index, "copy"@, uses(Op::CopyItem { id, plain }))
            &&& toolbar_asks(w, index, "paste_plain"@, uses(Op::PasteItemPlain { id }))
            &&& item.content_type == ContentType::Image ==> toolbar_asks(
                w,
                index,
                "paste_image_bitmap"@,
                uses(Op::PasteImageAsBitmap { id }),
            )
            &&& item.content_type != ContentType::Image ==> toolbar_asks(
                w,
                index,
                "paste_image_bitmap"@,
                Seq::empty(),
            )
            &&& toolbar_asks(w, index, "open_image"@, seq![bare(Op::OpenOriginalImage { id })])
            &&& toolbar_asks(w, index, "open_location"@, seq![bare(Op::OpenItemLocation { id })])
            &&& toolbar_asks(w, index, "qr_action"@, seq![bare(Op::QrAction { id })])
            &&& toolbar_asks(
                w,
                index,
                "edit"@,
                seq![bare(Op::Emit { event: ClipboardListEvent::OpenEdit(id) })],
            )
            &&& toolbar_asks(
                w,
                index,
                "toggle_favorite"@,
                seq![
                    bare(Op::ToggleFavorite { id }),
                    bare(Op::SyncList),
                    bare(Op::ReselectToggled { id }),
                ],
            )
        }),
{
    lemma_toolbar_names();
    lemma_item_names();
    lemma_names_differ();
    lemma_added(w.select(index).app.requests);
}

/// In the toolbar of a hovered card the note is edited from what it says, deleting
/// asks first, and what is done on the transfer station is about its entry.
pub proof fn law_toolbar_changes_the_hovered_item<S>(
    w: ListWorld<S>,
    index: int,
    format: String,
)
    requires
        w.list.hovered_index == Some(index),
        is_real(w.list.items, index),
    ensures
        ({
            let item = w.list.items[index];
            let selected = w.select(index);
            let hash = item.file_data.remote_hash;
            let files = item.file_data.files@;
            let pinned = exists|k: int|
                0 <= k < item.tags@.len() && (#[trigger] item.tags@[k]).uid@
                    == w.app.pinned_status_uid@;
            &&& w.choose_in_toolbar("edit_note"@, format) == selected.edit_note(
                item.id,
                Some(item.note),
            )
            &&& w.choose_in_toolbar("delete"@, format) == world(
                (ListModel {
                    confirm_dialog: Some(ConfirmModel::Single { id: item.id }),
                    ..selected.list
                }),
                selected.app,
            )
            &&& w.choose_in_toolbar("delete_transfer"@, format) == world(
                (ListModel {
                    confirm_dialog: Some(ConfirmModel::Transfer { hash }),
                    ..selected.list
                }),
                selected.app,
            )
            &&& w.choose_in_toolbar("show_tag_picker"@, format) == selected.pick_tags_hovered(
                false,
            )
            &&& toolbar_asks(
                w,
                index,
                "download_transfer"@,
                seq![bare(Op::DownloadTransfer { hash }), bare(Op::SyncList)],
            )
            &&& toolbar_asks(
                w,
                index,
                "toggle_transfer_pin"@,
                seq![
                    bare(Op::SetTransferPinned { hash, pinned: !pinned }),
                    bare(Op::SyncList),
                ],
            )
            &&& files.len() > 0 ==> toolbar_asks(
                w,
                index,
                "open_transfer_location"@,
                seq![bare(Op::OpenTransferLocation { path: files[0].path })],
            )
        }),
{
    lemma_toolbar_names();
    lemma_item_names();
    lemma_names_differ();
    lemma_added(w.select(index).app.requests);
}

/// The actions of the toolbar on several items are about the selected ones, and
/// need no hovered row.
pub proof fn law_toolbar_batches_are_about_the_selection<S>(w: ListWorld<S>, format: String)
    ensures
        ({
            let ids = w.list.selected_ids;
            &&& toolbar_asks_for_all(
                w,
                "batch_paste"@,
                pastes_all(ids, w.app.settings.copy_as_plain_text),
            )
            &&& toolbar_asks_for_all(
                w,
                "merge_selected"@,
                seq![bare(Op::MergeSelected), bare(Op::SyncList), bare(Op::RevealMerged)],
            )
            &&& toolbar_asks_for_all(
                w,
                "batch_favorite"@,
                seq![bare(Op::BatchToggleFavorite), bare(Op::SyncList), bare(Op::SelectTop)],
            )
            &&& w.choose_in_toolbar("batch_delete"@, format) == world(
                (ListModel {
                    confirm_dialog: Some(ConfirmModel::Batch { count: ids.len() }),
                    ..w.list
                }),
                w.app,
            )
            &&& w.choose_in_toolbar("batch_tag"@, format) == w.pick_tags_hovered(true)
            &&& w.choose_in_toolbar("batch_delete_transfer"@, format) == w.ask_transfer_batch()
        }),
{
    lemma_toolbar_names();
    lemma_item_names();
    lemma_names_differ();
    lemma_added(w.app.requests);
}

/// The question about several entries of the transfer station names those of the
/// selected items that are there, and is asked only where there is one.
pub proof fn law_transfer_question_names_the_selected_entries<S>(w: ListWorld<S>)
    ensures
        ({
            let hashes = transfer_hashes(w.list.items, w.list.selected_ids);
            &&& hashes.len() == 0 ==> w.ask_transfer_batch() == w
            &&& hashes.len() > 0 ==> w.ask_transfer_batch() == world(
                (ListModel {
                    confirm_dialog: Some(ConfirmModel::TransferBatch { hashes }),
                    ..w.list
                }),
                w.app,
            )
        }),
{
}

} // verus!
