//! The actions of the context menu and of the toolbar on a hovered card.

use vstd::prelude::*;

use crate::app_state::{AppState, ClipboardListEvent, Op};
use crate::clipboard_list::{world, ClipboardListView, ConfirmDialogState, ConfirmModel, ListWorld};
use crate::items::item_is_pending;
use crate::tags::{any_tag_has_uid, has_uid};
use crate::text::{begins_with, str_eq, str_starts_with};
use crate::types::{ClipboardItem, ContentType, ItemModel};

verus! {

/// What can be done with one item.
#[derive(Clone, Copy, Debug, PartialEq, Eq, Structural)]
pub enum ItemAction {
    Copy,
    Paste,
    PastePlain,
    PasteAsRgb,
    PasteAsHex,
    PasteImagePath,
    PasteFilePath,
    PasteImageBitmap,
    PasteOcr,
    OpenImage,
    OpenLocation,
    QrDetect,
    QrAction,
    EditNote,
    SetHotkey,
    RemoveHotkey,
    ToggleFavorite,
    Delete,
    Edit,
    UploadToTransfer,
    DownloadTransfer,
    DeleteTransfer,
    ToggleTransferPin,
    OpenTransferLocation,
}

/// What can be done with the selected items.
#[derive(Clone, Copy, Debug, PartialEq, Eq, Structural)]
pub enum BatchAction {
    Paste,
    Merge,
    Favorite,
    Delete,
    DeleteTransfer,
    Tag,
}

/// What a name in the context menu or in the toolbar stands for.
#[derive(Clone, Copy, Debug, PartialEq, Eq, Structural)]
pub enum CardAction {
    Item(ItemAction),
    Batch(BatchAction),
    ShowTagPicker,
    Unknown,
}

/// What a name stands for among the actions on pasting and opening.
pub open spec fn use_action(name: Seq<char>) -> Option<ItemAction> {
    if name == "copy"@ {
        Some(ItemAction::Copy)
    } else if name == "paste_plain"@ {
        Some(ItemAction::PastePlain)
    } else if name == "paste_image_bitmap"@ {
        Some(ItemAction::PasteImageBitmap)
    } else if name == "open_image"@ {
        Some(ItemAction::OpenImage)
    } else if name == "open_location"@ {
        Some(ItemAction::OpenLocation)
    } else {
        None
    }
}

/// What a name stands for among the actions that change an item.
pub open spec fn change_action(name: Seq<char>) -> Option<ItemAction> {
    if name == "edit_note"@ {
        Some(ItemAction::EditNote)
    } else if name == "toggle_favorite"@ {
        Some(ItemAction::ToggleFavorite)
    } else if name == "delete"@ {
        Some(ItemAction::Delete)
    } else if name == "edit"@ {
        Some(ItemAction::Edit)
    } else if name == "download_transfer"@ {
        Some(ItemAction::DownloadTransfer)
    } else if name == "delete_transfer"@ {
        Some(ItemAction::DeleteTransfer)
    } else if name == "toggle_transfer_pin"@ {
        Some(ItemAction::ToggleTransferPin)
    } else if name == "open_transfer_location"@ {
        Some(ItemAction::OpenTransferLocation)
    } else {
        None
    }
}

/// What a name stands for among the actions that only the context menu has.
pub open spec fn menu_only_action(name: Seq<char>) -> Option<ItemAction> {
    if name == "paste"@ {
        Some(ItemAction::Paste)
    } else if name == "paste_as_rgb"@ {
        Some(ItemAction::PasteAsRgb)
    } else if name == "paste_as_hex"@ {
        Some(ItemAction::PasteAsHex)
    } else if name == "paste_image_path"@ {
        Some(ItemAction::PasteImagePath)
    } else if name == "paste_file_path"@ {
        Some(ItemAction::PasteFilePath)
    } else if name == "paste_ocr"@ {
        Some(ItemAction::PasteOcr)
    } else if name == "qr_detect"@ {
        Some(ItemAction::QrDetect)
    } else if name == "set_hotkey"@ {
        Some(ItemAction::SetHotkey)
    } else if name == "remove_hotkey"@ {
        Some(ItemAction::RemoveHotkey)
    } else if name == "upload_to_transfer"@ {
        Some(ItemAction::UploadToTransfer)
    } else {
        None
    }
}

/// What a name stands for among the actions on the selected items.
pub open spec fn batch_action(name: Seq<char>) -> Option<BatchAction> {
    if name == "batch_paste"@ {
        Some(BatchAction::Paste)
    } else if name == "merge_selected"@ {
        Some(BatchAction::Merge)
    } else if name == "batch_favorite"@ {
        Some(BatchAction::Favorite)
    } else if name == "batch_delete"@ {
        Some(BatchAction::Delete)
    } else if name == "batch_delete_transfer"@ {
        Some(BatchAction::DeleteTransfer)
    } else {
        None
    }
}

/// What a name stands for in both places.
pub open spec fn shared_action(name: Seq<char>) -> CardAction {
    if use_action(name) is Some {
        CardAction::Item(use_action(name).unwrap())
    } else if change_action(name) is Some {
        CardAction::Item(change_action(name).unwrap())
    } else if batch_action(name) is Some {
        CardAction::Batch(batch_action(name).unwrap())
    } else if name == "show_tag_picker"@ {
        CardAction::ShowTagPicker
    } else {
        CardAction::Unknown
    }
}

/// What a name stands for in the context menu.
pub open spec fn menu_action(name: Seq<char>) -> CardAction {
    match menu_only_action(name) {
        Some(action) => CardAction::Item(action),
        None => shared_action(name),
    }
}

/// What a name stands for in the toolbar.
pub open spec fn toolbar_action(name: Seq<char>) -> CardAction {
    if name == "qr_action"@ {
        CardAction::Item(ItemAction::QrAction)
    } else if name == "batch_tag"@ {
        CardAction::Batch(BatchAction::Tag)
    } else {
        shared_action(name)
    }
}

/// Finds what a name stands for among the actions on pasting and opening.
fn parse_use_action(name: &str) -> (r: Option<ItemAction>)
    ensures
        r == use_action(name@),
{
    if str_eq(name, "copy") {
        Some(ItemAction::Copy)
    } else if str_eq(name, "paste_plain") {
        Some(ItemAction::PastePlain)
    } else if str_eq(name, "paste_image_bitmap") {
        Some(ItemAction::PasteImageBitmap)
    } else if str_eq(name, "open_image") {
        Some(ItemAction::OpenImage)
    } else if str_eq(name, "open_location") {
        Some(ItemAction::OpenLocation)
    } else {
        None
    }
}

/// Finds what a name stands for among the actions that change an item.
fn parse_change_action(name: &str) -> (r: Option<ItemAction>)
    ensures
        r == change_action(name@),
{
    if str_eq(name, "edit_note") {
        Some(ItemAction::EditNote)
    } else if str_eq(name, "toggle_favorite") {
        Some(ItemAction::ToggleFavorite)
    } else if str_eq(name, "delete") {
        Some(ItemAction::Delete)
    } else if str_eq(name, "edit") {
        Some(ItemAction::Edit)
    } else if str_eq(name, "download_transfer") {
        Some(ItemAction::DownloadTransfer)
    } else if str_eq(name, "delete_transfer") {
        Some(ItemAction::DeleteTransfer)
    } else if str_eq(name, "toggle_transfer_pin") {
        Some(ItemAction::ToggleTransferPin)
    } else if str_eq(name, "open_transfer_location") {
        Some(ItemAction::OpenTransferLocation)
    } else {
        None
    }
}

/// Finds what a name stands for among the actions that only the context menu has.
fn parse_menu_only_action(name: &str) -> (r: Option<ItemAction>)
    ensures
        r == menu_only_action(name@),
{
    if str_eq(name, "paste") {
        Some(ItemAction::Paste)
    } else if str_eq(name, "paste_as_rgb") {
        Some(ItemAction::PasteAsRgb)
    } else if str_eq(name, "paste_as_hex") {
        Some(ItemAction::PasteAsHex)
    } else if str_eq(name, "paste_image_path") {
        Some(ItemAction::PasteImagePath)
    } else if str_eq(name, "paste_file_path") {
        Some(ItemAction::PasteFilePath)
    } else if str_eq(name, "paste_ocr") {
        Some(ItemAction::PasteOcr)
    } else if str_eq(name, "qr_detect") {
        Some(ItemAction::QrDetect)
    } else if str_eq(name, "set_hotkey") {
        Some(ItemAction::SetHotkey)
    } else if str_eq(name, "remove_hotkey") {
        Some(ItemAction::RemoveHotkey)
    } else if str_eq(name, "upload_to_transfer") {
        Some(ItemAction::UploadToTransfer)
    } else {
        None
    }
}

/// Finds what a name stands for among the actions on the selected items.
fn parse_batch_action(name: &str) -> (r: Option<BatchAction>)
    ensures
        r == batch_action(name@),
{
    if str_eq(name, "batch_paste") {
        Some(BatchAction::Paste)
    } else if str_eq(name, "merge_selected") {
        Some(BatchAction::Merge)
    } else if str_eq(name, "batch_favorite") {
        Some(BatchAction::Favorite)
    } else if str_eq(name, "batch_delete") {
        Some(BatchAction::Delete)
    } else if str_eq(name, "batch_delete_transfer") {
        Some(BatchAction::DeleteTransfer)
    } else {
        None
    }
}

impl CardAction {
    /// Finds what a name stands for in both places.
    fn from_shared_name(name: &str) -> (r: Self)
        ensures
            r == shared_action(name@),
    {
        if let Some(action) = parse_use_action(name) {
            return CardAction::Item(action);
        }
        if let Some(action) = parse_change_action(name) {
            return CardAction::Item(action);
        }
        if let Some(action) = parse_batch_action(name) {
            return CardAction::Batch(action);
        }
        if str_eq(name, "show_tag_picker") {
            CardAction::ShowTagPicker
        } else {
            CardAction::Unknown
        }
    }

    /// Finds what a name stands for in the context menu.
    pub fn from_menu_name(name: &str) -> (r: Self)
        ensures
            r == menu_action(name@),
    {
        match parse_menu_only_action(name) {
            Some(action) => CardAction::Item(action),
            None => CardAction::from_shared_name(name),
        }
    }

    /// Finds what a name stands for in the toolbar.
    pub fn from_toolbar_name(name: &str) -> (r: Self)
        ensures
            r == toolbar_action(name@),
    {
        if str_eq(name, "qr_action") {
            CardAction::Item(ItemAction::QrAction)
        } else if str_eq(name, "batch_tag") {
            CardAction::Batch(BatchAction::Tag)
        } else {
            CardAction::from_shared_name(name)
        }
    }
}

/// What an action has to know of the item that it is about.
#[derive(Debug, Clone, PartialEq, Eq)]
pub struct ActionTarget {
    pub id: i64,
    /// The text that the editor of its note starts from, if any.
    pub note: Option<String>,
    /// Name of the item's content on the transfer station.
    pub remote_hash: String,
    /// Path of the item's first file.
    pub first_path: Option<String>,
    /// Whether the item is pinned on the transfer station.
    pub pinned: bool,
}

/// What an action has to know of an item.
pub open spec fn action_target(item: ItemModel, pinned_uid: Seq<char>) -> ActionTarget {
    ActionTarget {
        id: item.id,
        note: Some(item.note),
        remote_hash: item.file_data.remote_hash,
        first_path: if item.file_data.files.len() > 0 {
            Some(item.file_data.files[0].path)
        } else {
            None
        },
        pinned: has_uid(item.tags, pinned_uid),
    }
}

impl ActionTarget {
    /// What an action has to know of an item.
    pub fn of(item: &ClipboardItem, pinned_uid: &str) -> (r: Self)
        ensures
            r == action_target(item@, pinned_uid@),
    {
        let first_path = if item.file_data.files.len() > 0 {
            Some(item.file_data.files[0].path.clone())
        } else {
            None
        };
        ActionTarget {
            id: item.id,
            note: Some(item.note.clone()),
            remote_hash: item.file_data.remote_hash.clone(),
            first_path,
            pinned: any_tag_has_uid(item.tags.as_slice(), pinned_uid),
        }
    }
}

/// How the list is brought up to date after a piece of work.
#[derive(Clone, Copy, Debug, PartialEq, Eq, Structural)]
pub enum AfterWork {
    Nothing,
    Sync,
    SyncForUsage,
}

/// The piece of work that an action on one item comes down to, where it is no
/// more than that.
pub open spec fn item_work(
    action: ItemAction,
    target: ActionTarget,
    plain: bool,
) -> Option<(Op, AfterWork)> {
    let id = target.id;
    let hash = target.remote_hash;
    match action {
        ItemAction::Copy => Some((Op::CopyItem { id, plain }, AfterWork::SyncForUsage)),
        ItemAction::Paste => Some((Op::PasteItem { id, plain }, AfterWork::SyncForUsage)),
        ItemAction::PastePlain => Some((Op::PasteItemPlain { id }, AfterWork::SyncForUsage)),
        ItemAction::PasteAsRgb => Some((Op::PasteAsRgb { id }, AfterWork::SyncForUsage)),
        ItemAction::PasteAsHex => Some((Op::PasteAsHex { id }, AfterWork::SyncForUsage)),
        ItemAction::PasteImagePath => Some((Op::PasteImagePath { id }, AfterWork::SyncForUsage)),
        ItemAction::PasteFilePath => Some((Op::PasteFilePath { id }, AfterWork::SyncForUsage)),
        ItemAction::PasteImageBitmap => Some(
            (Op::PasteImageAsBitmap { id }, AfterWork::SyncForUsage),
        ),
        ItemAction::PasteOcr => Some((Op::PasteOcr { id }, AfterWork::SyncForUsage)),
        ItemAction::OpenImage => Some((Op::OpenOriginalImage { id }, AfterWork::Nothing)),
        ItemAction::OpenLocation => Some((Op::OpenItemLocation { id }, AfterWork::Nothing)),
        ItemAction::QrDetect => Some((Op::QrDetect { id }, AfterWork::Sync)),
        ItemAction::QrAction => Some((Op::QrAction { id }, AfterWork::Nothing)),
        ItemAction::Edit => Some(
            (Op::Emit { event: ClipboardListEvent::OpenEdit(id) }, AfterWork::Nothing),
        ),
        ItemAction::UploadToTransfer => Some((Op::UploadToTransfer { id }, AfterWork::Sync)),
        ItemAction::DownloadTransfer => Some((Op::DownloadTransfer { hash }, AfterWork::Sync)),
        ItemAction::ToggleTransferPin => Some(
            (Op::SetTransferPinned { hash, pinned: !target.pinned }, AfterWork::Sync),
        ),
        ItemAction::OpenTransferLocation => match target.first_path {
            Some(path) => Some((Op::OpenTransferLocation { path }, AfterWork::Nothing)),
            None => None,
        },
        _ => None,
    }
}

/// Finds the piece of work that an action on one item comes down to.
fn find_item_work(action: ItemAction, target: &ActionTarget, plain: bool) -> (r: Option<
    (Op, AfterWork),
>)
    ensures
        r == item_work(action, *target, plain),
{
    let id = target.id;
    match action {
        ItemAction::Copy => Some((Op::CopyItem { id, plain }, AfterWork::SyncForUsage)),
        ItemAction::Paste => Some((Op::PasteItem { id, plain }, AfterWork::SyncForUsage)),
        ItemAction::PastePlain => Some((Op::PasteItemPlain { id }, AfterWork::SyncForUsage)),
        ItemAction::PasteAsRgb => Some((Op::PasteAsRgb { id }, AfterWork::SyncForUsage)),
        ItemAction::PasteAsHex => Some((Op::PasteAsHex { id }, AfterWork::SyncForUsage)),
        ItemAction::PasteImagePath => Some((Op::PasteImagePath { id }, AfterWork::SyncForUsage)),
        ItemAction::PasteFilePath => Some((Op::PasteFilePath { id }, AfterWork::SyncForUsage)),
        ItemAction::PasteImageBitmap => Some(
            (Op::PasteImageAsBitmap { id }, AfterWork::SyncForUsage),
        ),
        ItemAction::PasteOcr => Some((Op::PasteOcr { id }, AfterWork::SyncForUsage)),
        ItemAction::OpenImage => Some((Op::OpenOriginalImage { id }, AfterWork::Nothing)),
        ItemAction::OpenLocation => Some((Op::OpenItemLocation { id }, AfterWork::Nothing)),
        ItemAction::QrDetect => Some((Op::QrDetect { id }, AfterWork::Sync)),
        ItemAction::QrAction => Some((Op::QrAction { id }, AfterWork::Nothing)),
        ItemAction::Edit => Some(
            (Op::Emit { event: ClipboardListEvent::OpenEdit(id) }, AfterWork::Nothing),
        ),
        ItemAction::UploadToTransfer => Some((Op::UploadToTransfer { id }, AfterWork::Sync)),
        ItemAction::DownloadTransfer => Some(
            (Op::DownloadTransfer { hash: target.remote_hash.clone() }, AfterWork::Sync),
        ),
        ItemAction::ToggleTransferPin => Some(
            (
                Op::SetTransferPinned {
                    hash: target.remote_hash.clone(),
                    pinned: !target.pinned,
                },
                AfterWork::Sync,
            ),
        ),
        ItemAction::OpenTransferLocation => match &target.first_path {
            Some(path) => Some(
                (Op::OpenTransferLocation { path: path.clone() }, AfterWork::Nothing),
            ),
            None => None,
        },
        _ => None,
    }
}

impl<S> ListWorld<S> {
    /// A piece of work asked for, and the list brought up to date after it.
    pub open spec fn work(self, op: Op, after: AfterWork) -> Self {
        match after {
            AfterWork::Nothing => self.ask(op),
            AfterWork::Sync => self.change_items(op),
            AfterWork::SyncForUsage => self.use_items(op),
        }
    }

    /// An action on one item.
    pub open spec fn act(
        self,
        action: ItemAction,
        target: ActionTarget,
        default_format: String,
    ) -> Self {
        let id = target.id;
        match item_work(action, target, self.app.settings.copy_as_plain_text) {
            Some((op, after)) => self.work(op, after),
            None => match action {
                ItemAction::EditNote => self.edit_note(id, target.note),
                ItemAction::SetHotkey => self.record_hotkey(id, default_format),
                ItemAction::RemoveHotkey => self.ask(Op::ClearItemHotkey { id }).change_items(
                    Op::UnregisterItemHotkey { id },
                ),
                ItemAction::ToggleFavorite => self.toggle_favorite(id),
                ItemAction::Delete => world(
                    self.list.asking(ConfirmModel::Single { id }),
                    self.app,
                ),
                ItemAction::DeleteTransfer => world(
                    self.list.asking(ConfirmModel::Transfer { hash: target.remote_hash }),
                    self.app,
                ),
                _ => self,
            },
        }
    }

    /// The question asked whether to delete the selected entries of the transfer
    /// station.
    pub open spec fn ask_transfer_batch(self) -> Self {
        let hashes = crate::list_panels::transfer_hashes(
            self.list.items,
            self.list.selected_ids,
        );
        if hashes.len() == 0 {
            self
        } else {
            world(self.list.asking(ConfirmModel::TransferBatch { hashes }), self.app)
        }
    }

    /// An action on the selected items.
    pub open spec fn act_on_selected(self, action: BatchAction) -> Self {
        match action {
            BatchAction::Paste => self.paste_batch(self.app.settings.copy_as_plain_text),
            BatchAction::Merge => self.change_items(Op::MergeSelected).ask(Op::RevealMerged),
            BatchAction::Favorite => self.toggle_favorite_batch(),
            BatchAction::Delete => world(
                self.list.asking(ConfirmModel::Batch { count: self.list.selected_ids.len() }),
                self.app,
            ),
            BatchAction::DeleteTransfer => self.ask_transfer_batch(),
            BatchAction::Tag => self.pick_tags_hovered(true),
        }
    }

    /// The context menu closed.
    pub open spec fn hide_menu(self) -> Self {
        world(self.list.menu_hidden(), self.app)
    }

    /// An action chosen in the context menu, which closes. A note is edited from
    /// nothing there.
    pub open spec fn choose_in_menu(self, action: CardAction, default_format: String) -> Self {
        match action {
            CardAction::Item(action) => match self.list.context_menu_item {
                Some(item) => self.hide_menu().act(
                    action,
                    ActionTarget {
                        note: None,
                        ..action_target(item, self.app.pinned_status_uid@)
                    },
                    default_format,
                ),
                None => self.hide_menu(),
            },
            CardAction::Batch(action) => self.hide_menu().act_on_selected(action),
            CardAction::ShowTagPicker => self.pick_tags_from_menu().hide_menu(),
            CardAction::Unknown => self.hide_menu(),
        }
    }

    /// An action chosen in the toolbar of a hovered card. The action on one item
    /// makes that item the selected one first; a bitmap is pasted only of an
    /// image. A note is edited from what it says. Nothing is done to a placeholder.
    pub open spec fn choose_in_toolbar(self, name: Seq<char>, default_format: String) -> Self {
        if begins_with(name, "batch_"@) || name == "merge_selected"@ {
            match toolbar_action(name) {
                CardAction::Batch(action) => self.act_on_selected(action),
                _ => self,
            }
        } else {
            match self.list.hovered_index {
                Some(i) => if self.list.can_select(i) {
                    self.select(i).choose_for_row(i, toolbar_action(name), default_format)
                } else {
                    self
                },
                None => self,
            }
        }
    }

    /// An action on the item of a row.
    pub open spec fn choose_for_row(
        self,
        i: int,
        action: CardAction,
        default_format: String,
    ) -> Self {
        let item = self.list.items[i];
        match action {
            CardAction::Item(action) => if action == ItemAction::PasteImageBitmap
                && item.content_type != ContentType::Image {
                self
            } else {
                self.act(
                    action,
                    action_target(item@, self.app.pinned_status_uid@),
                    default_format,
                )
            },
            CardAction::ShowTagPicker => self.pick_tags_hovered(false),
            _ => self,
        }
    }
}

impl<S> ClipboardListView<S> {
    /// Asks for a piece of work, and for the list to be brought up to date after
    /// it.
    fn request_work(&self, op: Op, after: AfterWork, app: &mut AppState)
        ensures
            world(self@, final(app)@) == world(self@, old(app)@).work(op, after),
    {
        app.request(op);
        match after {
            AfterWork::Nothing => {},
            AfterWork::Sync => app.request(Op::SyncList),
            AfterWork::SyncForUsage => app.request(Op::SyncListForUsage),
        }
    }

    /// Does an action on one item.
    fn act_on_item(
        &mut self,
        action: ItemAction,
        target: ActionTarget,
        default_format: String,
        app: &mut AppState,
    )
        requires
            old(self)@.wf(),
        ensures
            world(final(self)@, final(app)@) == world(old(self)@, old(app)@).act(
                action,
                target,
                default_format,
            ),
            final(self)@.wf(),
    {
        let plain = app.settings.copy_as_plain_text;
        if let Some((op, after)) = find_item_work(action, &target, plain) {
            self.request_work(op, after, app);
            return;
        }
        let id = target.id;
        match action {
            ItemAction::EditNote => self.start_note_edit(id, target.note, app),
            ItemAction::SetHotkey => self.start_hotkey_recording(id, default_format, app),
            ItemAction::RemoveHotkey => {
                app.request(Op::ClearItemHotkey { id });
                app.request(Op::UnregisterItemHotkey { id });
                app.request(Op::SyncList);
            },
            ItemAction::ToggleFavorite => Self::request_favorite(id, app),
            ItemAction::Delete => {
                self.confirm_dialog = Some(ConfirmDialogState::Single { id });
            },
            ItemAction::DeleteTransfer => {
                self.confirm_dialog = Some(
                    ConfirmDialogState::Transfer { hash: target.remote_hash },
                );
            },
            _ => {},
        }
    }

    /// Does an action on the selected items.
    fn act_on_selected(&mut self, action: BatchAction, app: &mut AppState)
        requires
            old(self)@.wf(),
        ensures
            world(final(self)@, final(app)@) == world(old(self)@, old(app)@).act_on_selected(
                action,
            ),
            final(self)@.wf(),
    {
        match action {
            BatchAction::Paste => {
                let plain = app.settings.copy_as_plain_text;
                self.paste_batch(plain, app);
            },
            BatchAction::Merge => {
                app.request(Op::MergeSelected);
                app.request(Op::SyncList);
                app.request(Op::RevealMerged);
            },
            BatchAction::Favorite => Self::request_batch_favorite(app),
            BatchAction::Delete => {
                self.confirm_dialog = Some(
                    ConfirmDialogState::Batch { count: self.selected_ids.len() },
                );
            },
            BatchAction::DeleteTransfer => self.show_transfer_batch_delete_confirm(),
            BatchAction::Tag => self.show_hover_tag_picker(true, app),
        }
    }

    /// Does an action chosen in the context menu and closes the menu. The editor of
    /// a note starts empty from there, and with the note from the toolbar.
    /// `default_format` is the paste format of a hotkey for an item that has none.
    pub fn handle_menu_action(&mut self, action: &str, default_format: String, app: &mut AppState)
        requires
            old(self)@.wf(),
        ensures
            world(final(self)@, final(app)@) == world(old(self)@, old(app)@).choose_in_menu(
                menu_action(action@),
                default_format,
            ),
            final(self)@.wf(),
    {
        match CardAction::from_menu_name(action) {
            CardAction::Item(action) => {
                let target = match &self.context_menu_item {
                    Some(item) => Some(ActionTarget::of(item, app.pinned_status_uid.as_str())),
                    None => None,
                };
                self.hide_context_menu();
                if let Some(mut target) = target {
                    target.note = None;
                    self.act_on_item(action, target, default_format, app);
                }
            },
            CardAction::Batch(action) => {
                self.hide_context_menu();
                self.act_on_selected(action, app);
            },
            CardAction::ShowTagPicker => {
                self.show_context_menu_tag_picker(app);
                self.hide_context_menu();
            },
            CardAction::Unknown => self.hide_context_menu(),
        }
    }

    /// Does an action on the item of a row.
    fn act_on_row(
        &mut self,
        index: usize,
        action: CardAction,
        default_format: String,
        app: &mut AppState,
    )
        requires
            old(self)@.wf(),
            index < old(self)@.items.len(),
        ensures
            world(final(self)@, final(app)@) == world(old(self)@, old(app)@).choose_for_row(
                index as int,
                action,
                default_format,
            ),
            final(self)@.wf(),
    {
        match action {
            CardAction::Item(action) => {
                if action == ItemAction::PasteImageBitmap && self.items[index].content_type
                    != ContentType::Image {
                    return;
                }
                let target = ActionTarget::of(
                    &self.items[index],
                    app.pinned_status_uid.as_str(),
                );
                self.act_on_item(action, target, default_format, app);
            },
            CardAction::ShowTagPicker => self.show_hover_tag_picker(false, app),
            _ => {},
        }
    }

    /// Does an action chosen in the toolbar of a hovered card that is no placeholder.
    /// `default_format` is the paste format of a hotkey for an item that has none.
    pub fn handle_toolbar_action(
        &mut self,
        action: &str,
        default_format: String,
        app: &mut AppState,
    )
        requires
            old(self)@.wf(),
        ensures
            world(final(self)@, final(app)@) == world(old(self)@, old(app)@).choose_in_toolbar(
                action@,
                default_format,
            ),
            final(self)@.wf(),
    {
        let chosen = CardAction::from_toolbar_name(action);
        if str_starts_with(action, "batch_") || str_eq(action, "merge_selected") {
            if let CardAction::Batch(batch) = chosen {
                self.act_on_selected(batch, app);
            }
            return;
        }
        if let Some(index) = self.hovered_index {
            if index < self.items.len() && !item_is_pending(&self.items[index]) {
                self.select_index_without_scroll(index, app);
                self.act_on_row(index, chosen, default_format, app);
            }
        }
    }
}

} // verus!
