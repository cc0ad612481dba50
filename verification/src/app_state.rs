//! The application state as the views see it, and the work they ask for.

use vstd::prelude::*;

use crate::filter_bar::FilterType;
use crate::ids::copy_ids;
use crate::text::{contains_name, holds_name};
use crate::theme::ClippiTheme;
use crate::types::{ClipboardItem, PendingImageView, TagInfo};

verus! {

/// Where a row ends up when the list scrolls to it.
#[derive(Clone, Copy, Debug, PartialEq, Eq, Structural)]
pub enum ScrollStrategy {
    Top,
    Bottom,
}

/// What the clipboard list tells the window that holds it.
#[derive(Clone, Copy, Debug, PartialEq, Eq, Structural)]
pub enum ClipboardListEvent {
    /// Open the edit page for an item.
    OpenEdit(i64),
    /// Hide the window.
    RequestHide,
}

/// One piece of work that the surrounding program does for a view.
#[derive(Debug, Clone, PartialEq, Eq)]
pub enum Op {
    // Pasting and copying.
    CopyItem { id: i64, plain: bool },
    PasteItem { id: i64, plain: bool },
    PasteItemPlain { id: i64 },
    PasteImageAsBitmap { id: i64 },
    PasteAsRgb { id: i64 },
    PasteAsHex { id: i64 },
    PasteImagePath { id: i64 },
    PasteFilePath { id: i64 },
    PasteOcr { id: i64 },
    /// Paste the items of the request, in its order.
    BatchPaste { plain: bool },
    // Opening things.
    OpenOriginalImage { id: i64 },
    OpenItemLocation { id: i64 },
    QrDetect { id: i64 },
    QrAction { id: i64 },
    // Changing items.
    ToggleFavorite { id: i64 },
    /// Toggle the favorite mark of every selected item.
    BatchToggleFavorite,
    /// Merge the selected items; the id of the new item comes back.
    MergeSelected,
    UpdateNote { id: i64, text: String },
    DeleteItem { id: i64 },
    /// Delete every selected item.
    BatchDelete,
    /// Make an item the one on the edit page, and say whether that went well.
    StartEditItem { id: i64 },
    CancelEdit,
    ClearItemHotkey { id: i64 },
    UnregisterItemHotkey { id: i64 },
    // The transfer station.
    UploadToTransfer { id: i64 },
    DownloadTransfer { hash: String },
    SetTransferPinned { hash: String, pinned: bool },
    OpenTransferLocation { path: String },
    DeleteTransferEntry { hash: String },
    /// Delete the entries of the transfer station that the request names.
    DeleteTransferEntries,
    // Tags.
    /// Add a tag to the items of the request.
    BatchAddTag { tag_id: i64 },
    /// Remove a tag from the items of the request.
    BatchRemoveTag { tag_id: i64 },
    ToggleItemTag { item_id: i64, tag_id: i64 },
    CreateTag { name: String },
    /// Remove every tag from the items of the request.
    ClearTagsForItems,
    ClearItemTags { id: i64 },
    TogglePinnedTag { tag_id: i64 },
    MovePinnedTag { tag_id: i64, delta: isize },
    /// Delete a tag, and say whether that went well.
    DeleteTag { tag_id: i64 },
    RefreshTagList,
    /// Fill the editor of a tag's name.
    FillTagEditor { name: String },
    // Recording hotkeys.
    StartItemHotkeyRecording { id: i64, format: String },
    CancelCustomRecording,
    /// Confirm the recorded hotkey if there is one, and say how that went.
    ConfirmHotkeyRecording,
    UpdateRecordingFormat { format: String },
    StartPasteShortcutRecording { app_name: String },
    CancelPasteShortcutRecording,
    // Filters and settings.
    ToggleTypeFilter { kind: FilterType },
    ToggleTagFilter { tag_id: i64 },
    CycleTypeFilter { delta: isize },
    SetKeyword { keyword: String },
    SaveSettings,
    ReloadItems,
    /// Let no hotkey work in the apps that the request names.
    SetHotkeyBlacklist,
    /// Take nothing over from the apps that the request names.
    SetClipboardBlacklist,
    /// Clear the history, and say whether that was accepted.
    RequestClearData { include_favorites: bool, include_tagged: bool },
    /// Take over the system's clipboard key or give it back, and say how that
    /// went.
    SetWinVTakeover { enabled: bool },
    // The list itself.
    /// Replace the items of the list by the visible items.
    ResetList,
    /// Bring the list up to date, keeping its interaction state.
    SyncList,
    /// Bring the list up to date after items were used.
    SyncListForUsage,
    /// Let the list take over its settings.
    RefreshListSettings { scroll_to_top: bool },
    /// Keep a toggled item active when favorites come first.
    ReselectToggled { id: i64 },
    /// Make the first row active when favorites come first.
    SelectTop,
    /// Show the item that a merge has made, if it made one.
    RevealMerged,
    ScrollTo { index: usize, strategy: ScrollStrategy },
    /// Drop the images that the list has cached.
    ReleaseImages,
    /// Fill the note editor, with nothing where there is no text, and give it the
    /// focus.
    FillNoteEditor { text: Option<String> },
    FocusList,
    FocusSearch,
    ClearSearchText,
    Emit { event: ClipboardListEvent },
    // The window.
    HideWindow,
    /// Show a short message.
    ShowToast { message: String },
    SetWindowPinned { pinned: bool },
    SetTitlebarPinned { pinned: bool },
    /// Paint in a theme what the views here do not paint themselves.
    ApplyTheme { theme: ClippiTheme },
    CloseBackendPanel,
    StartUpdateDownload,
    RestartForUpdate,
}

/// A piece of work, with the items or the names that it is about where there
/// are several.
#[derive(Debug, Clone, PartialEq, Eq)]
pub struct Request {
    pub op: Op,
    pub ids: Vec<i64>,
    pub names: Vec<String>,
}

/// The contents of a `Request`.
#[verifier::ext_equal]
pub ghost struct RequestModel {
    pub op: Op,
    pub ids: Seq<i64>,
    pub names: Seq<String>,
}

impl View for Request {
    type V = RequestModel;

    open spec fn view(&self) -> RequestModel {
        RequestModel { op: self.op, ids: self.ids@, names: self.names@ }
    }
}

/// A button of the filter strip for a type of content.
#[derive(Debug, Clone, PartialEq, Eq)]
pub struct TypeFilterEntry {
    pub key: String,
    pub visible: bool,
}

/// The settings that the views read.
#[derive(Debug, Clone, PartialEq, Eq)]
pub struct Settings {
    pub card_height_mode: String,
    pub paste_click_mode: String,
    pub auto_scroll_to_top: bool,
    pub search_favorites_first: bool,
    pub sort_by_created: bool,
    pub copy_as_plain_text: bool,
    pub type_filter_config: Vec<TypeFilterEntry>,
    pub pinned_tag_ids: Vec<i64>,
}

/// The contents of the settings.
#[verifier::ext_equal]
pub ghost struct SettingsModel {
    pub card_height_mode: String,
    pub paste_click_mode: String,
    pub auto_scroll_to_top: bool,
    pub search_favorites_first: bool,
    pub sort_by_created: bool,
    pub copy_as_plain_text: bool,
    pub type_filter_config: Seq<TypeFilterEntry>,
    pub pinned_tag_ids: Seq<i64>,
}

impl View for Settings {
    type V = SettingsModel;

    open spec fn view(&self) -> SettingsModel {
        SettingsModel {
            card_height_mode: self.card_height_mode,
            paste_click_mode: self.paste_click_mode,
            auto_scroll_to_top: self.auto_scroll_to_top,
            search_favorites_first: self.search_favorites_first,
            sort_by_created: self.sort_by_created,
            copy_as_plain_text: self.copy_as_plain_text,
            type_filter_config: self.type_filter_config@,
            pinned_tag_ids: self.pinned_tag_ids@,
        }
    }
}

/// The filters that are applied to the list.
#[derive(Debug, Clone, PartialEq, Eq)]
pub struct Filters {
    /// Keys of the content types that are filtered for.
    pub active_types: Vec<String>,
    pub tag_ids: Vec<i64>,
    /// Whether a search keyword is set.
    pub keyword_set: bool,
    /// Whether only favorites are shown.
    pub favorites_only: bool,
}

/// The contents of the filters.
#[verifier::ext_equal]
pub ghost struct FiltersModel {
    pub active_types: Seq<String>,
    pub tag_ids: Seq<i64>,
    pub keyword_set: bool,
    pub favorites_only: bool,
}

impl View for Filters {
    type V = FiltersModel;

    open spec fn view(&self) -> FiltersModel {
        FiltersModel {
            active_types: self.active_types@,
            tag_ids: self.tag_ids@,
            keyword_set: self.keyword_set,
            favorites_only: self.favorites_only,
        }
    }
}

impl Filters {
    /// Whether the list is filtered for a content type.
    pub fn is_type_active(&self, key: &str) -> (r: bool)
        ensures
            r == holds_name(self@.active_types, key@),
    {
        contains_name(self.active_types.as_slice(), key)
    }
}

/// The part of the application state that the views read and change.
#[derive(Debug, Clone, PartialEq, Eq)]
pub struct AppState {
    /// Every item that is loaded, visible or not.
    pub items: Vec<ClipboardItem>,
    pub selected_ids: Vec<i64>,
    pub pending_images: Vec<PendingImageView>,
    pub tags: Vec<TagInfo>,
    pub settings: Settings,
    pub filters: Filters,
    /// Whether the list shows the transfer station.
    pub transfer_filter_active: bool,
    /// Whether a recorded hotkey waits for its confirmation.
    pub pending_single_hotkey: bool,
    /// Paths of the files that are being uploaded.
    pub pending_transfer_uploads: Vec<String>,
    /// Uid of the tag that marks the pinned entries of the transfer station.
    pub pinned_status_uid: String,
    /// Whether the selected items can be merged into one.
    pub can_merge_selected: bool,
    /// Items that were used since the list was last brought up to date.
    pub usage_touched: Vec<i64>,
    /// Whether that use can only be shown by a full reload.
    pub usage_force_reload: bool,
    /// The work that was asked for, oldest first.
    pub requests: Vec<Request>,
}

/// The contents of the application state.
#[verifier::ext_equal]
pub ghost struct AppModel {
    pub items: Seq<ClipboardItem>,
    pub selected_ids: Seq<i64>,
    pub pending_images: Seq<PendingImageView>,
    pub tags: Seq<TagInfo>,
    pub settings: SettingsModel,
    pub filters: FiltersModel,
    pub transfer_filter_active: bool,
    pub pending_single_hotkey: bool,
    pub pending_transfer_uploads: Seq<String>,
    pub pinned_status_uid: String,
    pub can_merge_selected: bool,
    pub usage_touched: Seq<i64>,
    pub usage_force_reload: bool,
    pub requests: Seq<RequestModel>,
}

impl View for AppState {
    type V = AppModel;

    open spec fn view(&self) -> AppModel {
        AppModel {
            items: self.items@,
            selected_ids: self.selected_ids@,
            pending_images: self.pending_images@,
            tags: self.tags@,
            settings: self.settings@,
            filters: self.filters@,
            transfer_filter_active: self.transfer_filter_active,
            pending_single_hotkey: self.pending_single_hotkey,
            pending_transfer_uploads: self.pending_transfer_uploads@,
            pinned_status_uid: self.pinned_status_uid,
            can_merge_selected: self.can_merge_selected,
            usage_touched: self.usage_touched@,
            usage_force_reload: self.usage_force_reload,
            requests: self.requests@.map_values(|r: Request| r@),
        }
    }
}

impl AppModel {
    /// The same state with other items selected.
    pub open spec fn selecting(self, ids: Seq<i64>) -> Self {
        AppModel { selected_ids: ids, ..self }
    }

    /// The same state with one more piece of work asked for.
    pub open spec fn asking(self, op: Op) -> Self {
        self.asking_for(op, Seq::empty())
    }

    /// The same state with one more piece of work asked for, about `ids`.
    pub open spec fn asking_for(self, op: Op, ids: Seq<i64>) -> Self {
        self.queueing(RequestModel { op, ids, names: Seq::empty() })
    }

    /// The same state with one more piece of work asked for, about `names`.
    pub open spec fn asking_about(self, op: Op, names: Seq<String>) -> Self {
        self.queueing(RequestModel { op, ids: Seq::empty(), names })
    }

    /// The same state with one more request.
    pub open spec fn queueing(self, request: RequestModel) -> Self {
        AppModel { requests: self.requests.push(request), ..self }
    }

    /// The same state with the news of used items taken out.
    pub open spec fn usage_taken(self) -> Self {
        AppModel { usage_touched: Seq::empty(), usage_force_reload: false, ..self }
    }

    /// Whether a search puts favorites before the other items.
    pub open spec fn favorites_first(self) -> bool {
        self.settings.search_favorites_first && self.filters.keyword_set
    }
}

impl AppState {
    /// Makes one item the only selected one.
    pub fn select_single(&mut self, id: i64)
        ensures
            final(self)@ == old(self)@.selecting(seq![id]),
    {
        self.selected_ids.clear();
        self.selected_ids.push(id);
        assert(self.selected_ids@ =~= seq![id]);
    }

    /// Makes exactly these items the selected ones, in this order.
    pub fn range_select(&mut self, ids: &[i64])
        ensures
            final(self)@ == old(self)@.selecting(ids@),
    {
        self.selected_ids = copy_ids(ids);
    }

    /// Adds a request to those that wait.
    fn queue(&mut self, request: Request)
        ensures
            final(self)@ == old(self)@.queueing(request@),
    {
        self.requests.push(request);
        assert(self@.requests =~= old(self)@.requests.push(request@));
    }

    /// Asks for a piece of work.
    pub fn request(&mut self, op: Op)
        ensures
            final(self)@ == old(self)@.asking(op),
    {
        let request = Request { op, ids: Vec::new(), names: Vec::new() };
        assert(request@ == (RequestModel { op, ids: Seq::empty(), names: Seq::empty() }));
        self.queue(request);
    }

    /// Asks for a piece of work about several items.
    pub fn request_for(&mut self, op: Op, ids: &[i64])
        ensures
            final(self)@ == old(self)@.asking_for(op, ids@),
    {
        let request = Request { op, ids: copy_ids(ids), names: Vec::new() };
        assert(request@ == (RequestModel { op, ids: ids@, names: Seq::empty() }));
        self.queue(request);
    }

    /// Asks for a piece of work about several names.
    pub fn request_about(&mut self, op: Op, names: Vec<String>)
        ensures
            final(self)@ == old(self)@.asking_about(op, names@),
    {
        let request = Request { op, ids: Vec::new(), names };
        assert(request@ == (RequestModel { op, ids: Seq::empty(), names: names@ }));
        self.queue(request);
    }

    /// Takes out the news of used items: which ones, and whether only a full
    /// reload can show it.
    pub fn take_usage_sync_request(&mut self) -> (r: (Vec<i64>, bool))
        ensures
            r.0@ == old(self)@.usage_touched,
            r.1 == old(self)@.usage_force_reload,
            final(self)@ == old(self)@.usage_taken(),
    {
        let mut touched: Vec<i64> = Vec::new();
        std::mem::swap(&mut touched, &mut self.usage_touched);
        let force = self.usage_force_reload;
        self.usage_force_reload = false;
        (touched, force)
    }

    /// Forgets the news of used items.
    pub fn clear_usage_sync_request(&mut self)
        ensures
            final(self)@ == old(self)@.usage_taken(),
    {
        self.usage_touched.clear();
        self.usage_force_reload = false;
    }
}

} // verus!
