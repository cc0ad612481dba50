//! The main window: its pages, what lies over them, and the events that reach
//! it.

use vstd::prelude::*;

use crate::app_state::{AppModel, AppState, ClipboardListEvent, Op};
use crate::clipboard_list::{world, ClipboardListView, ListModel};
use crate::filter_bar::FilterBar;
use crate::navigation::{MainView, Navigation};
use crate::overlays::{OverlayTransitionState, OverlayTransitions, OVERLAY_COUNT};
use crate::search_box::SearchBox;
use crate::settings_panel::{
    AppLists, AppListsModel, HotkeyConfirmAction, SettingsPanelState, VERSION_TAB,
};
use crate::sidebar::{Sidebar, SidebarModel};
use crate::text::{holds_name, says, str_eq};
use crate::theme::ClippiTheme;
use crate::toast::{toasting, SlotModel, ToastButton, ToastModel, ToastSlot, ToastState};
use crate::update_toast::{UpdatePhase, UpdateTexts, FAILURE_NANOS, PROGRESS_NANOS};

verus! {

/// A tag that is to be deleted.
#[derive(Debug, Clone, PartialEq, Eq)]
pub struct TagDeleteTarget {
    pub id: i64,
    pub name: String,
}

/// Texts of the window in the user's language.
#[derive(Debug, Clone, PartialEq, Eq)]
pub struct RootTexts {
    pub update: UpdateTexts,
    /// The message while a bitmap is being prepared.
    pub preparing_bitmap: String,
    pub data_error: String,
    pub cleaning: String,
    pub tag_delete_failed: String,
    pub already_in_list: String,
    /// The name of the tag of entries that are stored locally.
    pub transfer_local: String,
}

/// What the program tells the window.
#[derive(Debug, Clone, PartialEq, Eq)]
pub enum WindowEvent {
    ClipboardChanged,
    TransferStateChanged,
    PinnedChanged { pinned: bool },
    OpenSettings,
    OpenVersionSettings,
    HotkeyRecordingComplete,
    SyncChanged,
    FileStatusChanged,
    PasteShortcutRecorded { app_name: String, shortcut: String },
    ResetToClipboard,
    ReleaseUiResources,
    WindowHidden,
    UpdateAvailable { version: String },
    UpdateProgress { phase: UpdatePhase },
    BitmapPasteFinished,
    DataMaintenanceToast { message: String },
}

/// What the settings page tells the window.
#[derive(Debug, Clone, PartialEq, Eq)]
pub enum SettingsEvent {
    Back,
    TabChanged { tab: usize },
    /// Another theme was chosen; this one.
    ThemeChanged { theme: ClippiTheme },
    ClipboardSettingsChanged { reload_items: bool, scroll_to_top: bool },
    ShowHotkeyConfirm { action: HotkeyConfirmAction },
    HotkeyPasteShortcut { action: HotkeyConfirmAction },
    /// Something failed, for a reason that is logged.
    DataError { message: String },
    DataToast { message: String },
    ShowClearDataConfirm,
}

/// The main window. `S` is what the program knows of the size of a card.
pub struct RootView<S> {
    pub app: AppState,
    pub list_view: ClipboardListView<S>,
    pub search_box: SearchBox,
    pub filter_bar: FilterBar,
    pub sidebar: Sidebar,
    pub settings_panel: SettingsPanelState,
    pub app_lists: AppLists,
    pub navigation: Navigation,
    pub overlays: OverlayTransitions,
    pub toast_slot: ToastSlot,
    pub toast: ToastState,
    /// Whether the window stays on top.
    pub pinned: bool,
    pub theme: ClippiTheme,
    /// The tag that the editor of tag names was last filled for.
    pub last_edit_tag_id: i64,
    /// The tag whose deletion waits for its confirmation.
    pub pending_tag_delete: Option<TagDeleteTarget>,
    /// Whether the next time that the list is shown an input gets the focus.
    pub needs_auto_focus: bool,
    pub clear_data_confirm: bool,
    pub clear_data_include_favorites: bool,
    pub clear_data_include_tagged: bool,
}

/// The contents of a `RootView`.
#[verifier::ext_equal]
pub ghost struct RootModel<S> {
    pub app: AppModel,
    pub list: ListModel<S>,
    pub search: SearchBox,
    pub bar: FilterBar,
    pub side: SidebarModel,
    pub panel: SettingsPanelState,
    pub lists: AppListsModel,
    pub nav: Navigation,
    pub overlays: Seq<OverlayTransitionState>,
    pub slot: SlotModel,
    pub toast: ToastModel,
    pub pinned: bool,
    pub theme: ClippiTheme,
    pub last_edit_tag_id: i64,
    pub pending_tag_delete: Option<TagDeleteTarget>,
    pub needs_auto_focus: bool,
    pub clear_data_confirm: bool,
    pub clear_data_include_favorites: bool,
    pub clear_data_include_tagged: bool,
}

impl<S> View for RootView<S> {
    type V = RootModel<S>;

    open spec fn view(&self) -> RootModel<S> {
        RootModel {
            app: self.app@,
            list: self.list_view@,
            search: self.search_box,
            bar: self.filter_bar,
            side: self.sidebar@,
            panel: self.settings_panel,
            lists: self.app_lists@,
            nav: self.navigation,
            overlays: self.overlays@,
            slot: self.toast_slot@,
            toast: self.toast@,
            pinned: self.pinned,
            theme: self.theme,
            last_edit_tag_id: self.last_edit_tag_id,
            pending_tag_delete: self.pending_tag_delete,
            needs_auto_focus: self.needs_auto_focus,
            clear_data_confirm: self.clear_data_confirm,
            clear_data_include_favorites: self.clear_data_include_favorites,
            clear_data_include_tagged: self.clear_data_include_tagged,
        }
    }
}

impl<S> RootModel<S> {
    /// The list counts its selection right, and every overlay has its movement.
    pub open spec fn wf(self) -> bool {
        self.list.wf() && self.overlays.len() == OVERLAY_COUNT
    }

    /// One more piece of work asked for.
    pub open spec fn ask(self, op: Op) -> Self {
        RootModel { app: self.app.asking(op), ..self }
    }

    /// A page shown.
    pub open spec fn go(self, view: MainView, now: u64) -> Self {
        RootModel { nav: self.nav.switched(view, now), ..self }
    }

    /// The tag panel closed.
    pub open spec fn close_tag_panel(self) -> Self {
        RootModel { bar: FilterBar { tag_panel_open: false, ..self.bar }, ..self }
    }

    /// The settings page with something else open over it.
    pub open spec fn with_panel(self, panel: SettingsPanelState) -> Self {
        RootModel { panel, ..self }
    }

    /// The list in another state.
    pub open spec fn with_list(self, list: ListModel<S>) -> Self {
        RootModel { list, ..self }
    }

    /// Another message.
    pub open spec fn with_toast(self, pair: crate::toast::ToastPair) -> Self {
        RootModel { slot: pair.slot, toast: pair.toast, ..self }
    }

    /// The message and how it is being shown.
    pub open spec fn toasting(self) -> crate::toast::ToastPair {
        toasting(self.slot, self.toast)
    }

    /// The settings opened.
    pub open spec fn open_settings(self, now: u64) -> Self {
        self.go(MainView::Settings, now).close_tag_panel()
    }

    /// Whether the version is on the screen.
    pub open spec fn on_version_tab(self) -> bool {
        self.nav.current_view == MainView::Settings && self.panel.active_tab == VERSION_TAB
    }

    /// The settings opened at the version. A message about an update is no longer
    /// needed there.
    pub open spec fn open_version_settings(self, now: u64) -> Self {
        let shown = self.with_toast(self.toasting().drop_update_toast()).go(
            MainView::Settings,
            now,
        );
        shown.with_panel(
            SettingsPanelState { active_tab: VERSION_TAB, ..shown.panel },
        ).close_tag_panel()
    }

    /// The recording of a hotkey over.
    pub open spec fn recording_complete(self) -> Self {
        self.with_list(self.list.not_recording()).ask(Op::SyncList).with_panel(
            self.panel.not_recording(),
        )
    }

    /// The files on the disk have changed. A filter for files or paths shows it.
    pub open spec fn files_changed(self) -> Self {
        if holds_name(self.app.filters.active_types, "file"@) || holds_name(
            self.app.filters.active_types,
            "path"@,
        ) {
            self.ask(Op::ReloadItems).ask(Op::SyncList)
        } else {
            self
        }
    }

    /// The window hidden: nothing waits any more that was open in it.
    pub open spec fn hidden(self) -> Self {
        RootModel {
            needs_auto_focus: true,
            pending_tag_delete: None,
            ..self.close_tag_panel().ask(Op::CancelPasteShortcutRecording).with_panel(
                self.panel.not_recording().closed(),
            )
        }
    }

    /// The message gone that a bitmap is being prepared.
    pub open spec fn bitmap_pasted(self, preparing: Seq<char>) -> Self {
        if self.slot.message == Some(preparing) {
            self.with_toast(self.toasting().drop_toast())
        } else {
            self
        }
    }

    /// The clipboard has changed.
    pub open spec fn clipboard_changed(self) -> Self {
        self.ask(
            Op::RefreshListSettings { scroll_to_top: self.app.settings.auto_scroll_to_top },
        ).ask(Op::ResetList)
    }

    /// The window kept on top, or no longer.
    pub open spec fn pinned_changed(self, pinned: bool) -> Self {
        RootModel { pinned, ..self }.ask(Op::SetTitlebarPinned { pinned })
    }

    /// The window kept on top where it was not, and the other way round.
    pub open spec fn pin_toggled(self) -> Self {
        let pinned = !self.pinned;
        RootModel { pinned, ..self }.ask(Op::SetWindowPinned { pinned }).ask(
            Op::SetTitlebarPinned { pinned },
        )
    }

    /// A shortcut recorded; whether to use it is asked.
    pub open spec fn shortcut_recorded(self, app_name: String, shortcut: String) -> Self {
        self.with_panel(
            self.panel.not_recording().confirming(
                Some(HotkeyConfirmAction::AddPasteShortcut { app_name, shortcut }),
            ),
        )
    }

    /// The rows of the list let go of.
    pub open spec fn rows_released(self) -> Self {
        self.with_list(self.list.released()).ask(Op::ReleaseImages)
    }

    /// An update offered, unless the version is on the screen.
    pub open spec fn update_offered(self, texts: UpdateTexts, version: Seq<char>, now: u64) -> Self {
        if self.on_version_tab() {
            self
        } else {
            self.with_toast(self.toasting().update_offered(texts, version, now))
        }
    }

    /// The progress of an update shown, unless the version is on the screen.
    pub open spec fn update_shown(self, texts: UpdateTexts, phase: UpdatePhase, now: u64) -> Self {
        if self.on_version_tab() {
            self
        } else {
            self.with_toast(self.toasting().update_shown(texts, phase, now))
        }
    }

    /// A message of the program shown for a while.
    pub open spec fn notice_shown(self, message: Seq<char>, now: u64) -> Self {
        self.with_toast(self.toasting().fresh(message, None, (now + FAILURE_NANOS) as u64))
    }

    /// An event of the program.
    pub open spec fn told(self, event: WindowEvent, texts: RootTexts, now: u64) -> Self {
        match event {
            WindowEvent::ClipboardChanged => self.clipboard_changed(),
            WindowEvent::TransferStateChanged => self.ask(Op::SyncList),
            WindowEvent::PinnedChanged { pinned } => self.pinned_changed(pinned),
            WindowEvent::OpenSettings => self.open_settings(now),
            WindowEvent::OpenVersionSettings => self.open_version_settings(now),
            WindowEvent::HotkeyRecordingComplete => self.recording_complete(),
            WindowEvent::SyncChanged => self,
            WindowEvent::FileStatusChanged => self.files_changed(),
            WindowEvent::PasteShortcutRecorded { app_name, shortcut } => self.shortcut_recorded(
                app_name,
                shortcut,
            ),
            WindowEvent::ResetToClipboard => self.go(MainView::Clipboard, now),
            WindowEvent::ReleaseUiResources => self.rows_released(),
            WindowEvent::WindowHidden => self.hidden(),
            WindowEvent::UpdateAvailable { version } => self.update_offered(
                texts.update,
                version@,
                now,
            ),
            WindowEvent::UpdateProgress { phase } => self.update_shown(texts.update, phase, now),
            WindowEvent::BitmapPasteFinished => self.bitmap_pasted(texts.preparing_bitmap@),
            WindowEvent::DataMaintenanceToast { message } => self.notice_shown(message@, now),
        }
    }

    /// Everything painted in another theme.
    pub open spec fn themed(self, theme: ClippiTheme) -> Self {
        RootModel {
            theme,
            search: SearchBox { theme, ..self.search },
            bar: FilterBar { theme, ..self.bar },
            list: ListModel { theme, ..self.list },
            side: SidebarModel { dark: theme.dark(), ..self.side },
            ..self
        }.ask(Op::ApplyTheme { theme })
    }

    /// The system's appearance changed. It counts where the settings follow it.
    pub open spec fn appearance_changed(self, setting: Seq<char>, theme: ClippiTheme) -> Self {
        if setting == "system"@ {
            self.themed(theme)
        } else {
            self
        }
    }

    /// A paste shortcut set or removed, as was confirmed.
    pub open spec fn shortcut_confirmed(self, action: HotkeyConfirmAction) -> Self {
        let done = self.with_panel(self.panel.not_recording().confirming(None));
        match action {
            HotkeyConfirmAction::AddPasteShortcut { app_name, shortcut } => RootModel {
                lists: self.lists.with_shortcut(app_name, shortcut),
                ..done
            }.ask(Op::SaveSettings),
            HotkeyConfirmAction::RemovePasteShortcut { app_name } => RootModel {
                lists: self.lists.without_shortcut(app_name@),
                ..done
            }.ask(Op::SaveSettings),
            _ => self,
        }
    }

    /// An event of the settings page.
    pub open spec fn told_by_settings(self, event: SettingsEvent, texts: RootTexts, now: u64) -> Self {
        match event {
            SettingsEvent::Back => self.go(MainView::Clipboard, now).with_panel(
                self.panel.closed(),
            ),
            SettingsEvent::TabChanged { tab } => if tab == VERSION_TAB {
                self.with_toast(self.toasting().drop_update_toast())
            } else {
                self
            },
            SettingsEvent::ThemeChanged { theme } => self.themed(theme),
            SettingsEvent::ClipboardSettingsChanged { reload_items, scroll_to_top } => {
                let op = Op::RefreshListSettings { scroll_to_top };
                if reload_items {
                    self.ask(Op::ReloadItems).ask(op).ask(Op::ResetList)
                } else {
                    self.ask(op)
                }
            },
            SettingsEvent::ShowHotkeyConfirm { action } => self.with_panel(
                self.panel.confirming(Some(action)),
            ),
            SettingsEvent::HotkeyPasteShortcut { action } => self.shortcut_confirmed(action),
            SettingsEvent::DataError { message: _ } => RootModel {
                slot: self.slot.saying(texts.data_error@),
                ..self
            },
            SettingsEvent::DataToast { message } => RootModel {
                slot: self.slot.saying(message@),
                ..self
            },
            SettingsEvent::ShowClearDataConfirm => RootModel {
                clear_data_confirm: true,
                clear_data_include_favorites: false,
                clear_data_include_tagged: false,
                ..self
            },
        }
    }

    /// Whether another question already waits for its answer.
    pub open spec fn asks_something(self) -> bool {
        ||| self.pending_tag_delete is Some
        ||| self.list.confirm_dialog is Some
        ||| self.panel.hotkey_confirm is Some
        ||| self.clear_data_confirm
    }

    /// A request to delete a tag: it is asked whether to, unless another question
    /// waits.
    pub open spec fn tag_delete_requested(self, target: TagDeleteTarget) -> Self {
        if self.asks_something() {
            self
        } else {
            RootModel { pending_tag_delete: Some(target), ..self }
        }
    }

    /// An event of the list.
    pub open spec fn told_by_list(self, event: ClipboardListEvent) -> Self {
        match event {
            ClipboardListEvent::OpenEdit(id) => self.ask(Op::StartEditItem { id }),
            ClipboardListEvent::RequestHide => self.ask(Op::HideWindow),
        }
    }

    /// An item put on the edit page, or not.
    pub open spec fn edit_opened(self, opened: bool, now: u64) -> Self {
        if opened {
            self.go(MainView::Edit, now).close_tag_panel()
        } else {
            self
        }
    }

    /// The edit page left; `saved` says whether the item was stored.
    pub open spec fn edit_left(self, saved: bool, now: u64) -> Self {
        self.ask(
            if saved {
                Op::ResetList
            } else {
                Op::CancelEdit
            },
        ).go(MainView::Clipboard, now)
    }

    /// A button of the message used.
    pub open spec fn toast_button_used(self, button: ToastButton) -> Self {
        match button {
            ToastButton::Download => self.ask(Op::StartUpdateDownload),
            ToastButton::Later => RootModel { slot: SlotModel::cleared(), ..self },
            ToastButton::Restart => self.ask(Op::RestartForUpdate),
        }
    }

    /// The window after Escape, where no recording was cancelled by it.
    pub open spec fn escape(self, now: u64) -> Self {
        match self.nav.current_view {
            MainView::Settings => if self.panel.backend_panel_open {
                self.ask(Op::CloseBackendPanel)
            } else {
                self.go(MainView::Clipboard, now).ask(Op::FocusList)
            },
            MainView::Edit => self.ask(Op::CancelEdit).go(MainView::Clipboard, now).ask(
                Op::FocusList,
            ),
            MainView::Clipboard => {
                let before = world(self.list, self.app);
                let after = before.escape(false);
                RootModel { list: after.list, app: after.app, ..self }.ask(
                    if before.escapes() {
                        Op::FocusList
                    } else {
                        Op::HideWindow
                    },
                )
            },
        }
    }

    /// The window after Escape; `cancelled` says whether a recording was cancelled
    /// by it.
    pub open spec fn escape_pressed(self, cancelled: bool, now: u64) -> Self {
        if cancelled {
            self
        } else {
            self.escape(now)
        }
    }

    /// The button of the transfer station used. `was_active` says whether the
    /// station was open, `activated` whether it was opened by that.
    pub open spec fn transfer_used(self, was_active: bool, activated: bool, now: u64) -> Self {
        RootModel {
            bar: FilterBar { tag_panel_open: false, filter_config_open: false, ..self.bar },
            list: ListModel { hovered_index: None, ..self.list.menu_hidden() }.picker_hidden(),
            nav: self.nav.transfer_toggled(was_active, activated, now),
            ..self
        }.ask(Op::ResetList)
    }
}

impl<S> RootView<S> {
    /// A window that shows the list.
    pub fn new(
        app: AppState,
        list_view: ClipboardListView<S>,
        app_lists: AppLists,
        theme: ClippiTheme,
        lang_version: u64,
    ) -> (r: Self)
        requires
            list_view@.wf(),
        ensures
            r@.wf(),
            r@.app == app@.asking(Op::FocusList),
            r@.list == list_view@,
            r@.search == (SearchBox { generation: 0, theme, last_lang_version: lang_version }),
            r@.bar == (FilterBar { tag_panel_open: false, filter_config_open: false, theme }),
            r@.side == (SidebarModel {
                rendered: Seq::empty(),
                fading: Map::empty(),
                generations: Map::empty(),
                dark: theme.dark(),
            }),
            r@.lists == app_lists@,
            r@.nav == Navigation::start(),
            r@.overlays == Seq::new(
                OVERLAY_COUNT as nat,
                |i: int| OverlayTransitionState::unseen(),
            ),
            r@.slot == SlotModel::cleared(),
            r@.toast == (ToastModel {
                generation: 0,
                dismissing: false,
                timer: None,
                actions: None,
                expiry: None,
                last_message: None,
            }),
            !r@.pinned,
            r@.theme == theme,
            r@.last_edit_tag_id == -1,
            r@.pending_tag_delete is None,
            r@.needs_auto_focus,
            !r@.clear_data_confirm,
            !r@.clear_data_include_favorites,
            !r@.clear_data_include_tagged,
            r@.panel == (SettingsPanelState {
                active_tab: 0,
                latest_hotkeys_popup_open: false,
                hotkey_blacklist_popup_open: false,
                paste_shortcuts_popup_open: false,
                app_blacklist_popup_open: false,
                backend_panel_open: false,
                recording_paste_shortcut: None,
                hotkey_confirm: None,
            }),
    {
        let mut app = app;
        list_view.focus(&mut app);
        RootView {
            app,
            list_view,
            search_box: SearchBox::new(theme, lang_version),
            filter_bar: FilterBar::new(theme),
            sidebar: Sidebar::new(&theme),
            settings_panel: SettingsPanelState::new(),
            app_lists,
            navigation: Navigation::new(),
            overlays: OverlayTransitions::new(),
            toast_slot: ToastSlot::new(),
            toast: ToastState::new(),
            pinned: false,
            theme,
            last_edit_tag_id: -1,
            pending_tag_delete: None,
            needs_auto_focus: true,
            clear_data_confirm: false,
            clear_data_include_favorites: false,
            clear_data_include_tagged: false,
        }
    }

    /// Shows a page.
    pub fn switch_view(&mut self, view: MainView, now: u64)
        ensures
            final(self)@ == old(self)@.go(view, now),
    {
        self.navigation.switch_view(view, now);
    }

    /// Opens the settings.
    pub fn open_settings(&mut self, now: u64)
        ensures
            final(self)@ == old(self)@.open_settings(now),
    {
        self.switch_view(MainView::Settings, now);
        self.filter_bar.close_tag_panel();
    }

    /// Drops a message about an update.
    fn drop_update_toast(&mut self)
        ensures
            final(self)@ == old(self)@.with_toast(old(self)@.toasting().drop_update_toast()),
    {
        self.toast.drop_update_toast(&mut self.toast_slot);
    }

    /// Whether the version is on the screen.
    fn on_version_tab(&self) -> (r: bool)
        ensures
            r == self@.on_version_tab(),
    {
        self.navigation.current_view == MainView::Settings && self.settings_panel.active_tab
            == VERSION_TAB
    }

    /// Opens the settings at the version.
    fn open_version_settings(&mut self, now: u64)
        ensures
            final(self)@ == old(self)@.open_version_settings(now),
    {
        self.drop_update_toast();
        self.switch_view(MainView::Settings, now);
        self.settings_panel.active_tab = VERSION_TAB;
        self.filter_bar.close_tag_panel();
    }

    /// Ends the recording of a hotkey.
    fn finish_recording(&mut self)
        ensures
            final(self)@ == old(self)@.recording_complete(),
    {
        self.list_view.finish_hotkey_recording_ui();
        self.app.request(Op::SyncList);
        self.settings_panel.clear_paste_shortcut_state();
    }

    /// Shows that the files on the disk have changed.
    fn files_changed(&mut self)
        ensures
            final(self)@ == old(self)@.files_changed(),
    {
        if self.app.filters.is_type_active("file") || self.app.filters.is_type_active("path") {
            self.app.request(Op::ReloadItems);
            self.app.request(Op::SyncList);
        }
    }

    /// Drops what was open in a window that is hidden.
    fn window_hidden(&mut self)
        ensures
            final(self)@ == old(self)@.hidden(),
    {
        self.needs_auto_focus = true;
        self.pending_tag_delete = None;
        self.filter_bar.close_tag_panel();
        self.app.request(Op::CancelPasteShortcutRecording);
        self.settings_panel.clear_paste_shortcut_state();
        self.settings_panel.close_all();
    }

    /// Offers an update, unless the version is on the screen.
    fn update_available(&mut self, version: &str, texts: &RootTexts, now: u64)
        requires
            now <= u64::MAX - PROGRESS_NANOS,
        ensures
            final(self)@ == old(self)@.update_offered(texts.update, version@, now),
    {
        if !self.on_version_tab() {
            self.toast.offer_update(&mut self.toast_slot, &texts.update, version, now);
        }
    }

    /// Shows how far an update is, unless the version is on the screen.
    fn update_progress(&mut self, phase: &UpdatePhase, texts: &RootTexts, now: u64)
        requires
            now <= u64::MAX - PROGRESS_NANOS,
        ensures
            final(self)@ == old(self)@.update_shown(texts.update, *phase, now),
    {
        if !self.on_version_tab() {
            self.toast.show_update(&mut self.toast_slot, &texts.update, phase, now);
        }
    }

    /// Drops the message that a bitmap is being prepared.
    fn bitmap_pasted(&mut self, preparing: &str)
        ensures
            final(self)@ == old(self)@.bitmap_pasted(preparing@),
    {
        if says(&self.toast_slot.message, preparing) {
            self.toast.drop_toast(&mut self.toast_slot);
        }
    }

    /// Shows a message of the program for a while.
    fn show_notice(&mut self, message: String, now: u64)
        requires
            now <= u64::MAX - PROGRESS_NANOS,
        ensures
            final(self)@ == old(self)@.notice_shown(message@, now),
    {
        self.toast.show_fresh(&mut self.toast_slot, message, None, now + FAILURE_NANOS);
    }

    /// Shows that the clipboard has changed.
    fn clipboard_changed(&mut self)
        ensures
            final(self)@ == old(self)@.clipboard_changed(),
    {
        let scroll_to_top = self.app.settings.auto_scroll_to_top;
        self.app.request(Op::RefreshListSettings { scroll_to_top });
        self.app.request(Op::ResetList);
    }

    /// Shows whether the window stays on top.
    fn show_pinned(&mut self, pinned: bool)
        ensures
            final(self)@ == old(self)@.pinned_changed(pinned),
    {
        self.pinned = pinned;
        self.app.request(Op::SetTitlebarPinned { pinned });
    }

    /// Asks whether a shortcut that was recorded is to be used.
    fn shortcut_recorded(&mut self, app_name: String, shortcut: String)
        ensures
            final(self)@ == old(self)@.shortcut_recorded(app_name, shortcut),
    {
        self.settings_panel.clear_paste_shortcut_state();
        self.settings_panel.confirm(HotkeyConfirmAction::AddPasteShortcut { app_name, shortcut });
    }

    /// Lets go of the rows of the list.
    fn release_rows(&mut self)
        requires
            old(self)@.wf(),
        ensures
            final(self)@ == old(self)@.rows_released(),
            final(self)@.wf(),
    {
        self.list_view.release_items_for_hide(&mut self.app);
    }

    /// Asks the list to be brought up to date.
    fn sync_list(&mut self)
        ensures
            final(self)@ == old(self)@.ask(Op::SyncList),
    {
        self.app.request(Op::SyncList);
    }

    /// Handles an event of the program.
    pub fn handle_window_event(&mut self, event: WindowEvent, texts: &RootTexts, now: u64)
        requires
            old(self)@.wf(),
            now <= u64::MAX - PROGRESS_NANOS,
        ensures
            final(self)@ == old(self)@.told(event, *texts, now),
            final(self)@.wf(),
    {
        match event {
            WindowEvent::ClipboardChanged => self.clipboard_changed(),
            WindowEvent::TransferStateChanged => self.sync_list(),
            WindowEvent::PinnedChanged { pinned } => self.show_pinned(pinned),
            WindowEvent::OpenSettings => self.open_settings(now),
            WindowEvent::OpenVersionSettings => self.open_version_settings(now),
            WindowEvent::HotkeyRecordingComplete => self.finish_recording(),
            WindowEvent::SyncChanged => {},
            WindowEvent::FileStatusChanged => self.files_changed(),
            WindowEvent::PasteShortcutRecorded { app_name, shortcut } => {
                self.shortcut_recorded(app_name, shortcut);
            },
            WindowEvent::ResetToClipboard => self.switch_view(MainView::Clipboard, now),
            WindowEvent::ReleaseUiResources => self.release_rows(),
            WindowEvent::WindowHidden => self.window_hidden(),
            WindowEvent::UpdateAvailable { version } => {
                self.update_available(version.as_str(), texts, now);
            },
            WindowEvent::UpdateProgress { phase } => self.update_progress(&phase, texts, now),
            WindowEvent::BitmapPasteFinished => {
                self.bitmap_pasted(texts.preparing_bitmap.as_str());
            },
            WindowEvent::DataMaintenanceToast { message } => self.show_notice(message, now),
        }
    }

    /// Paints everything in another theme.
    fn apply_theme(&mut self, theme: ClippiTheme)
        ensures
            final(self)@ == old(self)@.themed(theme),
    {
        self.theme = theme;
        self.search_box.set_theme(theme);
        self.filter_bar.set_theme(theme);
        self.list_view.set_theme(theme);
        self.sidebar.set_theme(&theme);
        self.app.request(Op::ApplyTheme { theme });
    }

    /// Handles a change of the system's appearance, for which the theme is
    /// `theme`. Only where the settings follow the system, it is applied.
    pub fn handle_appearance_change(&mut self, setting: &str, theme: ClippiTheme)
        requires
            old(self)@.wf(),
        ensures
            final(self)@ == old(self)@.appearance_changed(setting@, theme),
            final(self)@.wf(),
    {
        if str_eq(setting, "system") {
            self.apply_theme(theme);
        }
    }

    /// Sets or removes a paste shortcut, as was confirmed.
    pub(crate) fn apply_shortcut(&mut self, action: HotkeyConfirmAction)
        ensures
            final(self)@ == old(self)@.shortcut_confirmed(action),
    {
        match action {
            HotkeyConfirmAction::AddPasteShortcut { app_name, shortcut } => {
                self.app_lists.add_shortcut(app_name, shortcut);
            },
            HotkeyConfirmAction::RemovePasteShortcut { app_name } => {
                self.app_lists.remove_shortcut(app_name.as_str());
            },
            _ => {
                return;
            },
        }
        self.app.request(Op::SaveSettings);
        self.settings_panel.clear_paste_shortcut_state();
        self.settings_panel.clear_hotkey_confirm();
    }

    /// Handles an event of the settings page.
    pub fn handle_settings_event(&mut self, event: SettingsEvent, texts: &RootTexts, now: u64)
        requires
            old(self)@.wf(),
        ensures
            final(self)@ == old(self)@.told_by_settings(event, *texts, now),
            final(self)@.wf(),
    {
        match event {
            SettingsEvent::Back => {
                self.switch_view(MainView::Clipboard, now);
                self.settings_panel.close_all();
            },
            SettingsEvent::TabChanged { tab } => {
                if tab == VERSION_TAB {
                    self.drop_update_toast();
                }
            },
            SettingsEvent::ThemeChanged { theme } => self.apply_theme(theme),
            SettingsEvent::ClipboardSettingsChanged { reload_items, scroll_to_top } => {
                if reload_items {
                    self.app.request(Op::ReloadItems);
                    self.app.request(Op::RefreshListSettings { scroll_to_top });
                    self.app.request(Op::ResetList);
                } else {
                    self.app.request(Op::RefreshListSettings { scroll_to_top });
                }
            },
            SettingsEvent::ShowHotkeyConfirm { action } => self.settings_panel.confirm(action),
            SettingsEvent::HotkeyPasteShortcut { action } => self.apply_shortcut(action),
            SettingsEvent::DataError { message: _ } => self.toast_slot.say(texts.data_error.clone()),
            SettingsEvent::DataToast { message } => self.toast_slot.say(message),
            SettingsEvent::ShowClearDataConfirm => {
                self.clear_data_confirm = true;
                self.clear_data_include_favorites = false;
                self.clear_data_include_tagged = false;
            },
        }
    }

    /// Asks whether to delete a tag, unless another question already waits for
    /// its answer.
    pub fn request_tag_delete(&mut self, target: TagDeleteTarget)
        ensures
            final(self)@ == old(self)@.tag_delete_requested(target),
    {
        let blocked = self.pending_tag_delete.is_some() || self.list_view.confirm_dialog.is_some()
            || self.settings_panel.hotkey_confirm.is_some() || self.clear_data_confirm;
        if !blocked {
            self.pending_tag_delete = Some(target);
        }
    }

    /// Handles an event of the list.
    pub fn handle_list_event(&mut self, event: ClipboardListEvent)
        ensures
            final(self)@ == old(self)@.told_by_list(event),
    {
        match event {
            ClipboardListEvent::OpenEdit(id) => self.app.request(Op::StartEditItem { id }),
            ClipboardListEvent::RequestHide => self.app.request(Op::HideWindow),
        }
    }

    /// Takes the answer whether an item is on the edit page now; if so, the page
    /// is shown.
    pub fn edit_started(&mut self, opened: bool, now: u64)
        ensures
            final(self)@ == old(self)@.edit_opened(opened, now),
    {
        if opened {
            self.switch_view(MainView::Edit, now);
            self.filter_bar.close_tag_panel();
        }
    }

    /// Leaves the edit page; `saved` says whether the item was stored.
    pub fn edit_finished(&mut self, saved: bool, now: u64)
        ensures
            final(self)@ == old(self)@.edit_left(saved, now),
    {
        if saved {
            self.app.request(Op::ResetList);
        } else {
            self.app.request(Op::CancelEdit);
        }
        self.switch_view(MainView::Clipboard, now);
    }

    /// Keeps the window on top, or no longer.
    pub fn toggle_pin(&mut self)
        ensures
            final(self)@ == old(self)@.pin_toggled(),
    {
        self.pinned = !self.pinned;
        let pinned = self.pinned;
        self.app.request(Op::SetWindowPinned { pinned });
        self.app.request(Op::SetTitlebarPinned { pinned });
    }

    /// Handles the button of the transfer station. Where the page toggles it,
    /// the station was toggled before: `was_active` says whether it was open,
    /// `activated` whether it was opened.
    pub fn handle_toggle_transfer(&mut self, was_active: bool, activated: bool, now: u64)
        requires
            old(self)@.wf(),
        ensures
            final(self)@ == old(self)@.transfer_used(was_active, activated, now),
            final(self)@.wf(),
    {
        self.filter_bar.close_tag_panel();
        self.filter_bar.close_filter_config();
        self.list_view.dismiss_context_menu();
        self.list_view.hide_tag_picker();
        self.navigation.transfer_was_toggled(was_active, activated, now);
        self.app.request(Op::ResetList);
    }

    /// Handles Escape. `cancelled` says whether it has cancelled the recording of
    /// a hotkey, in which case nothing else happens.
    pub fn handle_escape(&mut self, cancelled: bool, now: u64)
        requires
            old(self)@.wf(),
        ensures
            final(self)@ == old(self)@.escape_pressed(cancelled, now),
            final(self)@.wf(),
    {
        if cancelled {
            return;
        }
        match self.navigation.current_view {
            MainView::Settings => {
                if self.settings_panel.backend_panel_open {
                    self.app.request(Op::CloseBackendPanel);
                } else {
                    self.switch_view(MainView::Clipboard, now);
                    self.app.request(Op::FocusList);
                }
            },
            MainView::Edit => {
                self.app.request(Op::CancelEdit);
                self.switch_view(MainView::Clipboard, now);
                self.app.request(Op::FocusList);
            },
            MainView::Clipboard => {
                if self.list_view.handle_escape_from_root(&mut self.app) {
                    self.app.request(Op::FocusList);
                } else {
                    self.app.request(Op::HideWindow);
                }
            },
        }
    }

    /// Handles a click on a button of the message.
    pub fn click_toast_button(&mut self, button: ToastButton)
        ensures
            final(self)@ == old(self)@.toast_button_used(button),
    {
        match button {
            ToastButton::Download => self.app.request(Op::StartUpdateDownload),
            ToastButton::Later => self.toast_slot.clear_toast(),
            ToastButton::Restart => self.app.request(Op::RestartForUpdate),
        }
    }

    /// Handles a click on a message without buttons: it goes.
    pub fn click_toast(&mut self)
        ensures
            final(self)@ == (RootModel { slot: SlotModel::cleared(), ..old(self)@ }),
    {
        self.toast_slot.clear_toast();
    }
}

} // verus!
