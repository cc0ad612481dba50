//! The questions that the main window asks, and the popups of the lists of apps.

use vstd::prelude::*;

use crate::app_state::Op;
use crate::clipboard_list::{ConfirmDialogState, ConfirmModel, ListModel};
use crate::root::{RootModel, RootTexts, RootView};
use crate::settings_panel::{
    add_button, name_entries, shortcut_entries, shortcut_entry, AddButton, AppListEntry,
    AppListsModel, HotkeyConfirmAction,
};
use crate::tags::{find_tag, known};
use crate::text::{copy_names, holds_name};
use crate::toast::SlotModel;

verus! {

/// A popup of a list of apps.
#[derive(Clone, Copy, Debug, PartialEq, Eq, Structural)]
pub enum AppListPopup {
    HotkeyBlacklist,
    PasteShortcuts,
    AppBlacklist,
}

/// How much of the history there is to clear.
#[derive(Clone, Copy, Debug, PartialEq, Eq, Structural)]
pub struct ClearableCounts {
    /// Items that are neither favorites nor tagged.
    pub plain: usize,
    /// Items that are not tagged.
    pub untagged: usize,
    /// Items that are no favorites.
    pub not_favorite: usize,
    pub all: usize,
}

impl ClearableCounts {
    /// How many items are cleared.
    pub open spec fn chosen(self, favorites: bool, tagged: bool) -> usize {
        if favorites && tagged {
            self.all
        } else if favorites {
            self.untagged
        } else if tagged {
            self.not_favorite
        } else {
            self.plain
        }
    }
}

/// The question whether to remove an app from a list.
pub open spec fn removing(popup: AppListPopup, app_name: String) -> HotkeyConfirmAction {
    match popup {
        AppListPopup::HotkeyBlacklist => HotkeyConfirmAction::RemoveBlacklist { app_name },
        AppListPopup::PasteShortcuts => HotkeyConfirmAction::RemovePasteShortcut { app_name },
        AppListPopup::AppBlacklist => HotkeyConfirmAction::RemoveClipboardBlacklist { app_name },
    }
}

/// The work that a question of the list is about.
pub open spec fn deletion(dialog: ConfirmModel) -> Op {
    match dialog {
        ConfirmModel::Single { id } => Op::DeleteItem { id },
        ConfirmModel::Batch { count } => Op::BatchDelete,
        ConfirmModel::Transfer { hash } => Op::DeleteTransferEntry { hash },
        ConfirmModel::TransferBatch { hashes } => Op::DeleteTransferEntries,
    }
}

/// The entries of the transfer station that a question of the list is about,
/// where there are several.
pub open spec fn deleted_names(dialog: ConfirmModel) -> Seq<String> {
    match dialog {
        ConfirmModel::TransferBatch { hashes } => hashes,
        _ => Seq::empty(),
    }
}

/// Whether a question of the list is about items of the history.
pub open spec fn deletes_items(dialog: ConfirmModel) -> bool {
    dialog is Single || dialog is Batch
}

/// What a question of the list is about: the work, the names for it, and whether
/// the list changes by it.
fn deletion_of(dialog: &ConfirmDialogState) -> (r: (Op, Vec<String>, bool))
    ensures
        r.0 == deletion(dialog@),
        r.1@ == deleted_names(dialog@),
        r.2 == deletes_items(dialog@),
{
    match dialog {
        ConfirmDialogState::Single { id } => (Op::DeleteItem { id: *id }, Vec::new(), true),
        ConfirmDialogState::Batch { .. } => (Op::BatchDelete, Vec::new(), true),
        ConfirmDialogState::Transfer { hash } => {
            (Op::DeleteTransferEntry { hash: hash.clone() }, Vec::new(), false)
        },
        ConfirmDialogState::TransferBatch { hashes } => {
            (Op::DeleteTransferEntries, copy_names(hashes.as_slice()), false)
        },
    }
}

impl<S> RootModel<S> {
    /// One more piece of work asked for, about several names.
    pub open spec fn ask_about(self, op: Op, names: Seq<String>) -> Self {
        RootModel { app: self.app.asking_about(op, names), ..self }
    }

    /// Other lists of apps.
    pub open spec fn with_lists(self, lists: AppListsModel) -> Self {
        RootModel { lists, ..self }
    }

    /// The question of the list dropped.
    pub open spec fn list_question_dropped(self) -> Self {
        self.with_list(ListModel { confirm_dialog: None, ..self.list })
    }

    /// The question of the list answered with yes.
    pub open spec fn list_question_confirmed(self) -> Self {
        match self.list.confirm_dialog {
            Some(dialog) => {
                let asked = self.ask_about(deletion(dialog), deleted_names(dialog));
                (if deletes_items(dialog) {
                    asked.ask(Op::SyncList)
                } else {
                    asked
                }).list_question_dropped()
            },
            None => self,
        }
    }

    /// No tag waits to be deleted.
    pub open spec fn tag_kept(self) -> Self {
        RootModel { pending_tag_delete: None, ..self }
    }

    /// The question whether to delete a tag answered with yes. The tag may have
    /// gone meanwhile.
    pub open spec fn tag_delete_confirmed(self) -> Self {
        match self.pending_tag_delete {
            Some(target) => if known(self.app.tags)(target.id) {
                self.ask(Op::DeleteTag { tag_id: target.id })
            } else {
                self.tag_kept()
            },
            None => self,
        }
    }

    /// A tag deleted, or not: where it failed, the question stays.
    pub open spec fn tag_deleted(self, ok: bool, texts: RootTexts) -> Self {
        if ok {
            self.ask(Op::RefreshTagList).tag_kept()
        } else {
            self.ask(Op::ShowToast { message: texts.tag_delete_failed })
        }
    }

    /// The question whether to clear the history answered with yes.
    pub open spec fn clear_data_confirmed(self) -> Self {
        self.ask(
            Op::RequestClearData {
                include_favorites: self.clear_data_include_favorites,
                include_tagged: self.clear_data_include_tagged,
            },
        )
    }

    /// The request to clear the history answered.
    pub open spec fn clear_data_answered(self, accepted: bool, texts: RootTexts) -> Self {
        RootModel {
            clear_data_confirm: false,
            slot: if accepted {
                self.slot
            } else {
                self.slot.saying(texts.cleaning@)
            },
            ..self
        }
    }

    /// Nothing to be confirmed any more.
    pub open spec fn confirmed(self) -> Self {
        self.with_panel(self.panel.confirming(None))
    }

    /// No hotkey works in an app from now on.
    pub open spec fn hotkeys_blocked(self, app_name: String) -> Self {
        let blocked = self.with_lists(self.lists.blocking_hotkeys(app_name));
        let saved = if holds_name(self.lists.hotkey_blacklist, app_name@) {
            blocked
        } else {
            blocked.ask(Op::SaveSettings)
        };
        saved.ask_about(Op::SetHotkeyBlacklist, blocked.lists.hotkey_blacklist).confirmed()
    }

    /// Hotkeys work in an app again.
    pub open spec fn hotkeys_allowed(self, app_name: Seq<char>) -> Self {
        let allowed = self.with_lists(self.lists.allowing_hotkeys(app_name));
        allowed.ask(Op::SaveSettings).ask_about(
            Op::SetHotkeyBlacklist,
            allowed.lists.hotkey_blacklist,
        ).confirmed()
    }

    /// Nothing is taken over from an app from now on.
    pub open spec fn clipboard_blocked(self, app_name: String, listed: bool) -> Self {
        let blocked = self.with_lists(self.lists.blocking_clipboard(app_name, listed));
        let saved = if listed {
            blocked
        } else {
            blocked.ask(Op::SaveSettings)
        };
        saved.ask_about(
            Op::SetClipboardBlacklist,
            blocked.lists.clipboard_app_blacklist,
        ).confirmed()
    }

    /// Things are taken over again from the marked apps.
    pub open spec fn clipboard_allowed(self, marks: Seq<bool>) -> Self {
        let allowed = self.with_lists(self.lists.allowing_clipboard(marks));
        allowed.ask(Op::SaveSettings).ask_about(
            Op::SetClipboardBlacklist,
            allowed.lists.clipboard_app_blacklist,
        ).confirmed()
    }

    /// The system's clipboard key is to be taken over, or given back.
    pub open spec fn takeover_asked(self, enabled: bool) -> Self {
        self.ask(Op::SetWinVTakeover { enabled }).confirmed()
    }

    /// The answer how taking over the system's clipboard key went.
    pub open spec fn takeover_answered(self, result: Result<(), String>) -> Self {
        match result {
            Ok(_) => self,
            Err(message) => RootModel { slot: SlotModel::warning(message@), ..self },
        }
    }

    /// An action done that was confirmed. `listed` says whether the app is already
    /// one of those from which nothing is taken over, `marks` which of those it
    /// is.
    pub open spec fn done(self, action: HotkeyConfirmAction, listed: bool, marks: Seq<bool>) -> Self {
        match action {
            HotkeyConfirmAction::AddBlacklist { app_name } => self.hotkeys_blocked(app_name),
            HotkeyConfirmAction::RemoveBlacklist { app_name } => self.hotkeys_allowed(app_name@),
            HotkeyConfirmAction::AddPasteShortcut { app_name, shortcut } =>
                self.shortcut_confirmed(action),
            HotkeyConfirmAction::RemovePasteShortcut { app_name } => self.shortcut_confirmed(action),
            HotkeyConfirmAction::AddClipboardBlacklist { app_name } => self.clipboard_blocked(
                app_name,
                listed,
            ),
            HotkeyConfirmAction::RemoveClipboardBlacklist { app_name } => self.clipboard_allowed(
                marks,
            ),
            HotkeyConfirmAction::WinVTakeoverEnable => self.takeover_asked(true),
            HotkeyConfirmAction::WinVTakeoverDisable => self.takeover_asked(false),
            HotkeyConfirmAction::WinVManualSetup => self.confirmed(),
        }
    }

    /// What was to be confirmed is done.
    pub open spec fn action_confirmed(self, listed: bool, marks: Seq<bool>) -> Self {
        match self.panel.hotkey_confirm {
            Some(action) => self.done(action, listed, marks),
            None => self,
        }
    }

    /// What was to be confirmed is dropped, and with a paste shortcut its
    /// recording.
    pub open spec fn action_declined(self) -> Self {
        match self.panel.hotkey_confirm {
            Some(HotkeyConfirmAction::AddPasteShortcut { app_name, shortcut }) => self.with_panel(
                self.panel.not_recording().confirming(None),
            ),
            Some(HotkeyConfirmAction::RemovePasteShortcut { app_name }) => self.with_panel(
                self.panel.not_recording().confirming(None),
            ),
            _ => self.confirmed(),
        }
    }

    /// The recording of a paste shortcut stopped.
    pub open spec fn shortcut_recording_stopped(self) -> Self {
        self.ask(Op::CancelPasteShortcutRecording).with_panel(self.panel.not_recording())
    }

    /// The recording of an app's paste shortcut started.
    pub open spec fn shortcut_recording_started(self, app_name: String) -> Self {
        self.ask(Op::StartPasteShortcutRecording { app_name }).with_panel(
            self.panel.recording(app_name),
        )
    }

    /// What the button of a popup that adds an app offers.
    pub open spec fn popup_button(self, popup: AppListPopup, foreground_app: Seq<char>) -> AddButton {
        if popup == AppListPopup::PasteShortcuts && self.panel.recording_paste_shortcut is Some {
            AddButton::StopRecording
        } else if foreground_app.len() > 0 {
            AddButton::AddForeground
        } else {
            AddButton::Hidden
        }
    }

    /// A popup of a list of apps closed.
    pub open spec fn popup_closed(self, popup: AppListPopup) -> Self {
        let stopped = if popup == AppListPopup::PasteShortcuts {
            self.shortcut_recording_stopped()
        } else {
            self
        };
        stopped.with_panel(stopped.panel.without_popups())
    }

    /// The button of a popup used that adds an app. `listed` says whether the app
    /// is already in the list.
    pub open spec fn popup_button_used(
        self,
        popup: AppListPopup,
        foreground_app: String,
        listed: bool,
        texts: RootTexts,
    ) -> Self {
        match self.popup_button(popup, foreground_app@) {
            AddButton::Hidden => self,
            AddButton::StopRecording => self.shortcut_recording_stopped(),
            AddButton::AddForeground => match popup {
                AppListPopup::PasteShortcuts => self.shortcut_recording_started(foreground_app),
                AppListPopup::HotkeyBlacklist => if listed {
                    self.ask(Op::ShowToast { message: texts.already_in_list })
                } else {
                    self.with_panel(
                        self.panel.confirming(
                            Some(HotkeyConfirmAction::AddBlacklist { app_name: foreground_app }),
                        ),
                    )
                },
                AppListPopup::AppBlacklist => if listed {
                    self.ask(Op::ShowToast { message: texts.already_in_list })
                } else {
                    self.with_panel(
                        self.panel.confirming(
                            Some(
                                HotkeyConfirmAction::AddClipboardBlacklist {
                                    app_name: foreground_app,
                                },
                            ),
                        ),
                    )
                },
            },
        }
    }

    /// The entries of a popup of a list of apps.
    pub open spec fn popup_entries(self, popup: AppListPopup) -> Seq<AppListEntry> {
        match popup {
            AppListPopup::HotkeyBlacklist => self.lists.hotkey_blacklist.map_values(
                |app_name: String| plain_entry(app_name),
            ),
            AppListPopup::PasteShortcuts => self.lists.paste_shortcuts.map_values(
                |entry| shortcut_entry(entry, self.panel.recording_paste_shortcut),
            ),
            AppListPopup::AppBlacklist => self.lists.clipboard_app_blacklist.map_values(
                |app_name: String| plain_entry(app_name),
            ),
        }
    }
}

/// The entry of an app without a shortcut.
pub open spec fn plain_entry(app_name: String) -> AppListEntry {
    AppListEntry { app_name, shortcut: None, is_recording_target: false }
}

/// What the question says whether to clear the history.
pub open spec fn clear_question(
    question: Seq<char>,
    warning: Seq<char>,
    sync_backends: Seq<bool>,
) -> Seq<char> {
    if sync_backends.contains(true) {
        question + seq!['\n'] + warning
    } else {
        question
    }
}

/// The message of the question whether to clear the history. Where a backend
/// syncs it, a warning is added.
pub fn clear_data_message(question: String, warning: &str, sync_backends: &[bool]) -> (r: String)
    ensures
        r@ == clear_question(question@, warning@, sync_backends@),
{
    let mut syncs = false;
    let mut i: usize = 0;
    while i < sync_backends.len()
        invariant
            0 <= i <= sync_backends.len(),
            syncs == sync_backends@.take(i as int).contains(true),
        decreases sync_backends.len() - i,
    {
        assert(sync_backends@.take(i + 1) =~= sync_backends@.take(i as int).push(
            sync_backends@[i as int],
        ));
        if sync_backends[i] {
            syncs = true;
            assert(sync_backends@.take(i + 1)[i as int]);
        } else {
            assert(sync_backends@.take(i as int).contains(true) ==> sync_backends@.take(
                i + 1,
            ).contains(true)) by {
                if sync_backends@.take(i as int).contains(true) {
                    let k = choose|k: int| 0 <= k < i && sync_backends@.take(i as int)[k];
                    assert(sync_backends@.take(i + 1)[k]);
                }
            }
        }
        i += 1;
    }
    assert(sync_backends@.take(i as int) =~= sync_backends@);
    let mut message = question;
    if syncs {
        proof {
            reveal_strlit("\n");
        }
        message.append("\n");
        assert("\n"@ =~= seq!['\n']);
        message.append(warning);
    }
    message
}

impl<S> RootView<S> {
    /// Drops the question of the list.
    pub fn cancel_list_question(&mut self)
        requires
            old(self)@.wf(),
        ensures
            final(self)@ == old(self)@.list_question_dropped(),
            final(self)@.wf(),
    {
        self.list_view.dismiss_confirm_dialog();
    }

    /// Does what the question of the list was about.
    pub fn confirm_list_question(&mut self)
        requires
            old(self)@.wf(),
        ensures
            final(self)@ == old(self)@.list_question_confirmed(),
            final(self)@.wf(),
    {
        let ghost before = self@;
        let (op, names, syncs) = match self.list_view.confirm_dialog_state() {
            Some(dialog) => deletion_of(dialog),
            None => {
                return;
            },
        };
        self.app.request_about(op, names);
        assert(self@ == before.ask_about(op, names@));
        if syncs {
            self.app.request(Op::SyncList);
        }
        let ghost asked = self@;
        self.list_view.dismiss_confirm_dialog();
        assert(self@ == asked.list_question_dropped());
    }

    /// Drops the question whether to delete a tag.
    pub fn cancel_tag_delete(&mut self)
        ensures
            final(self)@ == old(self)@.tag_kept(),
    {
        self.pending_tag_delete = None;
    }

    /// Deletes the tag that the question was about, if it is still there.
    pub fn confirm_tag_delete(&mut self)
        ensures
            final(self)@ == old(self)@.tag_delete_confirmed(),
    {
        let tag_id: i64 = match &self.pending_tag_delete {
            Some(target) => target.id,
            None => {
                return;
            },
        };
        if find_tag(self.app.tags.as_slice(), tag_id).is_some() {
            self.app.request(Op::DeleteTag { tag_id });
        } else {
            self.pending_tag_delete = None;
        }
    }

    /// Takes the answer whether the tag was deleted. Where it was not, the
    /// question stays.
    pub fn tag_delete_finished(&mut self, ok: bool, texts: &RootTexts)
        ensures
            final(self)@ == old(self)@.tag_deleted(ok, *texts),
    {
        if ok {
            self.app.request(Op::RefreshTagList);
            self.pending_tag_delete = None;
        } else {
            self.app.request(Op::ShowToast { message: texts.tag_delete_failed.clone() });
        }
    }

    /// Clears favorites too, or no longer.
    pub fn toggle_clear_favorites(&mut self)
        ensures
            final(self)@ == (RootModel {
                clear_data_include_favorites: !old(self)@.clear_data_include_favorites,
                ..old(self)@
            }),
    {
        self.clear_data_include_favorites = !self.clear_data_include_favorites;
    }

    /// Clears tagged items too, or no longer.
    pub fn toggle_clear_tagged(&mut self)
        ensures
            final(self)@ == (RootModel {
                clear_data_include_tagged: !old(self)@.clear_data_include_tagged,
                ..old(self)@
            }),
    {
        self.clear_data_include_tagged = !self.clear_data_include_tagged;
    }

    /// How many items would be cleared.
    pub fn clear_data_count(&self, counts: &ClearableCounts) -> (r: usize)
        ensures
            r == counts.chosen(
                self@.clear_data_include_favorites,
                self@.clear_data_include_tagged,
            ),
    {
        match (self.clear_data_include_favorites, self.clear_data_include_tagged) {
            (false, false) => counts.plain,
            (true, false) => counts.untagged,
            (false, true) => counts.not_favorite,
            (true, true) => counts.all,
        }
    }

    /// Asks for the history to be cleared.
    pub fn confirm_clear_data(&mut self)
        ensures
            final(self)@ == old(self)@.clear_data_confirmed(),
    {
        let include_favorites = self.clear_data_include_favorites;
        let include_tagged = self.clear_data_include_tagged;
        self.app.request(Op::RequestClearData { include_favorites, include_tagged });
    }

    /// Takes the answer whether the history is being cleared. Where it is not,
    /// because it already is, a message says so.
    pub fn clear_data_requested(&mut self, accepted: bool, texts: &RootTexts)
        ensures
            final(self)@ == old(self)@.clear_data_answered(accepted, *texts),
    {
        self.clear_data_confirm = false;
        if !accepted {
            self.toast_slot.say(texts.cleaning.clone());
        }
    }

    /// Drops the question whether to clear the history.
    pub fn cancel_clear_data(&mut self)
        ensures
            final(self)@ == (RootModel { clear_data_confirm: false, ..old(self)@ }),
    {
        self.clear_data_confirm = false;
    }

    /// Lets no hotkey work in an app.
    fn block_hotkeys(&mut self, app_name: String)
        ensures
            final(self)@ == old(self)@.hotkeys_blocked(app_name),
    {
        if self.app_lists.block_hotkeys(app_name) {
            self.app.request(Op::SaveSettings);
        }
        let names = copy_names(self.app_lists.hotkey_blacklist.as_slice());
        self.app.request_about(Op::SetHotkeyBlacklist, names);
        self.settings_panel.clear_hotkey_confirm();
    }

    /// Lets hotkeys work in an app again.
    fn allow_hotkeys(&mut self, app_name: &str)
        ensures
            final(self)@ == old(self)@.hotkeys_allowed(app_name@),
    {
        self.app_lists.allow_hotkeys(app_name);
        self.app.request(Op::SaveSettings);
        let names = copy_names(self.app_lists.hotkey_blacklist.as_slice());
        self.app.request_about(Op::SetHotkeyBlacklist, names);
        self.settings_panel.clear_hotkey_confirm();
    }

    /// Takes nothing over from an app.
    fn block_clipboard(&mut self, app_name: String, listed: bool)
        ensures
            final(self)@ == old(self)@.clipboard_blocked(app_name, listed),
    {
        if self.app_lists.block_clipboard(app_name, listed) {
            self.app.request(Op::SaveSettings);
        }
        let names = copy_names(self.app_lists.clipboard_app_blacklist.as_slice());
        self.app.request_about(Op::SetClipboardBlacklist, names);
        self.settings_panel.clear_hotkey_confirm();
    }

    /// Takes things over from the marked apps again.
    fn allow_clipboard(&mut self, marks: &[bool])
        requires
            marks@.len() == old(self)@.lists.clipboard_app_blacklist.len(),
        ensures
            final(self)@ == old(self)@.clipboard_allowed(marks@),
    {
        self.app_lists.allow_clipboard(marks);
        self.app.request(Op::SaveSettings);
        let names = copy_names(self.app_lists.clipboard_app_blacklist.as_slice());
        self.app.request_about(Op::SetClipboardBlacklist, names);
        self.settings_panel.clear_hotkey_confirm();
    }

    /// Takes over the system's clipboard key, or gives it back.
    fn set_takeover(&mut self, enabled: bool)
        ensures
            final(self)@ == old(self)@.takeover_asked(enabled),
    {
        self.app.request(Op::SetWinVTakeover { enabled });
        self.settings_panel.clear_hotkey_confirm();
    }

    /// Does an action that was confirmed.
    fn do_confirmed(&mut self, action: HotkeyConfirmAction, listed: bool, marks: &[bool])
        requires
            marks@.len() == old(self)@.lists.clipboard_app_blacklist.len(),
        ensures
            final(self)@ == old(self)@.done(action, listed, marks@),
    {
        match action {
            HotkeyConfirmAction::AddBlacklist { app_name } => self.block_hotkeys(app_name),
            HotkeyConfirmAction::RemoveBlacklist { app_name } => {
                self.allow_hotkeys(app_name.as_str());
            },
            HotkeyConfirmAction::AddPasteShortcut { app_name, shortcut } => {
                self.apply_shortcut(HotkeyConfirmAction::AddPasteShortcut { app_name, shortcut });
            },
            HotkeyConfirmAction::RemovePasteShortcut { app_name } => {
                self.apply_shortcut(HotkeyConfirmAction::RemovePasteShortcut { app_name });
            },
            HotkeyConfirmAction::AddClipboardBlacklist { app_name } => {
                self.block_clipboard(app_name, listed);
            },
            HotkeyConfirmAction::RemoveClipboardBlacklist { .. } => self.allow_clipboard(marks),
            HotkeyConfirmAction::WinVTakeoverEnable => self.set_takeover(true),
            HotkeyConfirmAction::WinVTakeoverDisable => self.set_takeover(false),
            HotkeyConfirmAction::WinVManualSetup => self.settings_panel.clear_hotkey_confirm(),
        }
    }

    /// Does what the settings page asked to be confirmed. `listed` says whether
    /// the app is already one of those from which nothing is taken over, `marks`
    /// which of those it is.
    pub fn confirm_hotkey_action(&mut self, listed: bool, marks: &[bool])
        requires
            marks@.len() == old(self)@.lists.clipboard_app_blacklist.len(),
        ensures
            final(self)@ == old(self)@.action_confirmed(listed, marks@),
            old(self)@.wf() ==> final(self)@.wf(),
    {
        let action = match &self.settings_panel.hotkey_confirm {
            Some(action) => action.duplicate(),
            None => {
                return;
            },
        };
        self.do_confirmed(action, listed, marks);
    }

    /// Takes the answer how taking over the system's clipboard key went: a failure
    /// is shown as a warning.
    pub fn takeover_finished(&mut self, result: Result<(), String>)
        ensures
            final(self)@ == old(self)@.takeover_answered(result),
    {
        if let Err(message) = result {
            self.toast_slot.warn(message);
        }
    }

    /// Drops what the settings page asked to be confirmed.
    pub fn cancel_hotkey_action(&mut self)
        ensures
            final(self)@ == old(self)@.action_declined(),
    {
        let about_shortcut = match &self.settings_panel.hotkey_confirm {
            Some(HotkeyConfirmAction::AddPasteShortcut { .. }) => true,
            Some(HotkeyConfirmAction::RemovePasteShortcut { .. }) => true,
            _ => false,
        };
        if about_shortcut {
            self.settings_panel.clear_paste_shortcut_state();
        }
        self.settings_panel.clear_hotkey_confirm();
    }

    /// The entries of a popup of a list of apps.
    pub fn popup_entries(&self, popup: AppListPopup) -> (r: Vec<AppListEntry>)
        ensures
            r@ == self@.popup_entries(popup),
    {
        let entries = match popup {
            AppListPopup::HotkeyBlacklist => name_entries(
                self.app_lists.hotkey_blacklist.as_slice(),
            ),
            AppListPopup::PasteShortcuts => shortcut_entries(
                &self.app_lists,
                &self.settings_panel.recording_paste_shortcut,
            ),
            AppListPopup::AppBlacklist => name_entries(
                self.app_lists.clipboard_app_blacklist.as_slice(),
            ),
        };
        assert(entries@ =~= self@.popup_entries(popup));
        entries
    }

    /// What the button of a popup that adds an app offers.
    pub fn popup_button(&self, popup: AppListPopup, foreground_app: &str) -> (r: AddButton)
        ensures
            r == self@.popup_button(popup, foreground_app@),
    {
        let recording = popup == AppListPopup::PasteShortcuts
            && self.settings_panel.recording_paste_shortcut.is_some();
        add_button(foreground_app, recording)
    }

    /// Stops the recording of a paste shortcut.
    pub fn stop_shortcut_recording(&mut self)
        ensures
            final(self)@ == old(self)@.shortcut_recording_stopped(),
    {
        self.app.request(Op::CancelPasteShortcutRecording);
        self.settings_panel.clear_paste_shortcut_state();
    }

    /// Starts the recording of an app's paste shortcut.
    pub fn start_shortcut_recording(&mut self, app_name: String)
        ensures
            final(self)@ == old(self)@.shortcut_recording_started(app_name),
    {
        self.settings_panel.recording_paste_shortcut = Some(app_name.clone());
        self.app.request(Op::StartPasteShortcutRecording { app_name });
    }

    /// Closes a popup of a list of apps.
    pub fn close_popup(&mut self, popup: AppListPopup)
        ensures
            final(self)@ == old(self)@.popup_closed(popup),
    {
        if popup == AppListPopup::PasteShortcuts {
            self.stop_shortcut_recording();
        }
        self.settings_panel.close_app_list_popups();
    }

    /// Asks whether to remove an app from a list.
    pub fn remove_from_popup(&mut self, popup: AppListPopup, app_name: String)
        ensures
            final(self)@ == old(self)@.with_panel(
                old(self)@.panel.confirming(Some(removing(popup, app_name))),
            ),
    {
        let action = match popup {
            AppListPopup::HotkeyBlacklist => HotkeyConfirmAction::RemoveBlacklist { app_name },
            AppListPopup::PasteShortcuts => HotkeyConfirmAction::RemovePasteShortcut { app_name },
            AppListPopup::AppBlacklist => HotkeyConfirmAction::RemoveClipboardBlacklist {
                app_name,
            },
        };
        self.settings_panel.confirm(action);
    }

    /// Handles the button of a popup that adds the app in the foreground. `listed`
    /// says whether the app is already in the list.
    pub fn use_popup_button(
        &mut self,
        popup: AppListPopup,
        foreground_app: String,
        listed: bool,
        texts: &RootTexts,
    )
        ensures
            final(self)@ == old(self)@.popup_button_used(popup, foreground_app, listed, *texts),
    {
        match self.popup_button(popup, foreground_app.as_str()) {
            AddButton::Hidden => {},
            AddButton::StopRecording => self.stop_shortcut_recording(),
            AddButton::AddForeground => match popup {
                AppListPopup::PasteShortcuts => self.start_shortcut_recording(foreground_app),
                AppListPopup::HotkeyBlacklist => {
                    let action = HotkeyConfirmAction::AddBlacklist { app_name: foreground_app };
                    self.add_unless_listed(action, listed, texts);
                },
                AppListPopup::AppBlacklist => {
                    let action = HotkeyConfirmAction::AddClipboardBlacklist {
                        app_name: foreground_app,
                    };
                    self.add_unless_listed(action, listed, texts);
                },
            },
        }
    }

    /// Asks whether to add an app to a list, or says that it is already there.
    fn add_unless_listed(&mut self, action: HotkeyConfirmAction, listed: bool, texts: &RootTexts)
        ensures
            final(self)@ == (if listed {
                old(self)@.ask(Op::ShowToast { message: texts.already_in_list })
            } else {
                old(self)@.with_panel(old(self)@.panel.confirming(Some(action)))
            }),
    {
        if listed {
            self.app.request(Op::ShowToast { message: texts.already_in_list.clone() });
        } else {
            self.settings_panel.confirm(action);
        }
    }
}

} // verus!
