//! What the main window knows of the settings page, and the lists of apps that
//! are kept there.

use vstd::prelude::*;

use crate::filters::{lemma_filter_start, lemma_filter_step, lemma_filter_twice};
use crate::text::{
    contains_name, drop_name, eq_ignore_ascii_case, holds_name, other_than, same_name, str_eq,
};

verus! {

/// The tab of the settings about the clipboard.
pub const CLIPBOARD_TAB: usize = 1;

/// The tab of the settings about hotkeys.
pub const HOTKEY_TAB: usize = 2;

/// The tab of the settings about the version.
pub const VERSION_TAB: usize = 5;

/// Something that the settings page asks to be confirmed.
#[derive(Debug, Clone, PartialEq, Eq)]
pub enum HotkeyConfirmAction {
    AddBlacklist { app_name: String },
    RemoveBlacklist { app_name: String },
    AddPasteShortcut { app_name: String, shortcut: String },
    RemovePasteShortcut { app_name: String },
    AddClipboardBlacklist { app_name: String },
    RemoveClipboardBlacklist { app_name: String },
    WinVTakeoverEnable,
    WinVTakeoverDisable,
    WinVManualSetup,
}

impl HotkeyConfirmAction {
    /// A copy of this action.
    pub fn duplicate(&self) -> (r: Self)
        ensures
            r == *self,
    {
        match self {
            HotkeyConfirmAction::AddBlacklist { app_name } => HotkeyConfirmAction::AddBlacklist {
                app_name: app_name.clone(),
            },
            HotkeyConfirmAction::RemoveBlacklist { app_name } =>
                HotkeyConfirmAction::RemoveBlacklist { app_name: app_name.clone() },
            HotkeyConfirmAction::AddPasteShortcut { app_name, shortcut } =>
                HotkeyConfirmAction::AddPasteShortcut {
                app_name: app_name.clone(),
                shortcut: shortcut.clone(),
            },
            HotkeyConfirmAction::RemovePasteShortcut { app_name } =>
                HotkeyConfirmAction::RemovePasteShortcut { app_name: app_name.clone() },
            HotkeyConfirmAction::AddClipboardBlacklist { app_name } =>
                HotkeyConfirmAction::AddClipboardBlacklist { app_name: app_name.clone() },
            HotkeyConfirmAction::RemoveClipboardBlacklist { app_name } =>
                HotkeyConfirmAction::RemoveClipboardBlacklist { app_name: app_name.clone() },
            HotkeyConfirmAction::WinVTakeoverEnable => HotkeyConfirmAction::WinVTakeoverEnable,
            HotkeyConfirmAction::WinVTakeoverDisable => HotkeyConfirmAction::WinVTakeoverDisable,
            HotkeyConfirmAction::WinVManualSetup => HotkeyConfirmAction::WinVManualSetup,
        }
    }
}

/// A shortcut that pastes in an app.
#[derive(Debug, Clone, PartialEq, Eq)]
pub struct PasteShortcutEntry {
    pub app_name: String,
    pub shortcut: String,
}

/// The lists of apps in the settings.
#[derive(Debug, Clone, PartialEq, Eq)]
pub struct AppLists {
    pub paste_shortcuts: Vec<PasteShortcutEntry>,
    /// The apps in which no hotkey works.
    pub hotkey_blacklist: Vec<String>,
    /// The apps from which nothing is taken over.
    pub clipboard_app_blacklist: Vec<String>,
}

/// The contents of an `AppLists`.
#[verifier::ext_equal]
pub ghost struct AppListsModel {
    pub paste_shortcuts: Seq<PasteShortcutEntry>,
    pub hotkey_blacklist: Seq<String>,
    pub clipboard_app_blacklist: Seq<String>,
}

impl View for AppLists {
    type V = AppListsModel;

    open spec fn view(&self) -> AppListsModel {
        AppListsModel {
            paste_shortcuts: self.paste_shortcuts@,
            hotkey_blacklist: self.hotkey_blacklist@,
            clipboard_app_blacklist: self.clipboard_app_blacklist@,
        }
    }
}

/// What the main window knows of the settings page.
#[derive(Debug, Clone, PartialEq, Eq)]
pub struct SettingsPanelState {
    pub active_tab: usize,
    pub latest_hotkeys_popup_open: bool,
    pub hotkey_blacklist_popup_open: bool,
    pub paste_shortcuts_popup_open: bool,
    pub app_blacklist_popup_open: bool,
    pub backend_panel_open: bool,
    /// The app whose paste shortcut is being recorded.
    pub recording_paste_shortcut: Option<String>,
    pub hotkey_confirm: Option<HotkeyConfirmAction>,
}

impl SettingsPanelState {
    /// The same, with no popup of a list of apps.
    pub open spec fn without_popups(self) -> Self {
        SettingsPanelState {
            hotkey_blacklist_popup_open: false,
            paste_shortcuts_popup_open: false,
            app_blacklist_popup_open: false,
            ..self
        }
    }

    /// The same, with no paste shortcut being recorded.
    pub open spec fn not_recording(self) -> Self {
        SettingsPanelState { recording_paste_shortcut: None, ..self }
    }

    /// The same, with a paste shortcut being recorded.
    pub open spec fn recording(self, app_name: String) -> Self {
        SettingsPanelState { recording_paste_shortcut: Some(app_name), ..self }
    }

    /// The same, with something to be confirmed, or nothing.
    pub open spec fn confirming(self, action: Option<HotkeyConfirmAction>) -> Self {
        SettingsPanelState { hotkey_confirm: action, ..self }
    }

    /// The same, with everything closed that lies over the page.
    pub open spec fn closed(self) -> Self {
        SettingsPanelState {
            latest_hotkeys_popup_open: false,
            hotkey_confirm: None,
            ..self.without_popups()
        }
    }

    /// A settings page with nothing open.
    pub fn new() -> (r: Self)
        ensures
            r == (SettingsPanelState {
                active_tab: 0,
                latest_hotkeys_popup_open: false,
                hotkey_blacklist_popup_open: false,
                paste_shortcuts_popup_open: false,
                app_blacklist_popup_open: false,
                backend_panel_open: false,
                recording_paste_shortcut: None,
                hotkey_confirm: None,
            }),
    {
        SettingsPanelState {
            active_tab: 0,
            latest_hotkeys_popup_open: false,
            hotkey_blacklist_popup_open: false,
            paste_shortcuts_popup_open: false,
            app_blacklist_popup_open: false,
            backend_panel_open: false,
            recording_paste_shortcut: None,
            hotkey_confirm: None,
        }
    }

    /// Closes the popups of the lists of apps.
    pub fn close_app_list_popups(&mut self)
        ensures
            *final(self) == old(self).without_popups(),
    {
        self.hotkey_blacklist_popup_open = false;
        self.paste_shortcuts_popup_open = false;
        self.app_blacklist_popup_open = false;
    }

    /// Leaves the recording of a paste shortcut.
    pub fn clear_paste_shortcut_state(&mut self)
        ensures
            *final(self) == old(self).not_recording(),
    {
        self.recording_paste_shortcut = None;
    }

    /// Asks for something to be confirmed.
    pub fn confirm(&mut self, action: HotkeyConfirmAction)
        ensures
            *final(self) == old(self).confirming(Some(action)),
    {
        self.hotkey_confirm = Some(action);
    }

    /// Drops what was to be confirmed.
    pub fn clear_hotkey_confirm(&mut self)
        ensures
            *final(self) == old(self).confirming(None),
    {
        self.hotkey_confirm = None;
    }

    /// Closes everything that lies over the page.
    pub fn close_all(&mut self)
        ensures
            *final(self) == old(self).closed(),
    {
        self.close_app_list_popups();
        self.latest_hotkeys_popup_open = false;
        self.hotkey_confirm = None;
    }
}

/// Holds of the shortcuts of other apps.
pub open spec fn of_other_app(app_name: Seq<char>) -> spec_fn(PasteShortcutEntry) -> bool {
    |entry: PasteShortcutEntry| entry.app_name@ != app_name
}

/// The names for which there is no mark.
pub open spec fn unmarked(names: Seq<String>, marks: Seq<bool>) -> Seq<String>
    decreases names.len(),
{
    if names.len() == 0 {
        Seq::empty()
    } else {
        let before = unmarked(names.drop_last(), marks);
        if marks[names.len() - 1] {
            before
        } else {
            before.push(names.last())
        }
    }
}

impl AppListsModel {
    /// The same, with an app's paste shortcut set, in place of an earlier one.
    pub open spec fn with_shortcut(self, app_name: String, shortcut: String) -> Self {
        AppListsModel {
            paste_shortcuts: self.without_shortcut(app_name@).paste_shortcuts.push(
                PasteShortcutEntry { app_name, shortcut },
            ),
            ..self
        }
    }

    /// The same, with no paste shortcut of an app.
    pub open spec fn without_shortcut(self, app_name: Seq<char>) -> Self {
        AppListsModel {
            paste_shortcuts: self.paste_shortcuts.filter(of_other_app(app_name)),
            ..self
        }
    }

    /// The same, with no hotkey in an app.
    pub open spec fn blocking_hotkeys(self, app_name: String) -> Self {
        if holds_name(self.hotkey_blacklist, app_name@) {
            self
        } else {
            AppListsModel { hotkey_blacklist: self.hotkey_blacklist.push(app_name), ..self }
        }
    }

    /// The same, with hotkeys in an app again.
    pub open spec fn allowing_hotkeys(self, app_name: Seq<char>) -> Self {
        AppListsModel {
            hotkey_blacklist: self.hotkey_blacklist.filter(other_than(app_name)),
            ..self
        }
    }

    /// The same, with nothing taken over from an app; `listed` says whether it is
    /// already so.
    pub open spec fn blocking_clipboard(self, app_name: String, listed: bool) -> Self {
        if listed {
            self
        } else {
            AppListsModel {
                clipboard_app_blacklist: self.clipboard_app_blacklist.push(app_name),
                ..self
            }
        }
    }

    /// The same, without the apps that are marked.
    pub open spec fn allowing_clipboard(self, marks: Seq<bool>) -> Self {
        AppListsModel {
            clipboard_app_blacklist: unmarked(self.clipboard_app_blacklist, marks),
            ..self
        }
    }
}

impl AppLists {
    /// No app in any list.
    pub fn new() -> (r: Self)
        ensures
            r@ == (AppListsModel {
                paste_shortcuts: Seq::empty(),
                hotkey_blacklist: Seq::empty(),
                clipboard_app_blacklist: Seq::empty(),
            }),
    {
        AppLists {
            paste_shortcuts: Vec::new(),
            hotkey_blacklist: Vec::new(),
            clipboard_app_blacklist: Vec::new(),
        }
    }

    /// Removes an app's paste shortcut.
    pub fn remove_shortcut(&mut self, app_name: &str)
        ensures
            final(self)@ == old(self)@.without_shortcut(app_name@),
    {
        let mut kept: Vec<PasteShortcutEntry> = Vec::new();
        let mut i: usize = 0;
        let ghost keep = of_other_app(app_name@);
        let ghost all = self.paste_shortcuts@;
        proof {
            lemma_filter_start(all, keep);
        }
        while i < self.paste_shortcuts.len()
            invariant
                0 <= i <= self.paste_shortcuts.len(),
                *self == *old(self),
                all == self.paste_shortcuts@,
                keep == of_other_app(app_name@),
                kept@ == all.take(i as int).filter(keep),
            decreases self.paste_shortcuts.len() - i,
        {
            proof {
                lemma_filter_step(all, keep, i as int);
            }
            let entry = &self.paste_shortcuts[i];
            if !str_eq(entry.app_name.as_str(), app_name) {
                kept.push(
                    PasteShortcutEntry {
                        app_name: entry.app_name.clone(),
                        shortcut: entry.shortcut.clone(),
                    },
                );
            }
            i += 1;
        }
        assert(all.take(i as int) =~= all);
        self.paste_shortcuts = kept;
    }

    /// Sets an app's paste shortcut, in place of an earlier one.
    pub fn add_shortcut(&mut self, app_name: String, shortcut: String)
        ensures
            final(self)@ == old(self)@.with_shortcut(app_name, shortcut),
    {
        self.remove_shortcut(app_name.as_str());
        self.paste_shortcuts.push(PasteShortcutEntry { app_name, shortcut });
    }

    /// Lets no hotkey work in an app. Says whether that is new.
    pub fn block_hotkeys(&mut self, app_name: String) -> (r: bool)
        ensures
            r == !holds_name(old(self)@.hotkey_blacklist, app_name@),
            final(self)@ == old(self)@.blocking_hotkeys(app_name),
    {
        if contains_name(self.hotkey_blacklist.as_slice(), app_name.as_str()) {
            return false;
        }
        self.hotkey_blacklist.push(app_name);
        true
    }

    /// Lets hotkeys work in an app again.
    pub fn allow_hotkeys(&mut self, app_name: &str)
        ensures
            final(self)@ == old(self)@.allowing_hotkeys(app_name@),
    {
        drop_name(&mut self.hotkey_blacklist, app_name);
    }

    /// Takes nothing over from an app. Says whether that is new.
    pub fn block_clipboard(&mut self, app_name: String, listed: bool) -> (r: bool)
        ensures
            r == !listed,
            final(self)@ == old(self)@.blocking_clipboard(app_name, listed),
    {
        if listed {
            return false;
        }
        self.clipboard_app_blacklist.push(app_name);
        true
    }

    /// Takes over from the marked apps again.
    pub fn allow_clipboard(&mut self, marks: &[bool])
        requires
            marks@.len() == old(self)@.clipboard_app_blacklist.len(),
        ensures
            final(self)@ == old(self)@.allowing_clipboard(marks@),
    {
        let mut kept: Vec<String> = Vec::new();
        let mut i: usize = 0;
        let ghost all = self.clipboard_app_blacklist@;
        assert(all.take(0) =~= Seq::<String>::empty());
        while i < self.clipboard_app_blacklist.len()
            invariant
                0 <= i <= self.clipboard_app_blacklist.len(),
                *self == *old(self),
                all == self.clipboard_app_blacklist@,
                marks@.len() == all.len(),
                kept@ == unmarked(all.take(i as int), marks@),
            decreases self.clipboard_app_blacklist.len() - i,
        {
            assert(all.take(i + 1).drop_last() =~= all.take(i as int));
            if !marks[i] {
                kept.push(self.clipboard_app_blacklist[i].clone());
            }
            i += 1;
        }
        assert(all.take(i as int) =~= all);
        self.clipboard_app_blacklist = kept;
    }
}

/// An entry in a popup of a list of apps.
#[derive(Debug, Clone, PartialEq, Eq)]
pub struct AppListEntry {
    pub app_name: String,
    pub shortcut: Option<String>,
    /// Whether the app's paste shortcut is being recorded.
    pub is_recording_target: bool,
}

/// What the button of a popup that adds an app offers.
#[derive(Clone, Copy, Debug, PartialEq, Eq, Structural)]
pub enum AddButton {
    /// There is none.
    Hidden,
    /// To add the app in the foreground.
    AddForeground,
    /// To stop the recording.
    StopRecording,
}

/// The entry of a paste shortcut.
pub open spec fn shortcut_entry(
    entry: PasteShortcutEntry,
    recording: Option<String>,
) -> AppListEntry {
    AppListEntry {
        app_name: entry.app_name,
        shortcut: Some(entry.shortcut),
        is_recording_target: match recording {
            Some(app) => same_name(app@, entry.app_name@),
            None => false,
        },
    }
}

/// The entries of the popup of the paste shortcuts.
pub fn shortcut_entries(lists: &AppLists, recording: &Option<String>) -> (r: Vec<AppListEntry>)
    ensures
        r@.len() == lists@.paste_shortcuts.len(),
        forall|i: int|
            0 <= i < r@.len() ==> #[trigger] r@[i] == shortcut_entry(
                lists@.paste_shortcuts[i],
                *recording,
            ),
{
    let mut r: Vec<AppListEntry> = Vec::new();
    let mut i: usize = 0;
    while i < lists.paste_shortcuts.len()
        invariant
            0 <= i <= lists.paste_shortcuts.len(),
            r@.len() == i,
            forall|j: int|
                0 <= j < i ==> #[trigger] r@[j] == shortcut_entry(
                    lists@.paste_shortcuts[j],
                    *recording,
                ),
        decreases lists.paste_shortcuts.len() - i,
    {
        let entry = &lists.paste_shortcuts[i];
        let is_recording_target = match recording {
            Some(app) => eq_ignore_ascii_case(app.as_str(), entry.app_name.as_str()),
            None => false,
        };
        r.push(
            AppListEntry {
                app_name: entry.app_name.clone(),
                shortcut: Some(entry.shortcut.clone()),
                is_recording_target,
            },
        );
        i += 1;
    }
    r
}

/// The entries of a popup of a list of names.
pub fn name_entries(names: &[String]) -> (r: Vec<AppListEntry>)
    ensures
        r@.len() == names@.len(),
        forall|i: int|
            0 <= i < r@.len() ==> #[trigger] r@[i] == (AppListEntry {
                app_name: names@[i],
                shortcut: None,
                is_recording_target: false,
            }),
{
    let mut r: Vec<AppListEntry> = Vec::new();
    let mut i: usize = 0;
    while i < names.len()
        invariant
            0 <= i <= names.len(),
            r@.len() == i,
            forall|j: int|
                0 <= j < i ==> #[trigger] r@[j] == (AppListEntry {
                    app_name: names@[j],
                    shortcut: None,
                    is_recording_target: false,
                }),
        decreases names.len() - i,
    {
        r.push(
            AppListEntry {
                app_name: names[i].clone(),
                shortcut: None,
                is_recording_target: false,
            },
        );
        i += 1;
    }
    r
}

/// What the button offers that adds an app: nothing where no app is in the
/// foreground, unless it stops a recording.
pub fn add_button(foreground_app: &str, recording: bool) -> (r: AddButton)
    ensures
        r == (if recording {
            AddButton::StopRecording
        } else if foreground_app@.len() > 0 {
            AddButton::AddForeground
        } else {
            AddButton::Hidden
        }),
{
    if recording {
        AddButton::StopRecording
    } else if foreground_app.unicode_len() > 0 {
        AddButton::AddForeground
    } else {
        AddButton::Hidden
    }
}

/// Setting an app's paste shortcut leaves exactly one entry for the app, and the
/// entries of the other apps.
pub proof fn law_one_shortcut_for_each_app(
    lists: AppListsModel,
    app_name: String,
    shortcut: String,
    i: int,
)
    requires
        0 <= i < lists.with_shortcut(app_name, shortcut).paste_shortcuts.len(),
    ensures
        lists.with_shortcut(app_name, shortcut).paste_shortcuts[i].app_name@ == app_name@ <==> i
            == lists.with_shortcut(app_name, shortcut).paste_shortcuts.len() - 1,
        lists.with_shortcut(app_name, shortcut).paste_shortcuts.last() == (PasteShortcutEntry {
            app_name,
            shortcut,
        }),
{
    let kept = lists.paste_shortcuts.filter(of_other_app(app_name@));
    if i < kept.len() {
        lists.paste_shortcuts.lemma_filter_pred(of_other_app(app_name@), i);
    }
}

/// Removing what was set last restores the other apps' shortcuts.
pub proof fn law_removing_a_shortcut_undoes_setting_it(
    lists: AppListsModel,
    app_name: String,
    shortcut: String,
)
    ensures
        lists.with_shortcut(app_name, shortcut).without_shortcut(app_name@)
            == lists.without_shortcut(app_name@),
{
    let keep = of_other_app(app_name@);
    let kept = lists.paste_shortcuts.filter(keep);
    kept.lemma_filter_push(PasteShortcutEntry { app_name, shortcut }, keep);
    lemma_filter_twice(lists.paste_shortcuts, keep);
}

/// Blocking an app twice is blocking it once, and allowing it undoes that.
pub proof fn law_blocking_is_idempotent(lists: AppListsModel, app_name: String)
    ensures
        lists.blocking_hotkeys(app_name).blocking_hotkeys(app_name) == lists.blocking_hotkeys(
            app_name,
        ),
        holds_name(lists.blocking_hotkeys(app_name).hotkey_blacklist, app_name@),
        !holds_name(
            lists.blocking_hotkeys(app_name).allowing_hotkeys(app_name@).hotkey_blacklist,
            app_name@,
        ),
{
    let names = lists.hotkey_blacklist;
    let after = lists.blocking_hotkeys(app_name).hotkey_blacklist;
    if !holds_name(names, app_name@) {
        assert(after[names.len() as int]@ == app_name@);
    }
    let keep = other_than(app_name@);
    let kept = after.filter(keep);
    assert forall|i: int| 0 <= i < kept.len() implies (#[trigger] kept[i])@ != app_name@ by {
        after.lemma_filter_pred(keep, i);
    }
}

} // verus!
