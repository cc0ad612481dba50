//! What the questions, the lists of apps and the messages of the window are for.

use vstd::prelude::*;

use crate::app_state::{Op, RequestModel};
use crate::clipboard_list::{ConfirmModel, ListModel};
use crate::filters::{keeps_wanted, lemma_filter_places};
use crate::navigation::MainView;
use crate::root::{RootModel, RootTexts, TagDeleteTarget, WindowEvent};
use crate::root_dialogs::{clear_question, removing, AppListPopup, ClearableCounts};
use crate::selection_laws::{adds, bare, lemma_added};
use crate::settings_panel::{
    of_other_app, unmarked, AppListEntry, AppListsModel, HotkeyConfirmAction, PasteShortcutEntry,
    SettingsPanelState, VERSION_TAB,
};
use crate::text::{filled, other_than, same_name};
use crate::toast::{SlotModel, ToastButtons, ToastModel, ToastPair, ToastTimer, TOAST_ANIM_NANOS};
use crate::update_toast::{UpdatePhase, UpdateTexts, FAILURE_NANOS, OFFER_NANOS, PROGRESS_NANOS};
use crate::view_laws::has_tag;
use crate::window_laws::{names, only_asks};

verus! {

/// A request that is about names.
pub open spec fn about(op: Op, list: Seq<String>) -> RequestModel {
    RequestModel { op, ids: Seq::empty(), names: list }
}

/// Whether the question of the list is gone, and nothing else of the window but
/// that work was asked for.
pub open spec fn answered<S>(
    before: RootModel<S>,
    after: RootModel<S>,
    requests: Seq<RequestModel>,
) -> bool {
    &&& after == (RootModel {
        app: after.app,
        list: ListModel { confirm_dialog: None, ..before.list },
        ..before
    })
    &&& adds(before.app, after.app, requests)
}

/// Items that the list asked about are deleted on the answer yes, the one that the
/// question names or the selected ones, and they are taken out of the list.
pub proof fn law_items_that_were_asked_about_are_deleted<S>(
    root: RootModel<S>,
    id: i64,
    count: nat,
)
    ensures
        ({
            let after = root.list_question_confirmed();
            &&& root.list.confirm_dialog is None ==> after == root
            &&& root.list.confirm_dialog == Some(ConfirmModel::Single { id }) ==> answered(
                root,
                after,
                seq![bare(Op::DeleteItem { id }), bare(Op::SyncList)],
            )
            &&& root.list.confirm_dialog == Some(ConfirmModel::Batch { count }) ==> answered(
                root,
                after,
                seq![bare(Op::BatchDelete), bare(Op::SyncList)],
            )
        }),
{
    lemma_added(root.app.requests);
}

/// Entries of the transfer station that the list asked about are deleted on the
/// answer yes, those that the question names.
pub proof fn law_entries_that_were_asked_about_are_deleted<S>(
    root: RootModel<S>,
    hash: String,
    hashes: Seq<String>,
)
    ensures
        ({
            let after = root.list_question_confirmed();
            &&& root.list.confirm_dialog == Some(ConfirmModel::Transfer { hash }) ==> answered(
                root,
                after,
                seq![bare(Op::DeleteTransferEntry { hash })],
            )
            &&& root.list.confirm_dialog == Some(ConfirmModel::TransferBatch { hashes })
                ==> answered(root, after, seq![about(Op::DeleteTransferEntries, hashes)])
        }),
{
    lemma_added(root.app.requests);
}

/// On the answer no nothing is deleted, and the question is gone.
pub proof fn law_nothing_is_deleted_unasked<S>(root: RootModel<S>)
    ensures
        root.list_question_dropped() == (RootModel {
            list: ListModel { confirm_dialog: None, ..root.list },
            ..root
        }),
{
}

/// A tag is deleted on the answer yes while there is such a tag; otherwise the
/// question is dropped. Once it is deleted, the tags are shown anew; where that
/// failed, it is said so and the question stays.
pub proof fn law_tags_are_deleted_while_they_are_there<S>(
    root: RootModel<S>,
    target: TagDeleteTarget,
    texts: RootTexts,
)
    ensures
        ({
            let after = root.tag_delete_confirmed();
            &&& root.pending_tag_delete is None ==> after == root
            &&& root.pending_tag_delete == Some(target) && has_tag(root.app.tags, target.id)
                ==> only_asks(root, after, seq![bare(Op::DeleteTag { tag_id: target.id })])
            &&& root.pending_tag_delete == Some(target) && !has_tag(root.app.tags, target.id)
                ==> after == (RootModel { pending_tag_delete: None, ..root })
        }),
        ({
            let after = root.tag_deleted(true, texts);
            &&& after == (RootModel { app: after.app, pending_tag_delete: None, ..root })
            &&& adds(root.app, after.app, seq![bare(Op::RefreshTagList)])
        }),
        only_asks(
            root,
            root.tag_deleted(false, texts),
            seq![bare(Op::ShowToast { message: texts.tag_delete_failed })],
        ),
        root.tag_kept() == (RootModel { pending_tag_delete: None, ..root }),
{
    lemma_added(root.app.requests);
    let tags = root.app.tags;
    if has_tag(tags, target.id) {
        let k = choose|k: int| 0 <= k < tags.len() && (#[trigger] tags[k]).id == target.id;
        crate::tags::lemma_tag_is_known(tags, k);
    }
    if crate::tags::known(tags)(target.id) {
        let k = choose|k: int| crate::tags::is_tag_place(tags, target.id, k);
        assert(crate::tags::is_tag_place(tags, target.id, k));
        assert(tags[k].id == target.id);
    }
}

/// The number of items to clear is that of the items which are no favorites,
/// unless favorites are added, and are not tagged, unless tagged items are added.
/// Here `history` says of each item whether it is a favorite and whether it is
/// tagged.
pub proof fn law_cleared_items_are_counted(
    counts: ClearableCounts,
    history: Seq<(bool, bool)>,
    favorites: bool,
    tagged: bool,
)
    requires
        counts.plain == history.filter(|item: (bool, bool)| !item.0 && !item.1).len(),
        counts.untagged == history.filter(|item: (bool, bool)| !item.1).len(),
        counts.not_favorite == history.filter(|item: (bool, bool)| !item.0).len(),
        counts.all == history.len(),
    ensures
        counts.chosen(favorites, tagged) == history.filter(
            |item: (bool, bool)| (favorites || !item.0) && (tagged || !item.1),
        ).len(),
{
    let keep = |item: (bool, bool)| (favorites || !item.0) && (tagged || !item.1);
    if favorites && tagged {
        crate::filters::lemma_filter_all(history, keep);
    } else if favorites {
        assert(keep =~= |item: (bool, bool)| !item.1);
    } else if tagged {
        assert(keep =~= |item: (bool, bool)| !item.0);
    } else {
        assert(keep =~= |item: (bool, bool)| !item.0 && !item.1);
    }
}

/// The answer to the request to clear the history ends the question; a refusal is
/// explained.
pub proof fn law_clearing_is_answered<S>(root: RootModel<S>, texts: RootTexts)
    ensures
        root.clear_data_answered(true, texts) == (RootModel { clear_data_confirm: false, ..root }),
        root.clear_data_answered(false, texts) == (RootModel {
            clear_data_confirm: false,
            slot: SlotModel { message: Some(texts.cleaning@), ..root.slot },
            ..root
        }),
{
}

/// Whether only the lists of apps are others, what was to be confirmed is done,
/// and this work was asked for.
pub open spec fn relisted<S>(
    before: RootModel<S>,
    after: RootModel<S>,
    requests: Seq<RequestModel>,
) -> bool {
    &&& after == (RootModel {
        app: after.app,
        lists: after.lists,
        panel: SettingsPanelState { hotkey_confirm: None, ..before.panel },
        ..before
    })
    &&& adds(before.app, after.app, requests)
}

/// An app in which no hotkey is to work is added to those apps. The program gets
/// the new list, which is stored.
pub proof fn law_hotkeys_are_blocked_in_the_app<S>(
    root: RootModel<S>,
    app_name: String,
    listed: bool,
    marks: Seq<bool>,
)
    requires
        !names(root.lists.hotkey_blacklist, app_name@),
    ensures
        ({
            let after = root.done(
                HotkeyConfirmAction::AddBlacklist { app_name },
                listed,
                marks,
            );
            let list = root.lists.hotkey_blacklist + seq![app_name];
            &&& after.lists == (AppListsModel { hotkey_blacklist: list, ..root.lists })
            &&& relisted(
                root,
                after,
                seq![bare(Op::SaveSettings), about(Op::SetHotkeyBlacklist, list)],
            )
        }),
{
    lemma_added(root.app.requests);
    assert(root.lists.hotkey_blacklist.push(app_name) =~= root.lists.hotkey_blacklist + seq![
        app_name,
    ]);
    assert(root.done(HotkeyConfirmAction::AddBlacklist { app_name }, listed, marks)
        == root.hotkeys_blocked(app_name));
}

/// An app in which no hotkey works already is not added again. The program gets
/// the list as it is.
pub proof fn law_blocked_apps_are_listed_once<S>(
    root: RootModel<S>,
    app_name: String,
    listed: bool,
    marks: Seq<bool>,
)
    requires
        names(root.lists.hotkey_blacklist, app_name@),
    ensures
        ({
            let after = root.done(
                HotkeyConfirmAction::AddBlacklist { app_name },
                listed,
                marks,
            );
            &&& after.lists == root.lists
            &&& relisted(
                root,
                after,
                seq![about(Op::SetHotkeyBlacklist, root.lists.hotkey_blacklist)],
            )
        }),
{
    lemma_added(root.app.requests);
    assert(root.done(HotkeyConfirmAction::AddBlacklist { app_name }, listed, marks)
        == root.hotkeys_blocked(app_name));
}

/// An app in which hotkeys are to work again is taken out of those apps, with
/// every entry of its name, and the others stay in their order.
pub proof fn law_hotkeys_are_allowed_in_the_app<S>(
    root: RootModel<S>,
    app_name: String,
    listed: bool,
    marks: Seq<bool>,
) -> (places: Seq<int>)
    ensures
        ({
            let after = root.done(
                HotkeyConfirmAction::RemoveBlacklist { app_name },
                listed,
                marks,
            );
            &&& after.lists == (AppListsModel {
                hotkey_blacklist: after.lists.hotkey_blacklist,
                ..root.lists
            })
            &&& keeps_wanted(
                root.lists.hotkey_blacklist,
                after.lists.hotkey_blacklist,
                |name: String| name@ != app_name@,
                places,
            )
            &&& relisted(
                root,
                after,
                seq![
                    bare(Op::SaveSettings),
                    about(Op::SetHotkeyBlacklist, after.lists.hotkey_blacklist),
                ],
            )
        }),
{
    lemma_added(root.app.requests);
    lemma_filter_places(root.lists.hotkey_blacklist, other_than(app_name@))
}

/// An app from which nothing is to be taken over is added to those apps, unless it
/// is one of them.
pub proof fn law_the_app_is_not_listened_to<S>(
    root: RootModel<S>,
    app_name: String,
    listed: bool,
    marks: Seq<bool>,
)
    ensures
        ({
            let before = root.lists.clipboard_app_blacklist;
            let after = root.done(
                HotkeyConfirmAction::AddClipboardBlacklist { app_name },
                listed,
                marks,
            );
            &&& after.lists == (AppListsModel {
                clipboard_app_blacklist: after.lists.clipboard_app_blacklist,
                ..root.lists
            })
            &&& listed ==> after.lists == root.lists && relisted(
                root,
                after,
                seq![about(Op::SetClipboardBlacklist, before)],
            )
            &&& !listed ==> after.lists.clipboard_app_blacklist == before + seq![app_name]
                && relisted(
                root,
                after,
                seq![
                    bare(Op::SaveSettings),
                    about(Op::SetClipboardBlacklist, after.lists.clipboard_app_blacklist),
                ],
            )
        }),
{
    lemma_added(root.app.requests);
    assert(root.lists.clipboard_app_blacklist.push(app_name)
        =~= root.lists.clipboard_app_blacklist + seq![app_name]);
}

/// Whether `kept` holds those of `all` that have no mark, in their order. The
/// places are given.
pub open spec fn keeps_unmarked(
    all: Seq<String>,
    kept: Seq<String>,
    marks: Seq<bool>,
    places: Seq<int>,
) -> bool {
    &&& kept.len() == places.len()
    &&& forall|k: int|
        0 <= k < places.len() ==> 0 <= #[trigger] places[k] < all.len() && kept[k]
            == all[places[k]] && !marks[places[k]]
    &&& forall|j: int, k: int| 0 <= j < k < places.len() ==> places[j] < places[k]
    &&& forall|i: int| 0 <= i < all.len() && !marks[i] ==> #[trigger] places.contains(i)
}

/// What is left of names without those that have a mark.
proof fn lemma_unmarked(all: Seq<String>, marks: Seq<bool>) -> (places: Seq<int>)
    ensures
        keeps_unmarked(all, unmarked(all, marks), marks, places),
    decreases all.len(),
{
    if all.len() == 0 {
        Seq::empty()
    } else {
        let n = all.len() - 1;
        let rest = all.drop_last();
        let before = lemma_unmarked(rest, marks);
        if marks[n] {
            assert forall|k: int| 0 <= k < before.len() implies 0 <= #[trigger] before[k]
                < all.len() && unmarked(all, marks)[k] == all[before[k]] && !marks[before[k]] by {
                assert(rest[before[k]] == all[before[k]]);
            }
            before
        } else {
            let places = before.push(n);
            assert forall|k: int| 0 <= k < places.len() implies 0 <= #[trigger] places[k]
                < all.len() && unmarked(all, marks)[k] == all[places[k]] && !marks[places[k]] by {
                if k < before.len() {
                    assert(before[k] == places[k]);
                    assert(rest[before[k]] == all[before[k]]);
                }
            }
            assert forall|i: int| 0 <= i < all.len() && !marks[i] implies #[trigger]
            places.contains(i) by {
                if i < n {
                    assert(before.contains(i));
                    assert(places[before.index_of(i)] == i);
                } else {
                    assert(places[before.len() as int] == i);
                }
            }
            places
        }
    }
}

/// Apps that are listened to again are taken out of the apps from which nothing
/// is taken over: those that are marked, and no others.
pub proof fn law_the_app_is_listened_to_again<S>(
    root: RootModel<S>,
    app_name: String,
    listed: bool,
    marks: Seq<bool>,
) -> (places: Seq<int>)
    ensures
        ({
            let after = root.done(
                HotkeyConfirmAction::RemoveClipboardBlacklist { app_name },
                listed,
                marks,
            );
            &&& after.lists == (AppListsModel {
                clipboard_app_blacklist: after.lists.clipboard_app_blacklist,
                ..root.lists
            })
            &&& keeps_unmarked(
                root.lists.clipboard_app_blacklist,
                after.lists.clipboard_app_blacklist,
                marks,
                places,
            )
            &&& relisted(
                root,
                after,
                seq![
                    bare(Op::SaveSettings),
                    about(Op::SetClipboardBlacklist, after.lists.clipboard_app_blacklist),
                ],
            )
        }),
{
    lemma_added(root.app.requests);
    lemma_unmarked(root.lists.clipboard_app_blacklist, marks)
}

/// Whether only the paste shortcuts are others, the recording and the question
/// about them are over, and the settings are to be stored.
pub open spec fn shortcuts_stored<S>(before: RootModel<S>, after: RootModel<S>) -> bool {
    &&& after == (RootModel {
        app: after.app,
        lists: AppListsModel { paste_shortcuts: after.lists.paste_shortcuts, ..before.lists },
        panel: SettingsPanelState {
            hotkey_confirm: None,
            recording_paste_shortcut: None,
            ..before.panel
        },
        ..before
    })
    &&& adds(before.app, after.app, seq![bare(Op::SaveSettings)])
}

/// A paste shortcut that is to go is gone. The other apps keep theirs, in their
/// order.
pub proof fn law_paste_shortcuts_are_removed<S>(
    root: RootModel<S>,
    app_name: String,
    listed: bool,
    marks: Seq<bool>,
) -> (places: Seq<int>)
    ensures
        ({
            let after = root.done(
                HotkeyConfirmAction::RemovePasteShortcut { app_name },
                listed,
                marks,
            );
            &&& shortcuts_stored(root, after)
            &&& keeps_wanted(
                root.lists.paste_shortcuts,
                after.lists.paste_shortcuts,
                |entry: PasteShortcutEntry| entry.app_name@ != app_name@,
                places,
            )
        }),
{
    lemma_added(root.app.requests);
    lemma_filter_places(root.lists.paste_shortcuts, of_other_app(app_name@))
}

/// A paste shortcut that was confirmed comes last, after those that are left
/// where the app's own is removed.
pub proof fn law_paste_shortcuts_are_replaced<S>(
    root: RootModel<S>,
    app_name: String,
    shortcut: String,
    listed: bool,
    marks: Seq<bool>,
)
    ensures
        ({
            let after = root.done(
                HotkeyConfirmAction::AddPasteShortcut { app_name, shortcut },
                listed,
                marks,
            );
            let others = root.lists.without_shortcut(app_name@).paste_shortcuts;
            &&& shortcuts_stored(root, after)
            &&& after.lists.paste_shortcuts == others + seq![
                PasteShortcutEntry { app_name, shortcut },
            ]
        }),
{
    lemma_added(root.app.requests);
    let kept = root.lists.paste_shortcuts.filter(of_other_app(app_name@));
    assert(kept.push(PasteShortcutEntry { app_name, shortcut }) =~= kept + seq![
        PasteShortcutEntry { app_name, shortcut },
    ]);
}

/// The settings page confirms a shortcut as the question does, and nothing else
/// through that event.
pub proof fn law_shortcuts_are_confirmed_alike<S>(
    root: RootModel<S>,
    action: HotkeyConfirmAction,
    listed: bool,
    marks: Seq<bool>,
)
    ensures
        action is AddPasteShortcut || action is RemovePasteShortcut ==> root.shortcut_confirmed(
            action,
        ) == root.done(action, listed, marks),
        !(action is AddPasteShortcut || action is RemovePasteShortcut) ==> root.shortcut_confirmed(
            action,
        ) == root,
{
}

/// The system's clipboard key is taken over or given back as was confirmed. What
/// is only explained asks for nothing.
pub proof fn law_clipboard_key_is_taken_over<S>(root: RootModel<S>, listed: bool, marks: Seq<bool>)
    ensures
        relisted(
            root,
            root.done(HotkeyConfirmAction::WinVTakeoverEnable, listed, marks),
            seq![bare(Op::SetWinVTakeover { enabled: true })],
        ),
        root.done(HotkeyConfirmAction::WinVTakeoverEnable, listed, marks).lists == root.lists,
        relisted(
            root,
            root.done(HotkeyConfirmAction::WinVTakeoverDisable, listed, marks),
            seq![bare(Op::SetWinVTakeover { enabled: false })],
        ),
        root.done(HotkeyConfirmAction::WinVTakeoverDisable, listed, marks).lists == root.lists,
        root.done(HotkeyConfirmAction::WinVManualSetup, listed, marks) == (RootModel {
            panel: SettingsPanelState { hotkey_confirm: None, ..root.panel },
            ..root
        }),
{
    lemma_added(root.app.requests);
}

/// What waits for its confirmation is what is done on the answer yes.
pub proof fn law_the_waiting_action_is_done<S>(
    root: RootModel<S>,
    action: HotkeyConfirmAction,
    listed: bool,
    marks: Seq<bool>,
)
    ensures
        root.panel.hotkey_confirm is None ==> root.action_confirmed(listed, marks) == root,
        root.panel.hotkey_confirm == Some(action) ==> root.action_confirmed(listed, marks)
            == root.done(action, listed, marks),
{
}

/// On the answer no nothing is done, and a shortcut is no longer recorded where
/// the question was about one.
pub proof fn law_the_waiting_action_is_dropped<S>(root: RootModel<S>, action: HotkeyConfirmAction)
    requires
        root.panel.hotkey_confirm == Some(action),
    ensures
        ({
            let after = root.action_declined();
            let shortcut = action is AddPasteShortcut || action is RemovePasteShortcut;
            &&& after == (RootModel { panel: after.panel, ..root })
            &&& after.panel == (SettingsPanelState {
                hotkey_confirm: None,
                recording_paste_shortcut: after.panel.recording_paste_shortcut,
                ..root.panel
            })
            &&& shortcut ==> after.panel.recording_paste_shortcut is None
            &&& !shortcut ==> after.panel.recording_paste_shortcut
                == root.panel.recording_paste_shortcut
        }),
{
}

/// Removing an app from a popup asks about that popup's list and about that app.
pub proof fn law_removals_are_about_their_list(popup: AppListPopup, app_name: String)
    ensures
        popup is HotkeyBlacklist <==> removing(popup, app_name)
            == (HotkeyConfirmAction::RemoveBlacklist { app_name }),
        popup is PasteShortcuts <==> removing(popup, app_name)
            == (HotkeyConfirmAction::RemovePasteShortcut { app_name }),
        popup is AppBlacklist <==> removing(popup, app_name)
            == (HotkeyConfirmAction::RemoveClipboardBlacklist { app_name }),
{
}

/// The button of a popup stops a recording only in the popup of the paste
/// shortcuts, and while there is one. Otherwise it is there where an app is in
/// the foreground.
pub proof fn law_popup_button_offers_what_can_be_done<S>(
    root: RootModel<S>,
    popup: AppListPopup,
    foreground_app: Seq<char>,
)
    ensures
        ({
            let button = root.popup_button(popup, foreground_app);
            &&& button is StopRecording <==> popup is PasteShortcuts
                && root.panel.recording_paste_shortcut is Some
            &&& button is AddForeground <==> foreground_app.len() > 0 && !(button is StopRecording)
            &&& button is Hidden ==> foreground_app.len() == 0
        }),
{
}

/// Closing a popup closes all three, and the popup of the paste shortcuts also
/// ends a recording.
pub proof fn law_closing_a_popup_ends_its_recording<S>(root: RootModel<S>, popup: AppListPopup)
    ensures
        ({
            let after = root.popup_closed(popup);
            let panel = SettingsPanelState {
                hotkey_blacklist_popup_open: false,
                paste_shortcuts_popup_open: false,
                app_blacklist_popup_open: false,
                ..root.panel
            };
            &&& !(popup is PasteShortcuts) ==> after == (RootModel { panel, ..root })
            &&& popup is PasteShortcuts ==> after == (RootModel {
                app: after.app,
                panel: SettingsPanelState { recording_paste_shortcut: None, ..panel },
                ..root
            }) && adds(root.app, after.app, seq![bare(Op::CancelPasteShortcutRecording)])
        }),
{
    lemma_added(root.app.requests);
}

/// The button of the popup of the paste shortcuts starts a recording for the app
/// in the foreground, or ends the one that runs.
pub proof fn law_shortcut_button_starts_and_stops<S>(
    root: RootModel<S>,
    foreground_app: String,
    listed: bool,
    texts: RootTexts,
)
    ensures
        ({
            let after = root.popup_button_used(
                AppListPopup::PasteShortcuts,
                foreground_app,
                listed,
                texts,
            );
            &&& root.panel.recording_paste_shortcut is Some ==> after == (RootModel {
                app: after.app,
                panel: SettingsPanelState { recording_paste_shortcut: None, ..root.panel },
                ..root
            }) && adds(root.app, after.app, seq![bare(Op::CancelPasteShortcutRecording)])
            &&& root.panel.recording_paste_shortcut is None && foreground_app@.len() > 0
                ==> after == (RootModel {
                app: after.app,
                panel: SettingsPanelState {
                    recording_paste_shortcut: Some(foreground_app),
                    ..root.panel
                },
                ..root
            }) && adds(
                root.app,
                after.app,
                seq![bare(Op::StartPasteShortcutRecording { app_name: foreground_app })],
            )
            &&& root.panel.recording_paste_shortcut is None && foreground_app@.len() == 0
                ==> after == root
        }),
{
    lemma_added(root.app.requests);
}

/// The button of a popup of a list of apps asks whether to add the app in the
/// foreground to that list; an app that is in it is not asked about again.
pub proof fn law_blacklist_buttons_ask_first<S>(
    root: RootModel<S>,
    foreground_app: String,
    listed: bool,
    texts: RootTexts,
)
    ensures
        ({
            let hotkeys = root.popup_button_used(
                AppListPopup::HotkeyBlacklist,
                foreground_app,
                listed,
                texts,
            );
            let clipboard = root.popup_button_used(
                AppListPopup::AppBlacklist,
                foreground_app,
                listed,
                texts,
            );
            let told = seq![bare(Op::ShowToast { message: texts.already_in_list })];
            &&& foreground_app@.len() == 0 ==> hotkeys == root && clipboard == root
            &&& foreground_app@.len() > 0 && listed ==> only_asks(root, hotkeys, told)
                && only_asks(root, clipboard, told)
            &&& foreground_app@.len() > 0 && !listed ==> hotkeys == (RootModel {
                panel: SettingsPanelState {
                    hotkey_confirm: Some(
                        HotkeyConfirmAction::AddBlacklist { app_name: foreground_app },
                    ),
                    ..root.panel
                },
                ..root
            })
            &&& foreground_app@.len() > 0 && !listed ==> clipboard == (RootModel {
                panel: SettingsPanelState {
                    hotkey_confirm: Some(
                        HotkeyConfirmAction::AddClipboardBlacklist { app_name: foreground_app },
                    ),
                    ..root.panel
                },
                ..root
            })
        }),
{
    lemma_added(root.app.requests);
}

/// A popup has an entry for each app of its list, in their order. Only the paste
/// shortcuts have one to show, and only the app that is being recorded for is
/// marked.
pub proof fn law_popups_list_their_apps<S>(root: RootModel<S>, i: int)
    ensures
        ({
            let entries = root.popup_entries(AppListPopup::HotkeyBlacklist);
            let list = root.lists.hotkey_blacklist;
            &&& entries.len() == list.len()
            &&& 0 <= i < list.len() ==> entries[i] == (AppListEntry {
                app_name: list[i],
                shortcut: None,
                is_recording_target: false,
            })
        }),
        ({
            let entries = root.popup_entries(AppListPopup::AppBlacklist);
            let list = root.lists.clipboard_app_blacklist;
            &&& entries.len() == list.len()
            &&& 0 <= i < list.len() ==> entries[i] == (AppListEntry {
                app_name: list[i],
                shortcut: None,
                is_recording_target: false,
            })
        }),
        ({
            let entries = root.popup_entries(AppListPopup::PasteShortcuts);
            let list = root.lists.paste_shortcuts;
            let recording = root.panel.recording_paste_shortcut;
            &&& entries.len() == list.len()
            &&& 0 <= i < list.len() ==> entries[i].app_name == list[i].app_name
                && entries[i].shortcut == Some(list[i].shortcut) && (entries[i].is_recording_target
                <==> recording is Some && same_name(recording.unwrap()@, list[i].app_name@))
        }),
{
}

/// A step brings up a message that was not there before, and lets one that is
/// there alone: a message that goes or has its timer is not touched. Where there
/// is none, nothing is left to go or to wait for.
pub proof fn law_steps_leave_running_messages_alone(
    pair: ToastPair,
    preparing: Seq<char>,
    now: u64,
    usual: u64,
)
    ensures
        ({
            let after = pair.advanced(preparing, now, usual);
            let started = pair.starts(preparing, now, usual);
            &&& after.last_message == pair.slot.message
            &&& pair.slot.message is None ==> started is None && after == (ToastModel {
                timer: None,
                dismissing: false,
                last_message: None,
                ..pair.toast
            })
            &&& pair.slot.message is Some && pair.slot.message == pair.toast.last_message && (
            pair.toast.dismissing || pair.toast.timer is Some) ==> started is None && after
                == pair.toast
        }),
{
}

/// A message that a bitmap is being prepared gets no timer, no end and no button.
pub proof fn law_preparing_waits(pair: ToastPair, preparing: Seq<char>, now: u64, usual: u64)
    requires
        pair.slot.message == Some(preparing),
        pair.slot.message != pair.toast.last_message || !pair.toast.dismissing
            && pair.toast.timer is None,
        pair.toast.generation < u64::MAX,
    ensures
        pair.starts(preparing, now, usual) is None,
        pair.advanced(preparing, now, usual) == (ToastModel {
            generation: if pair.slot.message != pair.toast.last_message {
                (pair.toast.generation + 1) as u64
            } else {
                pair.toast.generation
            },
            dismissing: false,
            timer: None,
            actions: None,
            expiry: None,
            last_message: Some(preparing),
        }),
{
}

/// Another message gets a timer that lets it go in time: at its end, or after the
/// usual time where it has none. Where too little of that is left, it gets none.
pub proof fn law_messages_go_in_time(
    pair: ToastPair,
    preparing: Seq<char>,
    now: u64,
    usual: u64,
    left: int,
)
    requires
        pair.slot.message is Some,
        pair.slot.message != Some(preparing),
        pair.slot.message != pair.toast.last_message || !pair.toast.dismissing
            && pair.toast.timer is None,
        pair.toast.generation < u64::MAX,
        pair.toast.expiry is None ==> left == usual,
        pair.toast.expiry is Some ==> left == pair.toast.expiry.unwrap() - now,
    ensures
        ({
            let token = (pair.toast.generation + 1) as u64;
            let after = pair.advanced(preparing, now, usual);
            let started = pair.starts(preparing, now, usual);
            &&& left > TOAST_ANIM_NANOS ==> started == Some(
                ToastTimer { token, nanos: (left - TOAST_ANIM_NANOS) as u64 },
            ) && after == (ToastModel {
                generation: token,
                timer: Some(token),
                dismissing: false,
                last_message: pair.slot.message,
                ..pair.toast
            })
            &&& left <= TOAST_ANIM_NANOS ==> started is None && after == (ToastModel {
                timer: None,
                dismissing: false,
                last_message: pair.slot.message,
                ..pair.toast
            })
        }),
{
}

/// Only the timer that a message has lets it go, and only the message that goes
/// by it is cleared.
pub proof fn law_only_the_current_timer_counts(pair: ToastPair, token: u64)
    ensures
        pair.toast.timer != Some(token) ==> pair.timer_ran_out(token) == pair && pair.has_gone(
            token,
        ) == pair,
        pair.toast.timer == Some(token) ==> pair.timer_ran_out(token) == (ToastPair {
            slot: pair.slot,
            toast: ToastModel { dismissing: true, ..pair.toast },
        }),
        pair.toast.timer == Some(token) ==> pair.has_gone(token) == (ToastPair {
            slot: SlotModel { message: None, is_warning: false },
            toast: ToastModel {
                dismissing: false,
                actions: None,
                expiry: None,
                ..pair.toast
            },
        }),
{
}

/// Whether a message replaces another one, with these words, these buttons and
/// this end.
pub open spec fn replaced_by(
    before: ToastPair,
    after: ToastPair,
    message: Seq<char>,
    actions: Option<ToastButtons>,
    end: int,
) -> bool {
    &&& after.slot == (SlotModel { message: Some(message), ..before.slot })
    &&& after.toast == (ToastModel {
        timer: None,
        dismissing: false,
        actions,
        expiry: after.toast.expiry,
        ..before.toast
    })
    &&& after.toast.expiry matches Some(at) && at == end
}

/// Whether the version is on the screen.
pub open spec fn version_is_shown<S>(root: RootModel<S>) -> bool {
    root.nav.current_view == MainView::Settings && root.panel.active_tab == VERSION_TAB
}

/// An update is offered with its version, for a while, and with the choice to
/// download it; but not where the version is on the screen.
pub proof fn law_updates_are_offered<S>(
    root: RootModel<S>,
    texts: RootTexts,
    version: String,
    now: u64,
)
    requires
        now + OFFER_NANOS <= u64::MAX,
    ensures
        ({
            let after = root.told(WindowEvent::UpdateAvailable { version }, texts, now);
            &&& version_is_shown(root) ==> after == root
            &&& !version_is_shown(root) ==> after == (RootModel {
                slot: after.slot,
                toast: after.toast,
                ..root
            }) && replaced_by(
                root.toasting(),
                after.toasting(),
                filled(texts.update.available@, version@),
                Some(ToastButtons::DownloadOrLater),
                now + OFFER_NANOS,
            )
        }),
{
}

/// The progress of an update is said, but not where the version is on the screen.
pub proof fn law_progress_is_said<S>(
    root: RootModel<S>,
    texts: RootTexts,
    phase: UpdatePhase,
    now: u64,
)
    ensures
        ({
            let after = root.told(WindowEvent::UpdateProgress { phase }, texts, now);
            &&& version_is_shown(root) ==> after == root
            &&& !version_is_shown(root) ==> after == (RootModel {
                slot: after.slot,
                toast: after.toast,
                ..root
            }) && after.toasting() == root.toasting().update_shown(texts.update, phase, now)
        }),
{
}

/// A finished update offers to restart, and a failed one says why. Both replace
/// what was said before. Where there is no news, nothing is said.
pub proof fn law_updates_come_to_an_end(
    pair: ToastPair,
    texts: UpdateTexts,
    message: String,
    now: u64,
)
    requires
        now + PROGRESS_NANOS <= u64::MAX,
    ensures
        replaced_by(
            pair,
            pair.update_shown(texts, UpdatePhase::ReadyToRestart, now),
            texts.ready@,
            Some(ToastButtons::Restart),
            now + PROGRESS_NANOS,
        ),
        replaced_by(
            pair,
            pair.update_shown(texts, UpdatePhase::Error { message }, now),
            filled(texts.error@, message@),
            Some(ToastButtons::Nothing),
            now + FAILURE_NANOS,
        ),
        pair.update_shown(texts, UpdatePhase::UpToDate, now) == pair,
        pair.update_shown(texts, UpdatePhase::Idle, now) == pair,
{
}

/// An update under way is said without buttons. Its first word takes the place of
/// an offer; later ones leave the timer of the message alone, and so do the other
/// stages.
pub proof fn law_updates_are_said_while_they_run(
    pair: ToastPair,
    texts: UpdateTexts,
    progress: String,
    now: u64,
)
    requires
        now + PROGRESS_NANOS <= u64::MAX,
    ensures
        ({
            let after = pair.update_shown(texts, UpdatePhase::Downloading { progress }, now);
            let words = filled(texts.downloading@, progress@);
            &&& after.slot == (SlotModel { message: Some(words), ..pair.slot })
            &&& pair.toast.actions is Some && pair.toast.actions != Some(ToastButtons::Nothing)
                ==> replaced_by(
                pair,
                after,
                words,
                Some(ToastButtons::Nothing),
                now + PROGRESS_NANOS,
            )
            &&& pair.toast.actions is None || pair.toast.actions == Some(ToastButtons::Nothing)
                ==> after.toast == (ToastModel {
                actions: Some(ToastButtons::Nothing),
                expiry: Some((now + PROGRESS_NANOS) as u64),
                ..pair.toast
            })
        }),
        pair.update_shown(texts, UpdatePhase::Verifying, now) == (ToastPair {
            slot: SlotModel { message: Some(texts.verifying@), ..pair.slot },
            toast: ToastModel { actions: Some(ToastButtons::Nothing), ..pair.toast },
        }),
        pair.update_shown(texts, UpdatePhase::Installing, now) == (ToastPair {
            slot: SlotModel { message: Some(texts.installing@), ..pair.slot },
            toast: ToastModel { actions: Some(ToastButtons::Nothing), ..pair.toast },
        }),
{
}

/// The history is asked to be cleared with the favorites and the tagged items
/// exactly where they were added.
pub proof fn law_what_was_added_is_cleared_too<S>(root: RootModel<S>)
    ensures
        only_asks(
            root,
            root.clear_data_confirmed(),
            seq![
                bare(
                    Op::RequestClearData {
                        include_favorites: root.clear_data_include_favorites,
                        include_tagged: root.clear_data_include_tagged,
                    },
                ),
            ],
        ),
{
    lemma_added(root.app.requests);
}

/// Where the system's clipboard key could not be taken over, a warning says why.
pub proof fn law_failed_takeovers_are_explained<S>(root: RootModel<S>, message: String)
    ensures
        root.takeover_answered(Ok(())) == root,
        root.takeover_answered(Err(message)) == (RootModel {
            slot: SlotModel { message: Some(message@), is_warning: true },
            ..root
        }),
{
}

/// The question whether to clear the history warns in a line of its own where one
/// of the backends syncs it, and only there.
pub proof fn law_clearing_warns_where_it_is_synced(
    question: Seq<char>,
    warning: Seq<char>,
    sync_backends: Seq<bool>,
    i: int,
)
    ensures
        ({
            let text = clear_question(question, warning, sync_backends);
            &&& text.take(question.len() as int) == question
            &&& 0 <= i < sync_backends.len() && sync_backends[i] ==> text.len() == question.len()
                + 1 + warning.len() && text[question.len() as int] == '\n' && text.skip(
                question.len() as int + 1,
            ) == warning
            &&& (forall|j: int| 0 <= j < sync_backends.len() ==> !#[trigger] sync_backends[j])
                ==> text == question
        }),
{
    let text = clear_question(question, warning, sync_backends);
    assert(text.take(question.len() as int) =~= question);
    if 0 <= i < sync_backends.len() && sync_backends[i] {
        assert(sync_backends.contains(true));
        assert(text.skip(question.len() as int + 1) =~= warning);
    }
}

/// A message is painted until it has gone: a message is there or goes, it is in
/// place while it is there and does not go, and once it has gone, or where there
/// is none, nothing is painted.
pub proof fn law_messages_are_painted_until_they_have_gone(
    pair: ToastPair,
    preparing: Seq<char>,
    now: u64,
    usual: u64,
    token: u64,
)
    ensures
        pair.is_in_place() ==> pair.is_painted(),
        pair.slot.message is Some ==> pair.is_painted() && (pair.is_in_place() <==>
            !pair.toast.dismissing),
        pair.slot.message is None ==> !pair.is_in_place(),
        pair.toast.timer == Some(token) ==> pair.timer_ran_out(token).is_painted()
            && !pair.timer_ran_out(token).is_in_place() && !pair.has_gone(token).is_painted(),
        pair.slot.message is None ==> !(ToastPair {
            slot: pair.slot,
            toast: pair.advanced(preparing, now, usual),
        }).is_painted(),
{
}

/// A message has the buttons that it offers, and none where it offers nothing.
pub proof fn law_messages_have_the_buttons_they_offer(toast: ToastModel, buttons: ToastButtons)
    ensures
        toast.actions == Some(buttons) ==> toast.shown_buttons() == buttons,
        toast.actions is None ==> toast.shown_buttons() is Nothing,
{
}

} // verus!
