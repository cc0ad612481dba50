//! The search box: when a keyword is applied, and the keys that it passes on to
//! the list.

use vstd::prelude::*;

use crate::app_state::{AppModel, AppState, ClipboardListEvent, Op, ScrollStrategy};
use crate::click::{primary_modifier_pressed, Modifiers};
use crate::clipboard_list::{world, ClipboardListView, ListWorld};
use crate::text::str_eq;
use crate::theme::ClippiTheme;

verus! {

/// How long the text must rest before it is applied, in milliseconds.
pub const SEARCH_DEBOUNCE_MS: u64 = 150;

/// A key that the search box listens to.
#[derive(Clone, Copy, Debug, PartialEq, Eq, Structural)]
pub enum SearchKey {
    Up,
    Down,
    Left,
    Right,
    Escape,
    Enter,
    F2,
    Delete,
    D,
    E,
    T,
    Other,
}

/// The key that a name stands for.
pub open spec fn search_key(name: Seq<char>) -> SearchKey {
    if name == "up"@ {
        SearchKey::Up
    } else if name == "down"@ {
        SearchKey::Down
    } else if name == "left"@ {
        SearchKey::Left
    } else if name == "right"@ {
        SearchKey::Right
    } else if name == "escape"@ {
        SearchKey::Escape
    } else if name == "enter"@ {
        SearchKey::Enter
    } else if name == "f2"@ {
        SearchKey::F2
    } else if name == "delete"@ {
        SearchKey::Delete
    } else if name == "d"@ {
        SearchKey::D
    } else if name == "e"@ {
        SearchKey::E
    } else if name == "t"@ {
        SearchKey::T
    } else {
        SearchKey::Other
    }
}

impl SearchKey {
    /// Finds the key that a name stands for.
    pub fn from_name(name: &str) -> (r: Self)
        ensures
            r == search_key(name@),
    {
        if str_eq(name, "up") {
            SearchKey::Up
        } else if str_eq(name, "down") {
            SearchKey::Down
        } else if str_eq(name, "left") {
            SearchKey::Left
        } else if str_eq(name, "right") {
            SearchKey::Right
        } else if str_eq(name, "escape") {
            SearchKey::Escape
        } else if str_eq(name, "enter") {
            SearchKey::Enter
        } else if str_eq(name, "f2") {
            SearchKey::F2
        } else if str_eq(name, "delete") {
            SearchKey::Delete
        } else if str_eq(name, "d") {
            SearchKey::D
        } else if str_eq(name, "e") {
            SearchKey::E
        } else if str_eq(name, "t") {
            SearchKey::T
        } else {
            SearchKey::Other
        }
    }
}

impl<S> ListWorld<S> {
    /// What a key without a modifier does. The arrows to the sides are the text
    /// cursor's, unless there is no text.
    pub open spec fn search_bare(self, key: SearchKey, empty: bool) -> Self {
        let focused = self.ask(Op::FocusList);
        match key {
            SearchKey::Up => self.select_previous(ScrollStrategy::Top),
            SearchKey::Down => self.select_next(ScrollStrategy::Bottom),
            SearchKey::Left => if empty {
                self.ask(Op::CycleTypeFilter { delta: -1isize }).ask(Op::ResetList)
            } else {
                self
            },
            SearchKey::Right => if empty {
                self.ask(Op::CycleTypeFilter { delta: 1isize }).ask(Op::ResetList)
            } else {
                self
            },
            SearchKey::Escape => self.escape_or_hide(),
            SearchKey::Enter => focused.paste_selected(self.app.settings.copy_as_plain_text),
            SearchKey::F2 => focused.edit_active_note(),
            SearchKey::Delete => focused.ask_delete(),
            _ => self,
        }
    }

    /// What a key with the primary modifier alone does.
    pub open spec fn search_primary(self, key: SearchKey) -> Self {
        let focused = self.ask(Op::FocusList);
        match key {
            SearchKey::Enter => focused.paste_bitmap_or_default(),
            SearchKey::D => focused.toggle_favorite_selected(),
            SearchKey::E => focused.edit_active(),
            SearchKey::T => focused.pick_tags(),
            _ => self,
        }
    }

    /// What a key in the search box does.
    pub open spec fn search_press(
        self,
        key: SearchKey,
        primary: bool,
        shift: bool,
        empty: bool,
    ) -> Self {
        match (primary, shift) {
            (false, false) => self.search_bare(key, empty),
            (false, true) => if key is Enter {
                self.ask(Op::FocusList).paste_selected(true)
            } else {
                self
            },
            (true, false) => self.search_primary(key),
            (true, true) => self,
        }
    }
}

impl AppModel {
    /// The same state with a keyword searched for: what is left is shown from the
    /// top.
    pub open spec fn searching(self, keyword: String) -> Self {
        self.asking(Op::SetKeyword { keyword }).asking(Op::ResetList).asking(Op::SelectTop)
    }
}

/// Whether the search box has use for a key.
pub open spec fn search_takes(key: SearchKey, primary: bool, shift: bool, empty: bool) -> bool {
    match (primary, shift) {
        (false, false) => match key {
            SearchKey::Left | SearchKey::Right => empty,
            SearchKey::Up | SearchKey::Down | SearchKey::Escape | SearchKey::Enter
            | SearchKey::F2 | SearchKey::Delete => true,
            _ => false,
        },
        (false, true) => key is Enter,
        (true, false) => key is Enter || key is D || key is E || key is T,
        (true, true) => false,
    }
}

/// The search box.
#[derive(Clone, Copy, Debug, PartialEq, Eq, Structural)]
pub struct SearchBox {
    /// How often the text has changed.
    pub generation: u64,
    pub theme: ClippiTheme,
    pub last_lang_version: u64,
}

impl SearchBox {
    /// The search box after the text has changed `n` times more.
    pub open spec fn changed(self, n: nat) -> Self
        decreases n,
    {
        if n == 0 {
            self
        } else {
            let before = self.changed((n - 1) as nat);
            SearchBox { generation: before.generation.wrapping_add(1), ..before }
        }
    }

    /// Whether a change is the last one.
    pub open spec fn is_current(self, change: u64) -> bool {
        self.generation == change
    }

    /// A search box whose text has not changed yet.
    pub fn new(theme: ClippiTheme, lang_version: u64) -> (r: Self)
        ensures
            r == (SearchBox { generation: 0, theme, last_lang_version: lang_version }),
    {
        SearchBox { generation: 0, theme, last_lang_version: lang_version }
    }

    /// Paints the search box in another theme from now on.
    pub fn set_theme(&mut self, theme: ClippiTheme)
        ensures
            *final(self) == (SearchBox { theme, ..*old(self) }),
    {
        self.theme = theme;
    }

    /// Gives the search box the focus.
    pub fn focus(&self, app: &mut AppState)
        ensures
            final(app)@ == old(app)@.asking(Op::FocusSearch),
    {
        app.request(Op::FocusSearch);
    }

    /// Clears the text of the search box.
    pub fn clear_text(&self, app: &mut AppState)
        ensures
            final(app)@ == old(app)@.asking(Op::ClearSearchText),
    {
        app.request(Op::ClearSearchText);
    }

    /// Takes note of a change of the text. The result names the change; after
    /// `SEARCH_DEBOUNCE_MS` it is to be handed to `apply_keyword`.
    pub fn text_changed(&mut self) -> (r: u64)
        ensures
            r == final(self).generation,
            *final(self) == old(self).changed(1),
    {
        reveal_with_fuel(SearchBox::changed, 2);
        self.generation = self.generation.wrapping_add(1);
        self.generation
    }

    /// Applies the keyword of a change, unless the text has changed again since.
    /// Says whether it did.
    pub fn apply_keyword(&self, change: u64, keyword: String, app: &mut AppState) -> (r: bool)
        ensures
            r == self.is_current(change),
            final(app)@ == (if r {
                old(app)@.searching(keyword)
            } else {
                old(app)@
            }),
    {
        if self.generation != change {
            return false;
        }
        app.request(Op::SetKeyword { keyword });
        app.request(Op::ResetList);
        app.request(Op::SelectTop);
        true
    }

    /// Takes note of the language that the texts are in. Says whether it is
    /// another one, so that the placeholder is to be renewed.
    pub fn refresh_language(&mut self, lang_version: u64) -> (r: bool)
        ensures
            r == (old(self).last_lang_version != lang_version),
            *final(self) == (SearchBox { last_lang_version: lang_version, ..*old(self) }),
    {
        let changed = self.last_lang_version != lang_version;
        self.last_lang_version = lang_version;
        changed
    }

    /// Handles a key without a modifier.
    fn press_bare<S>(
        key: SearchKey,
        empty: bool,
        list: &mut ClipboardListView<S>,
        app: &mut AppState,
    )
        requires
            old(list)@.wf(),
        ensures
            world(final(list)@, final(app)@) == world(old(list)@, old(app)@).search_bare(
                key,
                empty,
            ),
            final(list)@.wf(),
    {
        match key {
            SearchKey::Up => list.select_previous(ScrollStrategy::Top, app),
            SearchKey::Down => list.select_next(ScrollStrategy::Bottom, app),
            SearchKey::Left => {
                if empty {
                    app.request(Op::CycleTypeFilter { delta: -1 });
                    app.request(Op::ResetList);
                }
            },
            SearchKey::Right => {
                if empty {
                    app.request(Op::CycleTypeFilter { delta: 1 });
                    app.request(Op::ResetList);
                }
            },
            SearchKey::Escape => {
                if !list.handle_escape(app) {
                    app.request(Op::Emit { event: ClipboardListEvent::RequestHide });
                }
            },
            SearchKey::Enter => {
                let plain = app.settings.copy_as_plain_text;
                list.focus(app);
                list.action_paste(plain, app);
            },
            SearchKey::F2 => {
                list.focus(app);
                list.action_edit_note(app);
            },
            SearchKey::Delete => {
                list.focus(app);
                list.action_delete();
            },
            _ => {},
        }
    }

    /// Handles a key with the primary modifier alone.
    fn press_primary<S>(key: SearchKey, list: &mut ClipboardListView<S>, app: &mut AppState)
        requires
            old(list)@.wf(),
        ensures
            world(final(list)@, final(app)@) == world(old(list)@, old(app)@).search_primary(key),
            final(list)@.wf(),
    {
        match key {
            SearchKey::Enter => {
                list.focus(app);
                list.action_paste_bitmap_or_default(app);
            },
            SearchKey::D => {
                list.focus(app);
                list.action_toggle_favorite(app);
            },
            SearchKey::E => {
                list.focus(app);
                list.action_edit(app);
            },
            SearchKey::T => {
                list.focus(app);
                list.action_show_tag_picker(app);
            },
            _ => {},
        }
    }

    /// Handles a key in the search box, where `empty` says whether it holds no
    /// text. Says whether the search box had use for the key.
    pub fn handle_key_down<S>(
        &self,
        key: &str,
        modifiers: Modifiers,
        empty: bool,
        list: &mut ClipboardListView<S>,
        app: &mut AppState,
    ) -> (r: bool)
        requires
            old(list)@.wf(),
        ensures
            r == search_takes(
                search_key(key@),
                modifiers.primary(),
                modifiers.shift,
                empty,
            ),
            world(final(list)@, final(app)@) == world(old(list)@, old(app)@).search_press(
                search_key(key@),
                modifiers.primary(),
                modifiers.shift,
                empty,
            ),
            final(list)@.wf(),
    {
        let key = SearchKey::from_name(key);
        let primary = primary_modifier_pressed(modifiers);
        if primary && modifiers.shift {
            return false;
        }
        if primary {
            Self::press_primary(key, list, app);
            return match key {
                SearchKey::Enter | SearchKey::D | SearchKey::E | SearchKey::T => true,
                _ => false,
            };
        }
        if modifiers.shift {
            return match key {
                SearchKey::Enter => {
                    list.focus(app);
                    list.action_paste(true, app);
                    true
                },
                _ => false,
            };
        }
        Self::press_bare(key, empty, list, app);
        match key {
            SearchKey::Left | SearchKey::Right => empty,
            SearchKey::Up | SearchKey::Down | SearchKey::Escape | SearchKey::Enter
            | SearchKey::F2 | SearchKey::Delete => true,
            _ => false,
        }
    }
}

/// The name of a change, counted from the present one.
proof fn lemma_changed(search: SearchBox, n: nat)
    requires
        n <= u64::MAX,
    ensures
        search.changed(n).generation == (if search.generation + n > u64::MAX {
            search.generation + n - u64::MAX - 1
        } else {
            search.generation + n
        }),
    decreases n,
{
    if n > 0 {
        lemma_changed(search, (n - 1) as nat);
    }
}

/// Of several changes of the text only the last is applied: the name of a
/// change is current until the next one, and not after it.
pub proof fn law_only_the_last_change_is_applied(search: SearchBox, later: nat)
    requires
        later <= u64::MAX,
    ensures
        search.changed(1).changed(later).is_current(search.changed(1).generation) <==> later == 0,
{
    lemma_changed(search.changed(1), later);
}

/// How many of some changes came before a time.
pub open spec fn changes_before(times: Seq<int>, time: int) -> nat
    decreases times.len(),
{
    if times.len() == 0 {
        0
    } else {
        changes_before(times.drop_last(), time) + (if times.last() < time {
            1nat
        } else {
            0nat
        })
    }
}

/// Of changes that came one after the other, those before a time are the first
/// ones.
proof fn lemma_changes_before(times: Seq<int>, time: int)
    requires
        forall|j: int, k: int| 0 <= j < k < times.len() ==> times[j] < times[k],
    ensures
        changes_before(times, time) <= times.len(),
        forall|k: int|
            0 <= k < times.len() ==> (k < changes_before(times, time) <==> #[trigger] times[k]
                < time),
    decreases times.len(),
{
    if times.len() > 0 {
        let rest = times.drop_last();
        lemma_changes_before(rest, time);
        assert forall|k: int| 0 <= k < times.len() implies (k < changes_before(times, time)
            <==> #[trigger] times[k] < time) by {
            if k < rest.len() {
                assert(rest[k] == times[k]);
                assert(times[k] < times[times.len() - 1]);
            } else if rest.len() > 0 {
                assert(rest[rest.len() - 1] == times[k - 1]);
            }
        }
    }
}

/// Changes that come after others.
proof fn lemma_changed_further(search: SearchBox, n: nat, m: nat)
    ensures
        search.changed(n).changed(m) == search.changed(n + m),
    decreases m,
{
    if m > 0 {
        lemma_changed_further(search, n, (m - 1) as nat);
    }
}

/// A change that came before a time is current then exactly if it was the last
/// one before it.
proof fn lemma_current_at(search: SearchBox, times: Seq<int>, i: int, time: int)
    requires
        0 <= i < times.len() <= u64::MAX,
        forall|j: int, k: int| 0 <= j < k < times.len() ==> times[j] < times[k],
        times[i] < time,
    ensures
        i < changes_before(times, time),
        search.changed(changes_before(times, time)).is_current(
            search.changed((i + 1) as nat).generation,
        ) <==> changes_before(times, time) == i + 1,
{
    let here = (i + 1) as nat;
    lemma_changes_before(times, time);
    let later = (changes_before(times, time) - here) as nat;
    lemma_changed_further(search, here, later);
    lemma_changed(search.changed(here), later);
}

/// The text is searched for once it has been left alone: of changes that come at
/// some times, in milliseconds, change `i` is still current `SEARCH_DEBOUNCE_MS`
/// after it came exactly if no other came before that. Once another came, it is
/// current at no later time.
pub proof fn law_text_is_applied_when_left_alone(search: SearchBox, times: Seq<int>, i: int)
    requires
        0 <= i < times.len() <= u64::MAX,
        forall|j: int, k: int| 0 <= j < k < times.len() ==> times[j] < times[k],
    ensures
        ({
            let change = search.changed((i + 1) as nat).generation;
            let due = times[i] + SEARCH_DEBOUNCE_MS;
            &&& search.changed(changes_before(times, due)).is_current(change) <==> (forall|j: int|
                i < j < times.len() ==> #[trigger] times[j] >= due)
            &&& forall|j: int, time: int|
                i < j < times.len() && #[trigger] times[j] < time ==> !#[trigger] search.changed(
                    changes_before(times, time),
                ).is_current(change)
        }),
{
    let due = times[i] + SEARCH_DEBOUNCE_MS;
    lemma_current_at(search, times, i, due);
    lemma_changes_before(times, due);
    if i + 1 < times.len() {
        assert(times[i + 1] >= due <==> changes_before(times, due) == i + 1);
    }
    let change = search.changed((i + 1) as nat).generation;
    assert forall|j: int, time: int|
        i < j < times.len() && #[trigger] times[j] < time implies !#[trigger] search.changed(
        changes_before(times, time),
    ).is_current(change) by {
        assert(times[i] < times[j]);
        lemma_current_at(search, times, i, time);
        lemma_changes_before(times, time);
    }
}

} // verus!
