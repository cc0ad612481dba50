//! What the keys are for, in the clipboard list and in the search box.

use vstd::prelude::*;

use crate::app_state::{Op, ScrollStrategy};
use crate::click::Modifiers;
use crate::clipboard_list::{world, ListWorld};
use crate::items::id_at;
use crate::list_keys::{list_key, ListKey};
use crate::paste_laws::{only_dismissed, something_open, uses};
use crate::search_box::{search_key, search_takes, SearchKey};
use crate::selection_laws::{adds, bare, lemma_added};
use crate::types::ContentType;

verus! {

/// The names of the keys are all different: by their lengths, and where those are
/// equal, by a letter.
proof fn lemma_key_names_differ()
    ensures
        "up"@.len() == 2,
        "down"@.len() == 4,
        "left"@.len() == 4,
        "right"@.len() == 5,
        "pageup"@.len() == 6,
        "pagedown"@.len() == 8,
        "home"@.len() == 4,
        "end"@.len() == 3,
        "a"@.len() == 1,
        "c"@.len() == 1,
        "d"@.len() == 1,
        "e"@.len() == 1,
        "f"@.len() == 1,
        "t"@.len() == 1,
        "enter"@.len() == 5,
        "escape"@.len() == 6,
        "space"@.len() == 5,
        "f2"@.len() == 2,
        "delete"@.len() == 6,
        "backspace"@.len() == 9,
        "up"@ != "f2"@,
        "down"@ != "left"@,
        "down"@ != "home"@,
        "left"@ != "home"@,
        "right"@ != "enter"@,
        "right"@ != "space"@,
        "pageup"@ != "escape"@,
        "pageup"@ != "delete"@,
        "a"@ != "c"@,
        "a"@ != "d"@,
        "a"@ != "e"@,
        "a"@ != "f"@,
        "a"@ != "t"@,
        "c"@ != "d"@,
        "c"@ != "e"@,
        "c"@ != "f"@,
        "c"@ != "t"@,
        "d"@ != "e"@,
        "d"@ != "f"@,
        "d"@ != "t"@,
        "e"@ != "f"@,
        "e"@ != "t"@,
        "f"@ != "t"@,
        "enter"@ != "space"@,
        "escape"@ != "delete"@,
{
    reveal_strlit("up");
    reveal_strlit("down");
    reveal_strlit("left");
    reveal_strlit("right");
    reveal_strlit("pageup");
    reveal_strlit("pagedown");
    reveal_strlit("home");
    reveal_strlit("end");
    reveal_strlit("a");
    reveal_strlit("c");
    reveal_strlit("d");
    reveal_strlit("e");
    reveal_strlit("f");
    reveal_strlit("t");
    reveal_strlit("enter");
    reveal_strlit("escape");
    reveal_strlit("space");
    reveal_strlit("f2");
    reveal_strlit("delete");
    reveal_strlit("backspace");
    assert("up"@[0] != "f2"@[0]);
    assert("down"@[0] != "left"@[0]);
    assert("down"@[0] != "home"@[0]);
    assert("left"@[0] != "home"@[0]);
    assert("right"@[0] != "enter"@[0]);
    assert("right"@[0] != "space"@[0]);
    assert("pageup"@[0] != "escape"@[0]);
    assert("pageup"@[0] != "delete"@[0]);
    assert("a"@[0] != "c"@[0]);
    assert("a"@[0] != "d"@[0]);
    assert("a"@[0] != "e"@[0]);
    assert("a"@[0] != "f"@[0]);
    assert("a"@[0] != "t"@[0]);
    assert("c"@[0] != "d"@[0]);
    assert("c"@[0] != "e"@[0]);
    assert("c"@[0] != "f"@[0]);
    assert("c"@[0] != "t"@[0]);
    assert("d"@[0] != "e"@[0]);
    assert("d"@[0] != "f"@[0]);
    assert("d"@[0] != "t"@[0]);
    assert("e"@[0] != "f"@[0]);
    assert("e"@[0] != "t"@[0]);
    assert("f"@[0] != "t"@[0]);
    assert("enter"@[0] != "space"@[0]);
    assert("escape"@[0] != "delete"@[0]);
}

/// A name stands for the key that it names.
proof fn lemma_key_names()
    ensures
        list_key("up"@) == ListKey::Up,
        list_key("down"@) == ListKey::Down,
        list_key("left"@) == ListKey::Left,
        list_key("right"@) == ListKey::Right,
        list_key("pageup"@) == ListKey::Paging,
        list_key("pagedown"@) == ListKey::Paging,
        list_key("home"@) == ListKey::Paging,
        list_key("end"@) == ListKey::Paging,
        list_key("a"@) == ListKey::A,
        list_key("c"@) == ListKey::C,
        list_key("d"@) == ListKey::D,
        list_key("e"@) == ListKey::E,
        list_key("f"@) == ListKey::F,
        list_key("t"@) == ListKey::T,
        list_key("enter"@) == ListKey::Enter,
        list_key("escape"@) == ListKey::Escape,
        list_key("space"@) == ListKey::Space,
        list_key("f2"@) == ListKey::F2,
        list_key("delete"@) == ListKey::Delete,
        list_key("backspace"@) == ListKey::Delete,
        search_key("up"@) == SearchKey::Up,
        search_key("down"@) == SearchKey::Down,
        search_key("left"@) == SearchKey::Left,
        search_key("right"@) == SearchKey::Right,
        search_key("pageup"@) == SearchKey::Other,
        search_key("pagedown"@) == SearchKey::Other,
        search_key("home"@) == SearchKey::Other,
        search_key("end"@) == SearchKey::Other,
        search_key("a"@) == SearchKey::Other,
        search_key("c"@) == SearchKey::Other,
        search_key("d"@) == SearchKey::D,
        search_key("e"@) == SearchKey::E,
        search_key("f"@) == SearchKey::Other,
        search_key("t"@) == SearchKey::T,
        search_key("enter"@) == SearchKey::Enter,
        search_key("escape"@) == SearchKey::Escape,
        search_key("space"@) == SearchKey::Other,
        search_key("f2"@) == SearchKey::F2,
        search_key("delete"@) == SearchKey::Delete,
        search_key("backspace"@) == SearchKey::Other,
{
    lemma_key_names_differ();
}

/// Whether the list takes a key, and what the key does.
pub open spec fn key_does<S>(w: ListWorld<S>, name: Seq<char>, m: Modifiers, after: ListWorld<S>) -> bool {
    w.takes(list_key(name), m) && w.press(list_key(name), m) == after
}

/// Whether the list gives a key back and does nothing with it.
pub open spec fn key_is_given_back<S>(w: ListWorld<S>, name: Seq<char>, m: Modifiers) -> bool {
    !w.takes(list_key(name), m) && w.press(list_key(name), m) == w
}

/// Whether the category changes by one step, with the panels dismissed and the
/// list shown anew.
pub open spec fn category_moved<S>(w: ListWorld<S>, after: ListWorld<S>, delta: isize) -> bool {
    &&& only_dismissed(w.list, after.list)
    &&& adds(w.app, after.app, seq![bare(Op::CycleTypeFilter { delta }), bare(Op::ResetList)])
}

/// Dismissing closes the context menu and the tag picker and changes nothing else.
pub proof fn law_dismissing_closes_the_panels<S>(w: ListWorld<S>)
    ensures
        only_dismissed(w.list, w.dismiss().list),
        w.dismiss().app == w.app,
{
}

/// The arrows up and down dismiss the panels and step through the rows; those to
/// the sides step through the categories, with the primary modifier too, and with
/// it and Shift they are given back.
pub proof fn law_arrows_step_through_rows_and_categories<S>(w: ListWorld<S>, m: Modifiers)
    requires
        w.list.recording_hotkey_id <= 0,
    ensures
        !m.primary() ==> key_does(
            w,
            "up"@,
            m,
            w.dismiss().select_previous(ScrollStrategy::Top),
        ),
        !m.primary() ==> key_does(
            w,
            "down"@,
            m,
            w.dismiss().select_next(ScrollStrategy::Bottom),
        ),
        !m.primary() || !m.shift ==> w.takes(list_key("left"@), m) && category_moved(
            w,
            w.press(list_key("left"@), m),
            -1isize,
        ),
        !m.primary() || !m.shift ==> w.takes(list_key("right"@), m) && category_moved(
            w,
            w.press(list_key("right"@), m),
            1isize,
        ),
        m.primary() && m.shift ==> key_is_given_back(w, "left"@, m),
        m.primary() && m.shift ==> key_is_given_back(w, "right"@, m),
        m.primary() ==> key_is_given_back(w, "up"@, m),
        m.primary() ==> key_is_given_back(w, "down"@, m),
{
    lemma_key_names();
    lemma_added(w.app.requests);
}

/// Enter pastes: as plain text with Shift or where the settings say so, and with
/// the primary modifier an image as a bitmap; with both it is given back.
pub proof fn law_enter_pastes<S>(w: ListWorld<S>, m: Modifiers)
    requires
        w.list.recording_hotkey_id <= 0,
    ensures
        !m.primary() ==> key_does(
            w,
            "enter"@,
            m,
            w.paste_selected(m.shift || w.app.settings.copy_as_plain_text),
        ),
        m.primary() && !m.shift ==> key_does(w, "enter"@, m, w.paste_bitmap_or_default()),
        m.primary() && m.shift ==> key_is_given_back(w, "enter"@, m),
{
    lemma_key_names();
}

/// With the primary modifier, and nothing open: D toggles favorites, A selects
/// everything, E opens the edit page, T the tag picker, and C copies the active
/// item as the settings say. Where something is open they are given back. F gives
/// the search box the focus in any case.
pub proof fn law_letters_act_on_the_selection<S>(w: ListWorld<S>, m: Modifiers)
    requires
        w.list.recording_hotkey_id <= 0,
        m.primary(),
    ensures
        w.takes(list_key("f"@), m),
        w.press(list_key("f"@), m).list == w.list,
        adds(w.app, w.press(list_key("f"@), m).app, seq![bare(Op::FocusSearch)]),
        something_open(w.list) ==> {
            &&& key_is_given_back(w, "d"@, m)
            &&& key_is_given_back(w, "a"@, m)
            &&& key_is_given_back(w, "e"@, m)
            &&& key_is_given_back(w, "c"@, m)
            &&& key_is_given_back(w, "t"@, m)
        },
        !something_open(w.list) ==> {
            &&& key_does(w, "d"@, m, w.toggle_favorite_selected())
            &&& key_does(w, "a"@, m, w.select_all())
            &&& key_does(w, "e"@, m, w.edit_active())
            &&& key_does(w, "t"@, m, w.pick_tags())
            &&& w.takes(list_key("c"@), m)
            &&& w.press(list_key("c"@), m).list == w.list
            &&& match id_at(w.list.items, w.list.selected_index) {
                Some(id) => adds(
                    w.app,
                    w.press(list_key("c"@), m).app,
                    uses(Op::CopyItem { id, plain: w.app.settings.copy_as_plain_text }),
                ),
                None => w.press(list_key("c"@), m) == w,
            }
        },
{
    lemma_key_names();
    lemma_added(w.app.requests);
}

/// Without the primary modifier, and nothing open: Space opens the active item for
/// a look, F2 edits its note, Delete and Backspace ask whether to delete. Where
/// something is open they are given back. Escape ends one thing or hides the
/// window. Letters are given back.
pub proof fn law_plain_keys_act_on_the_active_item<S>(w: ListWorld<S>, m: Modifiers, i: int)
    requires
        w.list.recording_hotkey_id <= 0,
        !m.primary(),
    ensures
        something_open(w.list) ==> {
            &&& key_is_given_back(w, "space"@, m)
            &&& key_is_given_back(w, "f2"@, m)
            &&& key_is_given_back(w, "delete"@, m)
            &&& key_is_given_back(w, "backspace"@, m)
        },
        !something_open(w.list) ==> {
            &&& key_does(w, "f2"@, m, w.edit_active_note())
            &&& key_does(w, "delete"@, m, w.ask_delete())
            &&& key_does(w, "backspace"@, m, w.ask_delete())
            &&& w.takes(list_key("space"@), m)
            &&& w.press(list_key("space"@), m).list == w.list
            &&& w.list.selected_index == Some(i) && 0 <= i < w.list.items.len() ==> {
                let item = w.list.items[i];
                let after = w.press(list_key("space"@), m).app;
                let located = item.content_type == ContentType::File || item.meta_type@ == "link"@
                    || item.meta_type@ == "path"@;
                &&& item.content_type == ContentType::Image ==> adds(
                    w.app,
                    after,
                    seq![bare(Op::OpenOriginalImage { id: item.id })],
                )
                &&& item.content_type != ContentType::Image && located ==> adds(
                    w.app,
                    after,
                    seq![bare(Op::OpenItemLocation { id: item.id })],
                )
                &&& item.content_type != ContentType::Image && !located ==> after == w.app
            }
        },
        key_does(w, "escape"@, m, w.escape_or_hide()),
        key_is_given_back(w, "a"@, m),
        key_is_given_back(w, "c"@, m),
        key_is_given_back(w, "d"@, m),
        key_is_given_back(w, "e"@, m),
        key_is_given_back(w, "f"@, m),
        key_is_given_back(w, "t"@, m),
{
    lemma_key_names();
    lemma_added(w.app.requests);
}

/// While a hotkey is recorded, Escape cancels the recording, Enter confirms it, and
/// the keys that move are taken and do nothing.
pub proof fn law_keys_belong_to_a_recording<S>(w: ListWorld<S>, m: Modifiers)
    requires
        w.list.recording_hotkey_id > 0,
    ensures
        key_does(w, "escape"@, m, w.cancel_recording(true)),
        key_does(w, "enter"@, m, w.confirm_recording()),
        key_does(w, "up"@, m, w),
        key_does(w, "down"@, m, w),
        key_does(w, "pageup"@, m, w),
        key_does(w, "pagedown"@, m, w),
        key_does(w, "home"@, m, w),
        key_does(w, "end"@, m, w),
{
    lemma_key_names();
}

/// Whether the search box takes a key, and what the key does.
pub open spec fn search_does<S>(
    w: ListWorld<S>,
    name: Seq<char>,
    m: Modifiers,
    empty: bool,
    after: ListWorld<S>,
) -> bool {
    &&& search_takes(search_key(name), m.primary(), m.shift, empty)
    &&& w.search_press(search_key(name), m.primary(), m.shift, empty) == after
}

/// Whether the search box gives a key back and does nothing with it.
pub open spec fn search_gives_back<S>(
    w: ListWorld<S>,
    name: Seq<char>,
    m: Modifiers,
    empty: bool,
) -> bool {
    &&& !search_takes(search_key(name), m.primary(), m.shift, empty)
    &&& w.search_press(search_key(name), m.primary(), m.shift, empty) == w
}

/// The same with the list given the focus first.
pub open spec fn focused<S>(w: ListWorld<S>) -> ListWorld<S> {
    world(w.list, w.app.asking(Op::FocusList))
}

/// Giving the list the focus asks for that and nothing else.
pub proof fn law_focus_is_asked_for<S>(w: ListWorld<S>)
    ensures
        focused(w).list == w.list,
        adds(w.app, focused(w).app, seq![bare(Op::FocusList)]),
{
    lemma_added(w.app.requests);
}

/// In the search box, without a modifier, the arrows up and down step through the
/// rows, and those to the sides step through the categories where there is no
/// text; with text they belong to the cursor. Escape does what it does in the
/// list. The other keys first give the list the focus: Enter pastes as the
/// settings say, F2 edits the active note, Delete asks whether to delete.
pub proof fn law_search_keys_reach_the_list<S>(w: ListWorld<S>, m: Modifiers, empty: bool)
    requires
        !m.primary(),
        !m.shift,
    ensures
        search_does(w, "up"@, m, empty, w.select_previous(ScrollStrategy::Top)),
        search_does(w, "down"@, m, empty, w.select_next(ScrollStrategy::Bottom)),
        search_does(w, "escape"@, m, empty, w.escape_or_hide()),
        search_does(
            w,
            "enter"@,
            m,
            empty,
            focused(w).paste_selected(w.app.settings.copy_as_plain_text),
        ),
        search_does(w, "f2"@, m, empty, focused(w).edit_active_note()),
        search_does(w, "delete"@, m, empty, focused(w).ask_delete()),
        search_gives_back(w, "left"@, m, false),
        search_gives_back(w, "right"@, m, false),
        search_gives_back(w, "d"@, m, empty),
        search_gives_back(w, "e"@, m, empty),
        search_gives_back(w, "t"@, m, empty),
        ({
            let left = w.search_press(search_key("left"@), m.primary(), m.shift, true);
            let right = w.search_press(search_key("right"@), m.primary(), m.shift, true);
            &&& search_takes(search_key("left"@), m.primary(), m.shift, true)
            &&& search_takes(search_key("right"@), m.primary(), m.shift, true)
            &&& left.list == w.list
            &&& right.list == w.list
            &&& adds(
                w.app,
                left.app,
                seq![bare(Op::CycleTypeFilter { delta: -1isize }), bare(Op::ResetList)],
            )
            &&& adds(
                w.app,
                right.app,
                seq![bare(Op::CycleTypeFilter { delta: 1isize }), bare(Op::ResetList)],
            )
        }),
{
    lemma_key_names();
    lemma_added(w.app.requests);
}

/// In the search box, with the primary modifier or Shift: each key that acts on
/// the list first gives it the focus. With both, every key is given back.
pub proof fn law_modified_search_keys_reach_the_list<S>(
    w: ListWorld<S>,
    m: Modifiers,
    empty: bool,
)
    ensures
        m.primary() && !m.shift ==> {
            &&& search_does(w, "enter"@, m, empty, focused(w).paste_bitmap_or_default())
            &&& search_does(w, "d"@, m, empty, focused(w).toggle_favorite_selected())
            &&& search_does(w, "e"@, m, empty, focused(w).edit_active())
            &&& search_does(w, "t"@, m, empty, focused(w).pick_tags())
            &&& search_gives_back(w, "up"@, m, empty)
            &&& search_gives_back(w, "down"@, m, empty)
            &&& search_gives_back(w, "left"@, m, empty)
            &&& search_gives_back(w, "right"@, m, empty)
            &&& search_gives_back(w, "escape"@, m, empty)
            &&& search_gives_back(w, "f2"@, m, empty)
            &&& search_gives_back(w, "delete"@, m, empty)
        },
        !m.primary() && m.shift ==> {
            &&& search_does(w, "enter"@, m, empty, focused(w).paste_selected(true))
            &&& search_gives_back(w, "up"@, m, empty)
            &&& search_gives_back(w, "down"@, m, empty)
            &&& search_gives_back(w, "left"@, m, empty)
            &&& search_gives_back(w, "right"@, m, empty)
            &&& search_gives_back(w, "delete"@, m, empty)
        },
        m.primary() && m.shift ==> {
            &&& search_gives_back(w, "enter"@, m, empty)
            &&& search_gives_back(w, "d"@, m, empty)
            &&& search_gives_back(w, "e"@, m, empty)
            &&& search_gives_back(w, "t"@, m, empty)
        },
{
    lemma_key_names();
}

} // verus!
