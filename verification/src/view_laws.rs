//! What the views around the list are for.

use vstd::prelude::*;
use vstd::utf8::encode_utf8;

use crate::app_state::{AppModel, FiltersModel, Op, SettingsModel, TypeFilterEntry};
use crate::filter_bar::{filter_buttons, filter_type, shown, FilterBar, FilterType};
use crate::filters::{keeps_wanted, lemma_filter_places};
use crate::selection_laws::{adds, bare, lemma_added};
use crate::sidebar::{
    fading_after, fading_tag, generation, generations_after, hidden, none_of, rows_shown, shown_tag,
    shown_tag_ids, sidebar_colors, sidebar_row, sidebar_tags, target_pose, transition_key,
    SidebarModel, FADE_OUT_NANOS,
};
use crate::tag_color::{channel, digit, opaque_color, tag_color, without_signs, DEFAULT_TAG_COLOR};
use crate::tags::{
    among, is_tag_place, known, lemma_tag_is_known, outside, tag_ids, tag_of, tags_with_ids,
};
use crate::text::{begins_with, filled, holds_name, other_than, same_name};
use crate::type_filter_config::{
    config_colors, is_entry_place, panel_tags, swapped, tag_row, type_row,
};
use crate::types::TagInfo;

verus! {

/// Whether a name is among these.
pub open spec fn is_named(names: Seq<String>, name: Seq<char>, i: int) -> bool {
    0 <= i < names.len() && names[i]@ == name
}

/// No two types of content share a key, a glyph or a label.
pub proof fn law_types_are_told_apart(a: FilterType, b: FilterType)
    requires
        a != b,
    ensures
        a.key_text() != b.key_text(),
        a.glyph() != b.glyph(),
        a.label() != b.label(),
{
    crate::filter_bar::law_every_type_is_found_by_its_key(a);
    crate::filter_bar::law_every_type_is_found_by_its_key(b);
}

/// The buttons of the strip are those of the entries with a known key, in their
/// order. Each is for its entry's type, and is marked where the list is filtered
/// for that type.
pub proof fn law_buttons_stand_for_entries(
    entries: Seq<TypeFilterEntry>,
    active_types: Seq<String>,
) -> (places: Seq<int>)
    requires
        entries.len() <= usize::MAX,
    ensures
        ({
            let buttons = filter_buttons(entries, active_types);
            &&& buttons.len() == places.len()
            &&& forall|k: int|
                0 <= k < places.len() ==> 0 <= #[trigger] places[k] < entries.len()
                    && buttons[k].index == places[k] && buttons[k].kind.key_text()
                    == entries[places[k]].key@ && (buttons[k].active <==> exists|j: int|
                    #[trigger] is_named(active_types, entries[places[k]].key@, j))
            &&& forall|j: int, k: int| 0 <= j < k < places.len() ==> places[j] < places[k]
            &&& forall|i: int, kind: FilterType|
                #![trigger places.contains(i), kind.key_text()]
                0 <= i < entries.len() && entries[i].key@ == kind.key_text() ==> places.contains(i)
        }),
    decreases entries.len(),
{
    if entries.len() == 0 {
        Seq::empty()
    } else {
        let n = entries.len() - 1;
        let rest = entries.drop_last();
        let before = law_buttons_stand_for_entries(rest, active_types);
        let buttons = filter_buttons(entries, active_types);
        let key = entries[n].key@;
        match filter_type(key) {
            Some(kind) => {
                let places = before.push(n);
                assert(kind.key_text() == key);
                if holds_name(active_types, key) {
                    let j = choose|j: int|
                        0 <= j < active_types.len() && (#[trigger] active_types[j])@ == key;
                    assert(is_named(active_types, key, j));
                }
                if exists|j: int| #[trigger] is_named(active_types, key, j) {
                    let j = choose|j: int| #[trigger] is_named(active_types, key, j);
                    assert(active_types[j]@ == key);
                }
                assert forall|i: int, other: FilterType|
                    #![trigger places.contains(i), other.key_text()]
                    0 <= i < entries.len() && entries[i].key@
                        == other.key_text() implies places.contains(i) by {
                    if i < n {
                        assert(rest[i] == entries[i]);
                        assert(before.contains(i));
                        assert(places[before.index_of(i)] == i);
                    } else {
                        assert(places[before.len() as int] == i);
                    }
                }
                assert forall|k: int| 0 <= k < places.len() implies 0 <= #[trigger] places[k]
                    < entries.len() && buttons[k].index == places[k] && buttons[k].kind.key_text()
                    == entries[places[k]].key@ && (buttons[k].active <==> exists|j: int|
                    #[trigger] is_named(active_types, entries[places[k]].key@, j)) by {
                    if k < before.len() {
                        assert(before[k] == places[k]);
                        assert(rest[before[k]] == entries[before[k]]);
                        assert(buttons[k] == filter_buttons(rest, active_types)[k]);
                    } else {
                        assert(places[k] == n);
                        assert(buttons[k].index == n);
                        assert(buttons[k].active == holds_name(active_types, key));
                    }
                }
                places
            },
            None => {
                assert forall|i: int, other: FilterType|
                    #![trigger before.contains(i), other.key_text()]
                    0 <= i < entries.len() && entries[i].key@
                        == other.key_text() implies before.contains(i) by {
                    crate::filter_bar::law_every_type_is_found_by_its_key(other);
                    assert(rest[i] == entries[i]);
                }
                assert forall|k: int| 0 <= k < before.len() implies 0 <= #[trigger] before[k]
                    < entries.len() && buttons[k].index == before[k] && buttons[k].kind.key_text()
                    == entries[before[k]].key@ && (buttons[k].active <==> exists|j: int|
                    #[trigger] is_named(active_types, entries[before[k]].key@, j)) by {
                    assert(rest[before[k]] == entries[before[k]]);
                }
                before
            },
        }
    }
}

/// The entries of the strip are those of the settings that are visible.
pub proof fn law_strip_shows_visible_entries(config: Seq<TypeFilterEntry>) -> (places: Seq<int>)
    ensures
        keeps_wanted(config, config.filter(shown()), |e: TypeFilterEntry| e.visible, places),
{
    lemma_filter_places(config, shown())
}

/// Another configuration of the strip is all that changes in the settings. It is
/// stored, and the items are loaded anew.
pub proof fn law_configuration_is_stored(app: AppModel, config: Seq<TypeFilterEntry>)
    ensures
        ({
            let after = app.reconfigured(config);
            &&& after == (AppModel { settings: after.settings, requests: after.requests, ..app })
            &&& after.settings == (SettingsModel { type_filter_config: config, ..app.settings })
            &&& after.requests == app.requests + seq![
                bare(Op::SaveSettings),
                bare(Op::ReloadItems),
            ]
        }),
{
    lemma_added(app.requests);
}

/// Showing or hiding a button changes no other button, and where a type is
/// hidden only the filter for that type is dropped.
pub proof fn law_one_button_is_toggled(app: AppModel, i: int, j: int, name: Seq<char>)
    requires
        0 <= i < app.settings.type_filter_config.len(),
        0 <= j < app.settings.type_filter_config.len(),
    ensures
        ({
            let before = app.settings.type_filter_config;
            let w = app.toggling_entry(i);
            let after = w.settings.type_filter_config;
            &&& after.len() == before.len()
            &&& after[j].key == before[j].key
            &&& (after[j].visible == before[j].visible) == (i != j)
            &&& w == (AppModel {
                settings: SettingsModel { type_filter_config: after, ..app.settings },
                filters: FiltersModel { active_types: w.filters.active_types, ..app.filters },
                requests: app.requests + seq![bare(Op::SaveSettings), bare(Op::ReloadItems)],
                ..app
            })
            &&& holds_name(w.filters.active_types, name) <==> holds_name(
                app.filters.active_types,
                name,
            ) && !(before[i].visible && before[i].key@ == name)
        }),
{
    lemma_added(app.requests);
    let key = app.settings.type_filter_config[i].key@;
    let names = app.filters.active_types;
    let kept = names.filter(other_than(key));
    if holds_name(names, name) && name != key {
        let k = choose|k: int| 0 <= k < names.len() && (#[trigger] names[k])@ == name;
        names.lemma_filter_contains(other_than(key), k);
        let m = kept.index_of(names[k]);
        assert(kept[m]@ == name);
    }
    if holds_name(kept, name) {
        let k = choose|k: int| 0 <= k < kept.len() && (#[trigger] kept[k])@ == name;
        names.lemma_filter_pred(other_than(key), k);
        names.lemma_filter_contains_rev(other_than(key), kept[k]);
        assert(names[names.index_of(kept[k])]@ == name);
    }
}

/// Moving a button puts it in its neighbour's place and its neighbour in its own.
/// Every other button stays.
pub proof fn law_neighbours_are_exchanged<T>(config: Seq<T>, i: int, j: int, k: int)
    requires
        0 <= i < config.len(),
        0 <= j < config.len(),
        0 <= k < config.len(),
        k != i,
        k != j,
    ensures
        swapped(config, i, j).len() == config.len(),
        swapped(config, i, j)[i] == config[j],
        swapped(config, i, j)[j] == config[i],
        swapped(config, i, j)[k] == config[k],
{
}

/// A row of the configuration panel is about its entry. It has the display of the
/// type with that key, or that of plain text and no label where there is no such
/// type; and only the first and the last row are marked as such.
pub proof fn law_rows_show_their_entries(config: Seq<TypeFilterEntry>, i: int, kind: FilterType)
    requires
        0 <= i < config.len(),
    ensures
        ({
            let row = type_row(config, i);
            &&& row.key == config[i].key
            &&& row.visible == config[i].visible
            &&& config[i].key@ == kind.key_text() ==> row.icon == kind.glyph() && row.label == Some(
                kind.label(),
            )
            &&& row.label is None ==> row.icon == FilterType::PlainText.glyph()
                && config[i].key@ != kind.key_text()
            &&& row.label == Some(kind.label()) ==> config[i].key@ == kind.key_text()
            &&& row.is_first <==> i == 0
            &&& row.is_last <==> i == config.len() - 1
        }),
{
    crate::filter_bar::law_every_type_is_found_by_its_key(kind);
    match filter_type(config[i].key@) {
        Some(found) => {
            assert(found.key_text() == config[i].key@);
            if found != kind {
                law_types_are_told_apart(found, kind);
            }
        },
        None => {},
    }
}

/// Whether one of the tags has this id.
pub open spec fn has_tag(tags: Seq<TagInfo>, id: i64) -> bool {
    exists|k: int| 0 <= k < tags.len() && (#[trigger] tags[k]).id == id
}

/// An id is known where a tag has it.
proof fn lemma_known_ids(tags: Seq<TagInfo>, id: i64)
    ensures
        known(tags)(id) == has_tag(tags, id),
        has_tag(tags, id) ==> tag_of(tags)(id).id == id,
{
    if has_tag(tags, id) {
        let k = choose|k: int| 0 <= k < tags.len() && (#[trigger] tags[k]).id == id;
        lemma_tag_is_known(tags, k);
    }
    if known(tags)(id) {
        let k = choose|k: int| is_tag_place(tags, id, k);
        assert(is_tag_place(tags, id, k));
        assert(tags[k].id == id);
    }
}

/// Tags that are listed by their ids come in the order of the ids, without the ids
/// that no tag has. Where several tags have an id, the first of them is listed.
pub proof fn law_tags_are_listed_by_their_ids(tags: Seq<TagInfo>, ids: Seq<i64>) -> (places: Seq<
    int,
>)
    ensures
        keeps_wanted(ids, tag_ids(tags_with_ids(tags, ids)), |id: i64| has_tag(tags, id), places),
        tags_with_ids(tags, ids).len() == places.len(),
        forall|k: int, j: int|
            #![trigger tags_with_ids(tags, ids)[k], tags[j]]
            0 <= k < places.len() && 0 <= j < tags.len() && tags[j].id == tags_with_ids(
                tags,
                ids,
            )[k].id && (forall|m: int| 0 <= m < j ==> (#[trigger] tags[m]).id != tags[j].id)
                ==> tags_with_ids(tags, ids)[k] == tags[j],
{
    let kept = ids.filter(known(tags));
    let all = tags_with_ids(tags, ids);
    let places = lemma_filter_places(ids, known(tags));
    assert forall|k: int| 0 <= k < places.len() implies tag_ids(all)[k] == ids[places[k]]
        && has_tag(tags, ids[places[k]]) by {
        lemma_known_ids(tags, ids[places[k]]);
        assert(all[k] == tag_of(tags)(kept[k]));
    }
    assert forall|i: int| 0 <= i < ids.len() && has_tag(tags, ids[i]) implies #[trigger]
    places.contains(i) by {
        lemma_known_ids(tags, ids[i]);
    }
    assert forall|k: int, j: int|
        #![trigger tags_with_ids(tags, ids)[k], tags[j]]
        0 <= k < places.len() && 0 <= j < tags.len() && tags[j].id == all[k].id && (forall|m: int|
            0 <= m < j ==> (#[trigger] tags[m]).id != tags[j].id) implies all[k] == tags[j] by {
        let id = all[k].id;
        assert(tag_ids(all)[k] == ids[places[k]]);
        assert(all[k] == tag_of(tags)(id));
        assert(is_tag_place(tags, id, j));
        let p = choose|p: int| is_tag_place(tags, id, p);
        assert(is_tag_place(tags, id, p));
        if p < j {
            assert(tags[p].id != id);
        }
        if j < p {
            assert(tags[j].id != id);
        }
    }
    places
}

/// A row of the configuration panel is marked as pinned exactly where its tag is.
pub proof fn law_rows_of_pinned_tags_are_marked(tags: Seq<TagInfo>, pinned_ids: Seq<i64>, i: int)
    requires
        0 <= i < panel_tags(tags, pinned_ids).len(),
    ensures
        ({
            let tag = panel_tags(tags, pinned_ids)[i];
            let row = tag_row(tag, i, tags_with_ids(tags, pinned_ids).len());
            &&& row.tag == tag
            &&& row.pinned <==> pinned_ids.contains(tag.id)
            &&& tags.contains(tag)
        }),
{
    let first = tags_with_ids(tags, pinned_ids);
    let places = law_tags_are_listed_by_their_ids(tags, pinned_ids);
    let tag = panel_tags(tags, pinned_ids)[i];
    if i < first.len() {
        assert(tag_ids(first)[i] == pinned_ids[places[i]]);
        assert(tag == first[i]);
        let kept = pinned_ids.filter(known(tags));
        pinned_ids.lemma_filter_pred(known(tags), i);
        let p = choose|p: int| is_tag_place(tags, kept[i], p);
        assert(is_tag_place(tags, kept[i], p));
        assert(first[i] == tag_of(tags)(kept[i]));
        assert(tags[p] == tag);
    } else {
        let k = i - first.len();
        tags.lemma_filter_pred(outside(pinned_ids), k);
        tags.lemma_filter_contains_rev(outside(pinned_ids), tags.filter(outside(pinned_ids))[k]);
    }
}

/// A tag can be moved down where the next row is pinned too, and that row can be
/// moved up. The first row cannot be moved up.
pub proof fn law_pinned_tags_move_past_each_other(
    above: TagInfo,
    below: TagInfo,
    i: int,
    pinned_count: nat,
)
    requires
        0 <= i,
    ensures
        ({
            let row = tag_row(above, i, pinned_count);
            let next = tag_row(below, i + 1, pinned_count);
            &&& !row.down_disabled <==> next.pinned
            &&& !next.up_disabled <==> next.pinned
            &&& next.pinned ==> row.pinned
        }),
        tag_row(above, 0, pinned_count).up_disabled,
{
}

/// The sidebar lists the pinned tags in the order of their pins, after them the
/// other tags that are filtered for, and last those that fade out. It lists no
/// others. The result gives the places among the pins and among the tags.
pub proof fn law_sidebar_lists_three_groups(
    tags: Seq<TagInfo>,
    active: Seq<i64>,
    pinned: Seq<i64>,
    fading: Map<i64, u64>,
) -> (places: (Seq<int>, Seq<int>, Seq<int>))
    ensures
        ({
            let all = sidebar_tags(tags, active, pinned, fading);
            let a = places.0.len() as int;
            let b = a + places.1.len();
            &&& all.len() == b + places.2.len()
            &&& keeps_wanted(
                pinned,
                tag_ids(all.take(a)),
                |id: i64| has_tag(tags, id),
                places.0,
            )
            &&& keeps_wanted(
                tags,
                all.subrange(a, b),
                |tag: TagInfo| active.contains(tag.id) && !pinned.contains(tag.id),
                places.1,
            )
            &&& keeps_wanted(
                tags,
                all.skip(b),
                |tag: TagInfo|
                    fading.contains_key(tag.id) && !active.contains(tag.id) && !pinned.contains(
                        tag.id,
                    ),
                places.2,
            )
        }),
{
    let all = sidebar_tags(tags, active, pinned, fading);
    let first = law_tags_are_listed_by_their_ids(tags, pinned);
    let second = lemma_filter_places(tags, among(active, pinned));
    let third = lemma_filter_places(tags, fading_tag(fading, active, pinned));
    let a = first.len() as int;
    let b = a + second.len();
    assert(all.take(a) =~= tags_with_ids(tags, pinned));
    assert(all.subrange(a, b) =~= tags.filter(among(active, pinned)));
    assert(all.skip(b) =~= tags.filter(fading_tag(fading, active, pinned)));
    (first, second, third)
}

/// A tag fades out that was shown and is no longer filtered for or pinned. It does
/// so from when it was missed first, and for as long as fading takes.
pub proof fn law_tags_fade_from_when_they_were_missed(
    fading: Map<i64, u64>,
    rendered: Seq<i64>,
    shown_ids: Seq<i64>,
    now: u64,
    id: i64,
)
    ensures
        ({
            let after = fading_after(fading, rendered, shown_ids, now);
            &&& shown_ids.contains(id) ==> !after.contains_key(id)
            &&& after.contains_key(id) && fading.contains_key(id) ==> after[id] == fading[id]
            &&& after.contains_key(id) && !fading.contains_key(id) ==> after[id] == now
                && rendered.contains(id)
            &&& after.contains_key(id) ==> now < after[id] + FADE_OUT_NANOS
            &&& !shown_ids.contains(id) && fading.contains_key(id) && now < fading[id]
                + FADE_OUT_NANOS ==> after.contains_key(id)
            &&& !shown_ids.contains(id) && !fading.contains_key(id) && rendered.contains(id)
                ==> after.contains_key(id)
        }),
{
}

/// A tag that has faded out does not come back by itself, once it is no longer
/// among those that were shown.
pub proof fn law_faded_tags_stay_away(
    fading: Map<i64, u64>,
    rendered: Seq<i64>,
    shown_ids: Seq<i64>,
    now: u64,
    id: i64,
)
    requires
        !fading.contains_key(id),
        !rendered.contains(id),
    ensures
        !fading_after(fading, rendered, shown_ids, now).contains_key(id),
{
}

/// All tags get a row where they fit. Where they do not, one row less than fits is
/// shown, and every tag beyond those that fit is counted.
pub proof fn law_hidden_tags_are_counted(count: nat, max_visible: nat)
    ensures
        count <= max_visible ==> rows_shown(count, max_visible) == count && hidden(
            count,
            max_visible,
        ) == 0,
        count > max_visible ==> hidden(count, max_visible) + max_visible == count,
        count > max_visible && max_visible > 1 ==> rows_shown(count, max_visible) + 1
            == max_visible,
        count > max_visible && max_visible <= 1 ==> rows_shown(count, max_visible) == count,
{
}

/// Whether one of the tags up to `hi`, from `lo` on, has this id.
pub open spec fn has_tag_between(tags: Seq<TagInfo>, lo: int, hi: int, id: i64) -> bool {
    exists|k: int| lo <= k < hi && (#[trigger] tags[k]).id == id
}

/// What the sidebar remembers is about the tags that have a row, and about no tag
/// that does not fit.
pub proof fn law_tags_without_a_row_are_forgotten(
    side: SidebarModel,
    app: AppModel,
    now: u64,
    max_visible: nat,
    id: i64,
)
    ensures
        ({
            let tags = side.tags_at(app, now);
            let n = rows_shown(tags.len(), max_visible) as int;
            let after = side.laid_out(app, now, max_visible);
            let dropped = has_tag_between(tags, n, tags.len() as int, id);
            let fading = side.fading_at(app, now);
            let generations = side.generations_at(app, now);
            &&& after.rendered.contains(id) <==> has_tag_between(tags, 0, n, id) && !dropped
            &&& after.fading.contains_key(id) <==> fading.contains_key(id) && !dropped
            &&& after.fading.contains_key(id) ==> after.fading[id] == fading[id]
            &&& after.generations.contains_key(id) <==> generations.contains_key(id) && !dropped
            &&& after.generations.contains_key(id) ==> after.generations[id] == generations[id]
            &&& after.dark == side.dark
        }),
{
    let tags = side.tags_at(app, now);
    let n = rows_shown(tags.len(), max_visible) as int;
    let dropped = tag_ids(tags.skip(n));
    let ids = tag_ids(tags);
    let kept = ids.filter(none_of(dropped));
    if has_tag_between(tags, n, tags.len() as int, id) {
        let k = choose|k: int| n <= k < tags.len() && (#[trigger] tags[k]).id == id;
        assert(dropped[k - n] == id);
        assert(dropped.to_set().contains(id));
    }
    if dropped.contains(id) {
        let k = dropped.index_of(id);
        assert(tags[n + k].id == id);
    }
    assert(dropped.to_set().contains(id) == dropped.contains(id));
    if has_tag_between(tags, 0, n, id) && !dropped.contains(id) {
        let k = choose|k: int| 0 <= k < n && (#[trigger] tags[k]).id == id;
        ids.lemma_filter_contains(none_of(dropped), k);
        assert(kept.contains(id));
    }
    if kept.contains(id) {
        ids.lemma_filter_pred(none_of(dropped), kept.index_of(id));
        ids.lemma_filter_contains_rev(none_of(dropped), id);
        let k = ids.index_of(id);
        assert(tags[k].id == id);
        if n <= k {
            assert(dropped[k - n] == id);
        }
    }
}

/// A tag that comes in anew gets the next generation, and no other tag gets
/// another one.
pub proof fn law_only_tags_that_come_in_move_anew(
    generations: Map<i64, u64>,
    listed: Seq<TagInfo>,
    active: Seq<i64>,
    pinned: Seq<i64>,
    rendered: Seq<i64>,
    id: i64,
)
    requires
        tag_ids(listed).no_duplicates(),
        generation(generations, id) < u64::MAX,
    ensures
        generation(generations_after(generations, listed, active, pinned, rendered), id)
            == generation(generations, id) + (if has_tag(listed, id) && active.contains(id)
            && !pinned.contains(id) && !rendered.contains(id) {
            1int
        } else {
            0int
        }),
    decreases listed.len(),
{
    if listed.len() > 0 {
        let rest = listed.drop_last();
        let n = listed.len() - 1;
        assert forall|i: int, j: int|
            0 <= i < rest.len() && 0 <= j < rest.len() && i != j implies tag_ids(rest)[i]
            != tag_ids(rest)[j] by {
            assert(tag_ids(listed)[i] != tag_ids(listed)[j]);
        }
        law_only_tags_that_come_in_move_anew(generations, rest, active, pinned, rendered, id);
        if listed[n].id == id && has_tag(rest, id) {
            let k = choose|k: int| 0 <= k < rest.len() && (#[trigger] rest[k]).id == id;
            assert(tag_ids(listed)[k] == tag_ids(listed)[n]);
        }
        if has_tag(listed, id) && listed[n].id != id {
            let k = choose|k: int| 0 <= k < listed.len() && (#[trigger] listed[k]).id == id;
            assert(rest[k].id == id);
        }
        if has_tag(rest, id) {
            let k = choose|k: int| 0 <= k < rest.len() && (#[trigger] rest[k]).id == id;
            assert(listed[k].id == id);
        }
    }
}

/// A row of the sidebar is about its tag. It can be clicked where the tag is
/// filtered for or pinned, and it moves only where the tag comes in.
pub proof fn law_sidebar_rows_show_their_tags(
    tag: TagInfo,
    active: Seq<i64>,
    pinned: Seq<i64>,
    rendered: Seq<i64>,
    generations: Map<i64, u64>,
)
    ensures
        ({
            let row = sidebar_row(tag, active, pinned, rendered, generations);
            &&& row.tag == tag
            &&& row.checked <==> active.contains(tag.id)
            &&& row.pinned <==> pinned.contains(tag.id)
            &&& row.interactable <==> row.checked || row.pinned
            &&& row.target.opacity == (if row.interactable {
                100int
            } else {
                0int
            })
            &&& row.target.x == 0 <==> row.checked
            &&& row.target.text_opacity == 100 <==> row.checked
            &&& row.target == target_pose(row.checked, row.pinned)
            &&& row.initial != row.target <==> row.checked && !row.pinned && !rendered.contains(
                tag.id,
            )
            &&& row.initial != row.target ==> row.initial == target_pose(false, false)
            &&& row.transition_key == transition_key(
                tag.id,
                generation(generations, tag.id),
            )
        }),
{
}

/// A row that is filtered for stands further out and is easier to read, and a
/// pinned one has the longer bar.
pub proof fn law_rows_are_told_by_their_pose(checked: bool, pinned: bool)
    ensures
        target_pose(true, pinned).x < target_pose(false, pinned).x,
        target_pose(true, pinned).text_opacity > target_pose(false, pinned).text_opacity > 0,
        target_pose(checked, true).bar_height > target_pose(checked, false).bar_height > 0,
        target_pose(true, pinned).bar_height == target_pose(false, pinned).bar_height,
        target_pose(checked, true).x == target_pose(checked, false).x,
        target_pose(checked, true).text_opacity == target_pose(checked, false).text_opacity,
{
}

/// The name of a movement tells both the tag and the generation.
pub proof fn law_movements_have_names_of_their_own(id: i64, generation: u64)
    requires
        0 <= id < 0x1_0000_0000,
        generation < 0x1_0000_0000,
    ensures
        transition_key(id, generation) % 0x1_0000_0000 == id,
        transition_key(id, generation) / 0x1_0000_0000 == generation,
{
    assert(generation << 32 == generation * 0x1_0000_0000) by (bit_vector)
        requires
            generation < 0x1_0000_0000,
    ;
    let n = id as u64;
    assert(n == id);
    assert((n + generation * 0x1_0000_0000) % 0x1_0000_0000 == n && (n + generation
        * 0x1_0000_0000) / 0x1_0000_0000 == generation) by (nonlinear_arith)
        requires
            0 <= n < 0x1_0000_0000,
    ;
}

/// The digit that a number below sixteen is written with, with capitals or
/// without.
pub open spec fn written(n: int, capital: bool) -> int {
    if n < 10 {
        0x30 + n
    } else if capital {
        0x41 + n - 10
    } else {
        0x61 + n - 10
    }
}

/// Whether two bytes are a number below 256 written with two hexadecimal digits.
pub open spec fn writes(high: u8, low: u8, value: int, capital: bool) -> bool {
    &&& 0 <= value < 256
    &&& high == written(value / 16, capital)
    &&& low == written(value % 16, capital)
}

/// The parts of a colour, from the highest byte down.
pub open spec fn parts(color: u32) -> (int, int, int, int) {
    (
        color as int / 0x1000000,
        color as int / 0x10000 % 0x100,
        color as int / 0x100 % 0x100,
        color as int % 0x100,
    )
}

/// The parts of a colour that was put together.
proof fn lemma_parts(red: u32, green: u32, blue: u32)
    requires
        red < 256,
        green < 256,
        blue < 256,
    ensures
        parts(opaque_color(red, green, blue)) == (red as int, green as int, blue as int, 0xffint),
{
    let color = red * 0x1000000 + green * 0x10000 + blue * 0x100 + 0xff;
    assert(color <= u32::MAX);
    assert(color / 0x1000000 == red);
    assert(color / 0x10000 == red * 0x100 + green);
    assert(color / 0x100 == red * 0x10000 + green * 0x100 + blue);
    assert((red * 0x100 + green) % 0x100 == green as int);
    assert((red * 0x10000 + green * 0x100 + blue) % 0x100 == blue as int);
    assert(color % 0x100 == 0xff);
}

/// Two hexadecimal digits are read as the number that they write.
pub proof fn law_digits_are_read_back(high: u8, low: u8, value: int, capital: bool)
    requires
        writes(high, low, value, capital),
    ensures
        channel(high, low) == Some(value as u32),
{
    assert(0 <= value / 16 < 16 && 0 <= value % 16 < 16 && 16 * (value / 16) + value % 16 == value);
    assert(digit(high) == Some((value / 16) as u32));
    assert(digit(low) == Some((value % 16) as u32));
}

/// A digit with a plus sign before it is read as that digit; with anything else
/// before it that is no digit, nothing is read.
pub proof fn law_signed_digits_are_read(high: u8, low: u8, value: int, capital: bool)
    requires
        0 <= value < 16,
        low == written(value, capital),
        !(0x30 <= high <= 0x39) && !(0x41 <= high <= 0x46) && !(0x61 <= high <= 0x66),
    ensures
        high == 0x2b ==> channel(high, low) == Some(value as u32),
        high != 0x2b ==> channel(high, low) is None,
{
    assert(digit(low) == Some(value as u32));
}

/// A colour that is written with six digits is read as it is written, with
/// number signs before it or without, and it is opaque.
pub proof fn law_colours_are_read_back(
    text: Seq<char>,
    signs: Seq<u8>,
    digits: Seq<u8>,
    red: int,
    green: int,
    blue: int,
    capital: bool,
)
    requires
        encode_utf8(text) == signs + digits,
        forall|i: int| 0 <= i < signs.len() ==> #[trigger] signs[i] == 0x23,
        digits.len() == 6,
        writes(digits[0], digits[1], red, capital),
        writes(digits[2], digits[3], green, capital),
        writes(digits[4], digits[5], blue, capital),
    ensures
        parts(tag_color(text)) == (red, green, blue, 0xffint),
{
    lemma_signs_go(signs, digits);
    law_digits_are_read_back(digits[0], digits[1], red, capital);
    law_digits_are_read_back(digits[2], digits[3], green, capital);
    law_digits_are_read_back(digits[4], digits[5], blue, capital);
    lemma_parts(red as u32, green as u32, blue as u32);
}

/// Number signs before something else are dropped.
proof fn lemma_signs_go(signs: Seq<u8>, rest: Seq<u8>)
    requires
        forall|i: int| 0 <= i < signs.len() ==> #[trigger] signs[i] == 0x23,
        rest.len() > 0 ==> rest[0] != 0x23,
    ensures
        without_signs(signs + rest) == rest,
    decreases signs.len(),
{
    if signs.len() == 0 {
        assert(signs + rest =~= rest);
    } else {
        let all = signs + rest;
        assert(all[0] == signs[0]);
        assert(all.drop_first() =~= signs.drop_first() + rest);
        lemma_signs_go(signs.drop_first(), rest);
    }
}

/// A colour with another number of digits is the default one, and a part that
/// ends in no digit is that part of the default one.
pub proof fn law_unreadable_colours_are_the_default(
    text: Seq<char>,
    signs: Seq<u8>,
    rest: Seq<u8>,
    b: u8,
)
    requires
        encode_utf8(text) == signs + rest,
        forall|i: int| 0 <= i < signs.len() ==> #[trigger] signs[i] == 0x23,
        rest.len() > 0 ==> rest[0] != 0x23,
        !(0x30 <= b <= 0x39) && !(0x41 <= b <= 0x46) && !(0x61 <= b <= 0x66),
    ensures
        rest.len() != 6 ==> tag_color(text) == DEFAULT_TAG_COLOR,
        rest.len() == 6 && rest[1] == b ==> parts(tag_color(text)).0 == parts(DEFAULT_TAG_COLOR).0,
        rest.len() == 6 && rest[3] == b ==> parts(tag_color(text)).1 == parts(DEFAULT_TAG_COLOR).1,
        rest.len() == 6 && rest[5] == b ==> parts(tag_color(text)).2 == parts(DEFAULT_TAG_COLOR).2,
        parts(tag_color(text)).3 == 0xff,
{
    lemma_signs_go(signs, rest);
    assert(digit(b) is None);
    if rest.len() == 6 {
        let red = crate::tag_color::channel_or(rest[0], rest[1], 0x7e);
        let green = crate::tag_color::channel_or(rest[2], rest[3], 0xcb);
        let blue = crate::tag_color::channel_or(rest[4], rest[5], 0xa3);
        lemma_parts(red, green, blue);
    }
    assert(parts(DEFAULT_TAG_COLOR) == (0x7eint, 0xcbint, 0xa3int, 0xffint));
}

/// A text without a place to fill stays as it is.
pub proof fn law_text_without_a_place_stays(template: Seq<char>, value: Seq<char>)
    requires
        !template.contains('{'),
    ensures
        filled(template, value) == template,
    decreases template.len(),
{
    if template.len() > 0 {
        let rest = template.skip(1);
        assert(template[0] != '{');
        if begins_with(template, seq!['{', '0', '}']) {
            assert(template[0] == template.take(3)[0]);
        }
        assert forall|i: int| 0 <= i < rest.len() implies rest[i] != '{' by {
            assert(template[i + 1] != '{');
        }
        law_text_without_a_place_stays(rest, value);
        assert(seq![template[0]] + rest =~= template);
    }
}

/// The value stands where the template has a place for it, between what stood
/// around that place.
pub proof fn law_values_are_put_in_their_place(
    before: Seq<char>,
    after: Seq<char>,
    value: Seq<char>,
)
    requires
        !before.contains('{'),
    ensures
        filled(before + seq!['{', '0', '}'] + after, value) == before + value + filled(
            after,
            value,
        ),
    decreases before.len(),
{
    let place = seq!['{', '0', '}'];
    let template = before + place + after;
    if before.len() == 0 {
        assert(template.take(3) =~= place);
        assert(template.skip(3) =~= after);
        assert(before + value =~= value);
    } else {
        let rest = before.skip(1);
        assert(before[0] != '{');
        assert(template[0] == before[0]);
        if begins_with(template, place) {
            assert(template[0] == template.take(3)[0]);
        }
        assert forall|i: int| 0 <= i < rest.len() implies rest[i] != '{' by {
            assert(before[i + 1] != '{');
        }
        assert(template.skip(1) =~= rest + place + after);
        law_values_are_put_in_their_place(rest, after, value);
        assert(seq![before[0]] + (rest + value + filled(after, value)) =~= before + value + filled(
            after,
            value,
        ));
    }
}

/// Whether two bytes are one letter of the alphabet, as a capital and without.
pub open spec fn differ_by_case(a: u8, b: u8) -> bool {
    0x41 <= a <= 0x5a && b == a + 0x20 || 0x41 <= b <= 0x5a && a == b + 0x20
}

/// Names are the same where their letters differ at most in being capitals.
pub proof fn law_names_are_told_apart_by_their_letters(a: Seq<char>, b: Seq<char>)
    ensures
        same_name(a, b) <==> encode_utf8(a).len() == encode_utf8(b).len() && forall|i: int|
            0 <= i < encode_utf8(a).len() ==> (#[trigger] encode_utf8(a)[i]) == encode_utf8(b)[i]
                || differ_by_case(encode_utf8(a)[i], encode_utf8(b)[i]),
{
    let x = encode_utf8(a);
    let y = encode_utf8(b);
    assert forall|i: int| 0 <= i < x.len() implies (crate::text::folded(#[trigger] x[i])
        == crate::text::folded(y[i]) <==> x[i] == y[i] || differ_by_case(x[i], y[i])) by {}
}

/// The tags that are shown in the sidebar without fading are those of the tags
/// that are filtered for or pinned.
pub proof fn law_tags_are_shown_that_are_used(
    tags: Seq<TagInfo>,
    active: Seq<i64>,
    pinned: Seq<i64>,
    id: i64,
)
    ensures
        shown_tag_ids(tags, active, pinned).contains(id) <==> has_tag(tags, id) && (
        active.contains(id) || pinned.contains(id)),
{
    let keep = shown_tag(active, pinned);
    let kept = tags.filter(keep);
    let ids = shown_tag_ids(tags, active, pinned);
    if has_tag(tags, id) && (active.contains(id) || pinned.contains(id)) {
        let k = choose|k: int| 0 <= k < tags.len() && (#[trigger] tags[k]).id == id;
        tags.lemma_filter_contains(keep, k);
        let m = kept.index_of(tags[k]);
        assert(ids[m] == id);
    }
    if ids.contains(id) {
        let k = ids.index_of(id);
        tags.lemma_filter_pred(keep, k);
        tags.lemma_filter_contains_rev(keep, kept[k]);
        assert(tags[tags.index_of(kept[k])].id == id);
    }
}

/// The entry of a key is the first one that has it.
pub proof fn law_entry_of_a_key_is_its_first(
    config: Seq<TypeFilterEntry>,
    key: Seq<char>,
    i: int,
    j: int,
)
    requires
        is_entry_place(config, key, i),
        0 <= j < config.len(),
        config[j].key@ == key,
    ensures
        0 <= i <= j,
        config[i].key@ == key,
{
}

/// Where an entry has a key, the key has an entry.
pub proof fn law_keys_have_their_entry(config: Seq<TypeFilterEntry>, key: Seq<char>, j: int)
    requires
        0 <= j < config.len(),
        config[j].key@ == key,
    ensures
        exists|i: int| is_entry_place(config, key, i),
    decreases j,
{
    if exists|k: int| 0 <= k < j && (#[trigger] config[k]).key@ == key {
        let k = choose|k: int| 0 <= k < j && (#[trigger] config[k]).key@ == key;
        law_keys_have_their_entry(config, key, k);
    } else {
        assert(is_entry_place(config, key, j));
    }
}

/// Whether the entry at `i` and the one at `j` changed places, no other did, and
/// that was stored.
pub open spec fn entries_exchanged(before: AppModel, after: AppModel, i: int, j: int) -> bool {
    let old_config = before.settings.type_filter_config;
    let new_config = after.settings.type_filter_config;
    &&& after == before.reconfigured(new_config)
    &&& new_config.len() == old_config.len()
    &&& new_config[i] == old_config[j]
    &&& new_config[j] == old_config[i]
    &&& forall|k: int|
        0 <= k < old_config.len() && k != i && k != j ==> #[trigger] new_config[k] == old_config[k]
}

/// A button moves one place to the front or to the back, past its neighbour. The
/// first stays in front and the last at the back.
pub proof fn law_buttons_move_one_place(app: AppModel, i: int)
    requires
        0 <= i < app.settings.type_filter_config.len(),
    ensures
        i == 0 ==> app.moving_up(i) == app,
        i > 0 ==> entries_exchanged(app, app.moving_up(i), i, i - 1),
        i == app.settings.type_filter_config.len() - 1 ==> app.moving_down(i) == app,
        i < app.settings.type_filter_config.len() - 1 ==> entries_exchanged(
            app,
            app.moving_down(i),
            i,
            i + 1,
        ),
{
}

/// A keyword is searched for, what is left is shown, and its top is selected.
pub proof fn law_keywords_are_searched_for(app: AppModel, keyword: String)
    ensures
        adds(
            app,
            app.searching(keyword),
            seq![
                bare(Op::SetKeyword { keyword }),
                bare(Op::ResetList),
                bare(Op::SelectTop),
            ],
        ),
{
    lemma_added(app.requests);
}

/// A panel of the strip is opened where it is closed and closed where it is open.
/// The other panel and the theme stay.
pub proof fn law_strip_panels_are_toggled_apart(bar: FilterBar)
    ensures
        bar.tag_panel_toggled().tag_panel_open != bar.tag_panel_open,
        bar.tag_panel_toggled().filter_config_open == bar.filter_config_open,
        bar.tag_panel_toggled().tag_panel_toggled() == bar,
        bar.filter_config_toggled().filter_config_open != bar.filter_config_open,
        bar.filter_config_toggled().tag_panel_open == bar.tag_panel_open,
        bar.filter_config_toggled().filter_config_toggled() == bar,
        bar.tag_panel_toggled().theme == bar.theme,
        bar.filter_config_toggled().theme == bar.theme,
{
}

/// A filter is toggled first, and then what is left is shown.
pub proof fn law_filters_show_what_is_left(app: AppModel, kind: FilterType, tag_id: i64)
    ensures
        adds(
            app,
            app.type_filter_used(kind),
            seq![bare(Op::ToggleTypeFilter { kind }), bare(Op::ResetList)],
        ),
        adds(
            app,
            app.tag_filter_used(tag_id),
            seq![bare(Op::ToggleTagFilter { tag_id }), bare(Op::ResetList)],
        ),
{
    lemma_added(app.requests);
}

/// How light a colour is, by its red, green and blue.
pub open spec fn lightness(color: u32) -> int {
    parts(color).0 + parts(color).1 + parts(color).2
}

/// The strip marks with the accent what is filtered for, and with a veil what is
/// not: a white one in a dark theme, a black one in a light theme. The divider is
/// the stronger veil.
pub proof fn law_strip_is_veiled_by_its_theme(bar: FilterBar)
    ensures
        ({
            let colors = bar.colors();
            let veil = if bar.theme.bg == 0x191a1bff {
                3 * 0xffint
            } else {
                0int
            };
            &&& colors.active_bg == bar.theme.accent_overlay
            &&& colors.active_text == bar.theme.accent
            &&& colors.inactive_text == bar.theme.text_2
            &&& lightness(colors.inactive_bg) == veil
            &&& lightness(colors.divider) == veil
            &&& 0 < parts(colors.inactive_bg).3 < parts(colors.divider).3 < 0x20
        }),
{
}

/// The panel that configures the strip is veiled as the strip is, and its arrows
/// more strongly under the pointer.
pub proof fn law_config_panel_is_veiled_by_its_theme(dark: bool)
    ensures
        ({
            let colors = config_colors(dark);
            let veil = if dark {
                3 * 0xffint
            } else {
                0int
            };
            &&& lightness(colors.border) == veil
            &&& lightness(colors.arrow_bg) == veil
            &&& lightness(colors.arrow_hover) == veil
            &&& 0 < parts(colors.arrow_bg).3 < parts(colors.border).3
            &&& parts(colors.border).3 < parts(colors.arrow_hover).3 < 0x20
        }),
{
}

/// The sidebar is light on dark in a dark theme and dark on light in a light one,
/// and a row is told from the same row under the pointer.
pub proof fn law_sidebar_can_be_read_in_its_theme()
    ensures
        lightness(sidebar_colors(true).text) > lightness(sidebar_colors(true).row_bg_hover)
            > lightness(sidebar_colors(true).row_bg),
        lightness(sidebar_colors(false).text) < lightness(sidebar_colors(false).row_bg_hover)
            < lightness(sidebar_colors(false).row_bg),
        lightness(sidebar_colors(true).pill_text) > lightness(sidebar_colors(true).pill_bg),
        lightness(sidebar_colors(false).pill_text) < lightness(sidebar_colors(false).pill_bg),
        lightness(sidebar_colors(true).pill_border) > lightness(
            sidebar_colors(false).pill_border,
        ),
{
}

} // verus!
