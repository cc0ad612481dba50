//! What holds of the tag sidebar as a whole.

use vstd::prelude::*;

use crate::sidebar::{
    comes_in, fading_after, fading_tag, generation, generations_after, hidden, rows_shown,
    sidebar_tags, SidebarModel,
};
use crate::tags::{among, is_tag_place, known, lemma_tag_is_known, tag_ids, tag_of, tags_with_ids};
use crate::types::TagInfo;

verus! {

/// A filter of a list in which no tag is twice holds no tag twice, and only tags
/// of which it holds.
proof fn lemma_filter_keeps_apart(tags: Seq<TagInfo>, keep: spec_fn(TagInfo) -> bool)
    requires
        tag_ids(tags).no_duplicates(),
    ensures
        tag_ids(tags.filter(keep)).no_duplicates(),
        forall|i: int|
            0 <= i < tags.filter(keep).len() ==> keep(#[trigger] tags.filter(keep)[i])
                && tag_ids(tags).contains(tags.filter(keep)[i].id),
    decreases tags.len(),
{
    reveal(Seq::filter);
    if tags.len() > 0 {
        let rest = tags.drop_last();
        let ids = tag_ids(tags);
        assert forall|i: int, j: int|
            0 <= i < rest.len() && 0 <= j < rest.len() && i != j implies tag_ids(rest)[i]
            != tag_ids(rest)[j] by {
            assert(ids[i] != ids[j]);
        }
        lemma_filter_keeps_apart(rest, keep);
        let kept = rest.filter(keep);
        let last = tags.last();
        assert forall|i: int| 0 <= i < kept.len() implies ids.contains(
            (#[trigger] kept[i]).id,
        ) && kept[i].id != last.id by {
            assert(tag_ids(rest).contains(kept[i].id));
            let k = tag_ids(rest).index_of(kept[i].id);
            assert(ids[k] == kept[i].id);
            assert(ids[tags.len() - 1] == last.id);
        }
        assert(ids.contains(last.id)) by {
            assert(ids[tags.len() - 1] == last.id);
        }
        if keep(last) {
            let all = kept.push(last);
            assert forall|i: int, j: int|
                0 <= i < all.len() && 0 <= j < all.len() && i != j implies tag_ids(all)[i]
                != tag_ids(all)[j] by {
                if i < kept.len() && j < kept.len() {
                    assert(tag_ids(kept)[i] != tag_ids(kept)[j]);
                } else if i < kept.len() {
                    assert(kept[i].id != last.id);
                } else {
                    assert(kept[j].id != last.id);
                }
            }
        }
    }
}

/// A filter of ids that are all different holds no id twice.
proof fn lemma_ids_stay_apart(ids: Seq<i64>, keep: spec_fn(i64) -> bool)
    requires
        ids.no_duplicates(),
    ensures
        ids.filter(keep).no_duplicates(),
    decreases ids.len(),
{
    reveal(Seq::filter);
    if ids.len() > 0 {
        let rest = ids.drop_last();
        lemma_ids_stay_apart(rest, keep);
        let kept = rest.filter(keep);
        assert forall|i: int| 0 <= i < kept.len() implies #[trigger] kept[i] != ids.last() by {
            rest.lemma_filter_contains_rev(keep, kept[i]);
            let k = rest.index_of(kept[i]);
            assert(ids[k] == kept[i]);
        }
    }
}

/// The tags with ids that are all different are all different, and each has the
/// id that it was asked for with.
proof fn lemma_pinned_stay_apart(tags: Seq<TagInfo>, ids: Seq<i64>)
    requires
        ids.no_duplicates(),
    ensures
        tag_ids(tags_with_ids(tags, ids)).no_duplicates(),
        forall|i: int|
            0 <= i < tags_with_ids(tags, ids).len() ==> ids.contains(
                (#[trigger] tags_with_ids(tags, ids)[i]).id,
            ),
{
    let kept = ids.filter(known(tags));
    lemma_ids_stay_apart(ids, known(tags));
    let all = tags_with_ids(tags, ids);
    assert forall|i: int| 0 <= i < all.len() implies (#[trigger] all[i]).id == kept[i]
        && ids.contains(kept[i]) by {
        ids.lemma_filter_pred(known(tags), i);
        ids.lemma_filter_contains_rev(known(tags), kept[i]);
        let k = choose|k: int| is_tag_place(tags, kept[i], k);
        assert(is_tag_place(tags, kept[i], k));
        assert(all[i] == tag_of(tags)(kept[i]));
    }
    assert(tag_ids(all) =~= kept);
}

/// No tag is shown twice, if no tag and no pin is there twice.
pub proof fn law_no_tag_is_shown_twice(
    tags: Seq<TagInfo>,
    active: Seq<i64>,
    pinned: Seq<i64>,
    fading: Map<i64, u64>,
)
    requires
        tag_ids(tags).no_duplicates(),
        pinned.no_duplicates(),
    ensures
        tag_ids(sidebar_tags(tags, active, pinned, fading)).no_duplicates(),
{
    let first = tags_with_ids(tags, pinned);
    let second = tags.filter(among(active, pinned));
    let third = tags.filter(fading_tag(fading, active, pinned));
    lemma_pinned_stay_apart(tags, pinned);
    lemma_filter_keeps_apart(tags, among(active, pinned));
    lemma_filter_keeps_apart(tags, fading_tag(fading, active, pinned));
    let all = sidebar_tags(tags, active, pinned, fading);
    let a = first.len() as int;
    let b = a + second.len();
    assert forall|i: int, j: int| 0 <= i < j < all.len() implies all[i].id != all[j].id by {
        if i < a {
            assert(all[i] == first[i]);
            assert(pinned.contains(all[i].id));
            if j < a {
                assert(all[j] == first[j]);
                assert(tag_ids(first)[i] != tag_ids(first)[j]);
            } else if j < b {
                assert(all[j] == second[j - a]);
                assert(!pinned.contains(all[j].id));
            } else {
                assert(all[j] == third[j - b]);
                assert(!pinned.contains(all[j].id));
            }
        } else if i < b {
            assert(all[i] == second[i - a]);
            assert(active.contains(all[i].id));
            if j < b {
                assert(all[j] == second[j - a]);
                assert(tag_ids(second)[i - a] != tag_ids(second)[j - a]);
            } else {
                assert(all[j] == third[j - b]);
                assert(!active.contains(all[j].id));
            }
        } else {
            assert(all[i] == third[i - b]);
            assert(all[j] == third[j - b]);
            assert(tag_ids(third)[i - b] != tag_ids(third)[j - b]);
        }
    }
    assert forall|i: int, j: int|
        0 <= i < all.len() && 0 <= j < all.len() && i != j implies tag_ids(all)[i]
        != tag_ids(all)[j] by {
        if i < j {
            assert(all[i].id != all[j].id);
        } else {
            assert(all[j].id != all[i].id);
        }
    }
}

/// Every tag that is filtered for or pinned is among the tags of the sidebar.
pub proof fn law_every_shown_tag_is_there(
    tags: Seq<TagInfo>,
    active: Seq<i64>,
    pinned: Seq<i64>,
    fading: Map<i64, u64>,
    k: int,
)
    requires
        0 <= k < tags.len(),
        active.contains(tags[k].id) || pinned.contains(tags[k].id),
    ensures
        tag_ids(sidebar_tags(tags, active, pinned, fading)).contains(tags[k].id),
{
    let id = tags[k].id;
    let first = tags_with_ids(tags, pinned);
    let second = tags.filter(among(active, pinned));
    let all = sidebar_tags(tags, active, pinned, fading);
    if pinned.contains(id) {
        lemma_tag_is_known(tags, k);
        pinned.lemma_filter_contains(known(tags), pinned.index_of(id));
        let kept = pinned.filter(known(tags));
        let j = kept.index_of(id);
        assert(first[j] == tag_of(tags)(id));
        assert(tag_ids(all)[j] == id);
    } else {
        tags.lemma_filter_contains(among(active, pinned), k);
        let j = second.index_of(tags[k]);
        assert(tag_ids(all)[first.len() + j] == id);
    }
}

/// The rows fit, together with the number of the tags that do not, wherever more
/// than one row does.
pub proof fn law_rows_fit(count: nat, max_visible: nat)
    requires
        max_visible > 1,
    ensures
        rows_shown(count, max_visible) + (if hidden(count, max_visible) > 0 {
            1int
        } else {
            0int
        }) <= max_visible,
        hidden(count, max_visible) == 0 ==> rows_shown(count, max_visible) == count,
{
}

/// A tag that is filtered for or pinned does not fade out, and no tag fades out
/// for longer than it takes.
pub proof fn law_fading_ends(
    fading: Map<i64, u64>,
    rendered: Seq<i64>,
    shown: Seq<i64>,
    now: u64,
    id: i64,
)
    ensures
        shown.contains(id) ==> !fading_after(fading, rendered, shown, now).contains_key(id),
        fading.contains_key(id) && now - fading[id] >= crate::sidebar::FADE_OUT_NANOS
            ==> !fading_after(fading, rendered, shown, now).contains_key(id),
        !shown.contains(id) && rendered.contains(id) && !fading.contains_key(id) ==> fading_after(
            fading,
            rendered,
            shown,
            now,
        ).contains_pair(id, now),
{
}

/// A tag that comes in anew moves anew: its movement has a higher generation.
pub proof fn law_tag_that_comes_in_moves_anew(
    side: SidebarModel,
    shown: Seq<TagInfo>,
    active: Seq<i64>,
    pinned: Seq<i64>,
    k: int,
)
    requires
        0 <= k < shown.len(),
        comes_in(active, pinned, side.rendered, shown[k].id),
        side.has_room(shown.len()),
        shown.len() <= u64::MAX,
    ensures
        generation(
            generations_after(side.generations, shown, active, pinned, side.rendered),
            shown[k].id,
        ) > generation(side.generations, shown[k].id),
{
    assert(tag_ids(shown)[k] == shown[k].id);
    lemma_generations_grow(side, shown, active, pinned, shown[k].id);
}

/// The generations grow by at most one for each tag that is shown, and by at
/// least one for one that comes in.
proof fn lemma_generations_grow(
    side: SidebarModel,
    shown: Seq<TagInfo>,
    active: Seq<i64>,
    pinned: Seq<i64>,
    id: i64,
)
    requires
        side.has_room(shown.len()),
        shown.len() <= u64::MAX,
    ensures
        ({
            let after = generation(
                generations_after(side.generations, shown, active, pinned, side.rendered),
                id,
            );
            &&& generation(side.generations, id) <= after <= generation(side.generations, id)
                + shown.len()
            &&& comes_in(active, pinned, side.rendered, id) && tag_ids(shown).contains(id)
                ==> after > generation(side.generations, id)
        }),
    decreases shown.len(),
{
    if shown.len() > 0 {
        let rest = shown.drop_last();
        assert(side.has_room(rest.len()));
        lemma_generations_grow(side, rest, active, pinned, id);
        lemma_generations_grow(side, rest, active, pinned, shown.last().id);
        if tag_ids(shown).contains(id) && shown.last().id != id {
            let k = tag_ids(shown).index_of(id);
            assert(tag_ids(rest)[k] == id);
        }
        let last = shown.last().id;
        assert(side.generations.contains_key(last) ==> side.generations[last] + shown.len()
            <= u64::MAX);
    }
}

} // verus!
