//! Lists of tags in the order in which they are shown.

use vstd::prelude::*;

use crate::filters::{lemma_filter_start, lemma_filter_step};
use crate::ids::contains_id;
use crate::text::str_eq;
use crate::types::TagInfo;

verus! {

/// Whether tag `i` is the first with this id.
pub open spec fn is_tag_place(tags: Seq<TagInfo>, id: i64, i: int) -> bool {
    &&& 0 <= i < tags.len()
    &&& tags[i].id == id
    &&& forall|j: int| 0 <= j < i ==> (#[trigger] tags[j]).id != id
}

/// Holds of the ids of tags.
pub open spec fn known(tags: Seq<TagInfo>) -> spec_fn(i64) -> bool {
    |id: i64| exists|i: int| is_tag_place(tags, id, i)
}

/// The first tag with an id.
pub open spec fn tag_of(tags: Seq<TagInfo>) -> spec_fn(i64) -> TagInfo {
    |id: i64| tags[choose|i: int| is_tag_place(tags, id, i)]
}

/// The tags with these ids, in the order of the ids.
pub open spec fn tags_with_ids(tags: Seq<TagInfo>, ids: Seq<i64>) -> Seq<TagInfo> {
    ids.filter(known(tags)).map_values(tag_of(tags))
}

/// Holds of the tags whose id is one of `wanted` and none of `unwanted`.
pub open spec fn among(wanted: Seq<i64>, unwanted: Seq<i64>) -> spec_fn(TagInfo) -> bool {
    |tag: TagInfo| wanted.contains(tag.id) && !unwanted.contains(tag.id)
}

/// Holds of the tags whose id is none of these.
pub open spec fn outside(ids: Seq<i64>) -> spec_fn(TagInfo) -> bool {
    |tag: TagInfo| !ids.contains(tag.id)
}

/// The ids of tags.
pub open spec fn tag_ids(tags: Seq<TagInfo>) -> Seq<i64> {
    tags.map_values(|tag: TagInfo| tag.id)
}

/// Whether one of the tags has this uid.
pub open spec fn has_uid(tags: Seq<TagInfo>, uid: Seq<char>) -> bool {
    exists|k: int| 0 <= k < tags.len() && (#[trigger] tags[k]).uid@ == uid
}

/// Whether one of the tags has this name.
pub open spec fn has_name(tags: Seq<TagInfo>, name: Seq<char>) -> bool {
    exists|k: int| 0 <= k < tags.len() && (#[trigger] tags[k]).name@ == name
}

/// Whether one of the tags has this uid.
pub fn any_tag_has_uid(tags: &[TagInfo], uid: &str) -> (r: bool)
    ensures
        r == has_uid(tags@, uid@),
{
    let mut k: usize = 0;
    while k < tags.len()
        invariant
            0 <= k <= tags.len(),
            forall|j: int| 0 <= j < k ==> (#[trigger] tags@[j]).uid@ != uid@,
        decreases tags.len() - k,
    {
        if str_eq(tags[k].uid.as_str(), uid) {
            return true;
        }
        k += 1;
    }
    false
}

/// Whether one of the tags has this name.
pub fn any_tag_has_name(tags: &[TagInfo], name: &str) -> (r: bool)
    ensures
        r == has_name(tags@, name@),
{
    let mut k: usize = 0;
    while k < tags.len()
        invariant
            0 <= k <= tags.len(),
            forall|j: int| 0 <= j < k ==> (#[trigger] tags@[j]).name@ != name@,
        decreases tags.len() - k,
    {
        if str_eq(tags[k].name.as_str(), name) {
            return true;
        }
        k += 1;
    }
    false
}

/// A tag's id is known, and stands for a tag with that id.
pub proof fn lemma_tag_is_known(tags: Seq<TagInfo>, k: int)
    requires
        0 <= k < tags.len(),
    ensures
        known(tags)(tags[k].id),
        tag_of(tags)(tags[k].id).id == tags[k].id,
    decreases k,
{
    let id = tags[k].id;
    if exists|j: int| 0 <= j < k && (#[trigger] tags[j]).id == id {
        let j = choose|j: int| 0 <= j < k && (#[trigger] tags[j]).id == id;
        lemma_tag_is_known(tags, j);
    } else {
        assert(is_tag_place(tags, id, k));
    }
}

/// The place of the first tag with an id.
pub fn find_tag(tags: &[TagInfo], id: i64) -> (r: Option<usize>)
    ensures
        match r {
            Some(i) => is_tag_place(tags@, id, i as int) && tag_of(tags@)(id) == tags@[i as int],
            None => !known(tags@)(id),
        },
        r is Some == known(tags@)(id),
{
    let mut i: usize = 0;
    while i < tags.len()
        invariant
            0 <= i <= tags.len(),
            forall|j: int| 0 <= j < i ==> (#[trigger] tags@[j]).id != id,
        decreases tags.len() - i,
    {
        if tags[i].id == id {
            proof {
                assert(is_tag_place(tags@, id, i as int));
                let k = choose|k: int| is_tag_place(tags@, id, k);
                assert(is_tag_place(tags@, id, k));
                assert(k == i) by {
                    if k < i {
                        assert(tags@[k].id != id);
                    }
                    if i < k {
                        assert(tags@[i as int].id != id);
                    }
                }
            }
            return Some(i);
        }
        i += 1;
    }
    None
}

/// Collects the tags with these ids, in the order of the ids.
pub fn collect_tags_with_ids(tags: &[TagInfo], ids: &[i64]) -> (r: Vec<TagInfo>)
    ensures
        r@ == tags_with_ids(tags@, ids@),
{
    let mut r: Vec<TagInfo> = Vec::new();
    let mut i: usize = 0;
    let ghost keep = known(tags@);
    let ghost pick = tag_of(tags@);
    proof {
        lemma_filter_start(ids@, keep);
    }
    assert(r@ =~= ids@.take(0).filter(keep).map_values(pick));
    while i < ids.len()
        invariant
            0 <= i <= ids.len(),
            keep == known(tags@),
            pick == tag_of(tags@),
            r@ == ids@.take(i as int).filter(keep).map_values(pick),
        decreases ids.len() - i,
    {
        let id = ids[i];
        let ghost done = ids@.take(i as int);
        proof {
            lemma_filter_step(ids@, keep, i as int);
            assert(done.filter(keep).push(id).map_values(pick) =~= done.filter(keep).map_values(
                pick,
            ).push(pick(id)));
        }
        if let Some(place) = find_tag(tags, id) {
            r.push(tags[place].duplicate());
        }
        i += 1;
    }
    assert(ids@.take(i as int) =~= ids@);
    r
}

/// Appends the tags whose id is one of `wanted` and none of `unwanted`.
pub fn append_among(r: &mut Vec<TagInfo>, tags: &[TagInfo], wanted: &[i64], unwanted: &[i64])
    ensures
        final(r)@ == old(r)@ + tags@.filter(among(wanted@, unwanted@)),
{
    let mut i: usize = 0;
    let ghost keep = among(wanted@, unwanted@);
    proof {
        lemma_filter_start(tags@, keep);
    }
    assert(r@ =~= old(r)@ + tags@.take(0).filter(keep));
    while i < tags.len()
        invariant
            0 <= i <= tags.len(),
            keep == among(wanted@, unwanted@),
            r@ == old(r)@ + tags@.take(i as int).filter(keep),
        decreases tags.len() - i,
    {
        let ghost done = tags@.take(i as int);
        proof {
            lemma_filter_step(tags@, keep, i as int);
            assert(old(r)@ + done.filter(keep).push(tags@[i as int]) =~= (old(r)@ + done.filter(
                keep,
            )).push(tags@[i as int]));
        }
        if contains_id(wanted, tags[i].id) && !contains_id(unwanted, tags[i].id) {
            r.push(tags[i].duplicate());
        }
        i += 1;
    }
    assert(tags@.take(i as int) =~= tags@);
}

/// Appends the tags whose id is none of `ids`.
pub fn append_outside(r: &mut Vec<TagInfo>, tags: &[TagInfo], ids: &[i64])
    ensures
        final(r)@ == old(r)@ + tags@.filter(outside(ids@)),
{
    let mut i: usize = 0;
    let ghost keep = outside(ids@);
    proof {
        lemma_filter_start(tags@, keep);
    }
    assert(r@ =~= old(r)@ + tags@.take(0).filter(keep));
    while i < tags.len()
        invariant
            0 <= i <= tags.len(),
            keep == outside(ids@),
            r@ == old(r)@ + tags@.take(i as int).filter(keep),
        decreases tags.len() - i,
    {
        let ghost done = tags@.take(i as int);
        proof {
            lemma_filter_step(tags@, keep, i as int);
            assert(old(r)@ + done.filter(keep).push(tags@[i as int]) =~= (old(r)@ + done.filter(
                keep,
            )).push(tags@[i as int]));
        }
        if !contains_id(ids, tags[i].id) {
            r.push(tags[i].duplicate());
        }
        i += 1;
    }
    assert(tags@.take(i as int) =~= tags@);
}

/// Collects the ids of tags.
pub fn collect_tag_ids(tags: &[TagInfo]) -> (r: Vec<i64>)
    ensures
        r@ == tag_ids(tags@),
{
    let mut r: Vec<i64> = Vec::new();
    let mut i: usize = 0;
    while i < tags.len()
        invariant
            0 <= i <= tags.len(),
            r@.len() == i,
            forall|j: int| 0 <= j < i ==> #[trigger] r@[j] == tags@[j].id,
        decreases tags.len() - i,
    {
        r.push(tags[i].id);
        i += 1;
    }
    assert(r@ =~= tag_ids(tags@));
    r
}

} // verus!
