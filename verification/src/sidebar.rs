//! The tag sidebar: which tags it shows, in what order, and how they move in
//! and out.

use std::collections::HashMap;
use vstd::prelude::*;
use vstd::std_specs::iter::IteratorSpec;

use crate::app_state::{AppModel, AppState, Op};
use crate::filters::{lemma_filter_start, lemma_filter_step};
use crate::ids::{contains_id, lemma_push_to_set};
use crate::tags::{
    among, append_among, collect_tag_ids, collect_tags_with_ids, tag_ids, tags_with_ids,
};
use crate::theme::{pick_shade, shade, ClippiTheme};
use crate::types::TagInfo;

verus! {

broadcast use vstd::std_specs::hash::group_hash_axioms;

/// How long a tag takes to fade out, in nanoseconds.
pub const FADE_OUT_NANOS: u64 = 300_000_000;

/// The tag sidebar. Times are in nanoseconds.
pub struct Sidebar {
    /// The tags that were shown last.
    pub rendered_tag_ids: Vec<i64>,
    /// When each tag that is fading out began to.
    pub unchecked_unpinned_since: HashMap<i64, u64>,
    /// How often each tag has come in anew.
    pub transition_generations: HashMap<i64, u64>,
    pub dark_mode: bool,
}

/// The contents of a `Sidebar`.
#[verifier::ext_equal]
pub ghost struct SidebarModel {
    pub rendered: Seq<i64>,
    pub fading: Map<i64, u64>,
    pub generations: Map<i64, u64>,
    pub dark: bool,
}

impl View for Sidebar {
    type V = SidebarModel;

    open spec fn view(&self) -> SidebarModel {
        SidebarModel {
            rendered: self.rendered_tag_ids@,
            fading: self.unchecked_unpinned_since@,
            generations: self.transition_generations@,
            dark: self.dark_mode,
        }
    }
}

/// Where a row of the sidebar is and how strongly it is painted: lengths in
/// pixels, opacities in percent.
#[derive(Clone, Copy, Debug, PartialEq, Eq, Structural)]
pub struct RowPose {
    pub x: u32,
    pub opacity: u32,
    pub text_opacity: u32,
    pub bar_height: u32,
}

/// A row of the sidebar.
#[derive(Debug, Clone, PartialEq, Eq)]
pub struct SidebarRow {
    pub tag: TagInfo,
    pub checked: bool,
    pub pinned: bool,
    /// Whether the row can be clicked.
    pub interactable: bool,
    /// Where the row moves from.
    pub initial: RowPose,
    /// Where the row moves to.
    pub target: RowPose,
    /// Names the row's movement; another one where the tag comes in anew.
    pub transition_key: u64,
}

/// What the sidebar shows.
#[derive(Debug, Clone, PartialEq, Eq)]
pub struct SidebarLayout {
    pub rows: Vec<SidebarRow>,
    /// How many tags do not fit.
    pub hidden_count: usize,
}

/// The colours of the sidebar.
#[derive(Clone, Copy, Debug, PartialEq, Eq, Structural)]
pub struct SidebarPalette {
    pub text: u32,
    pub row_bg: u32,
    pub row_bg_hover: u32,
    pub pill_bg: u32,
    pub pill_border: u32,
    pub pill_text: u32,
}

/// The colours of the sidebar, in a dark theme or in a light one.
pub open spec fn sidebar_colors(dark: bool) -> SidebarPalette {
    SidebarPalette {
        text: shade(dark, 0xeaebecff, 0x1a1c2eff),
        row_bg: shade(dark, 0x2a2b2eff, 0xf5f6faff),
        row_bg_hover: shade(dark, 0x353638ff, 0xeceef4ff),
        pill_bg: shade(dark, 0x232425e8, 0xffffffe8),
        pill_border: shade(dark, 0xffffff20, 0x00000014),
        pill_text: shade(dark, 0x919496ff, 0x7c809aff),
    }
}

impl AppModel {
    /// The same state with a tag filtered for, or no longer, and what is left
    /// shown.
    pub open spec fn tag_filter_used(self, tag_id: i64) -> Self {
        self.asking(Op::ToggleTagFilter { tag_id }).asking(Op::ResetList)
    }
}

/// Holds of the tags that are filtered for or pinned.
pub open spec fn shown_tag(active: Seq<i64>, pinned: Seq<i64>) -> spec_fn(TagInfo) -> bool {
    |tag: TagInfo| active.contains(tag.id) || pinned.contains(tag.id)
}

/// The ids of the tags that are filtered for or pinned.
pub open spec fn shown_tag_ids(
    tags: Seq<TagInfo>,
    active: Seq<i64>,
    pinned: Seq<i64>,
) -> Seq<i64> {
    tag_ids(tags.filter(shown_tag(active, pinned)))
}

/// When a tag began to fade out: a tag that was shown last begins now, if it
/// has not begun before.
pub open spec fn fade_start(
    fading: Map<i64, u64>,
    rendered: Seq<i64>,
    now: u64,
    id: i64,
) -> Option<u64> {
    if fading.contains_key(id) {
        Some(fading[id])
    } else if rendered.contains(id) {
        Some(now)
    } else {
        None
    }
}

/// Whether a tag is fading out.
pub open spec fn fades(
    fading: Map<i64, u64>,
    rendered: Seq<i64>,
    shown: Seq<i64>,
    now: u64,
    id: i64,
) -> bool {
    match fade_start(fading, rendered, now, id) {
        Some(start) => !shown.contains(id) && now - start < FADE_OUT_NANOS,
        None => false,
    }
}

/// When each tag that is fading out began to.
pub open spec fn fading_after(
    fading: Map<i64, u64>,
    rendered: Seq<i64>,
    shown: Seq<i64>,
    now: u64,
) -> Map<i64, u64> {
    Map::new(
        |id: i64| fades(fading, rendered, shown, now, id),
        |id: i64| fade_start(fading, rendered, now, id).unwrap(),
    )
}

/// Holds of the tags that are fading out.
pub open spec fn fading_tag(
    fading: Map<i64, u64>,
    active: Seq<i64>,
    pinned: Seq<i64>,
) -> spec_fn(TagInfo) -> bool {
    |tag: TagInfo|
        fading.contains_key(tag.id) && !active.contains(tag.id) && !pinned.contains(tag.id)
}

/// The tags of the sidebar in order: the pinned ones in the order of their pins,
/// the others that are filtered for, and those that are fading out.
pub open spec fn sidebar_tags(
    tags: Seq<TagInfo>,
    active: Seq<i64>,
    pinned: Seq<i64>,
    fading: Map<i64, u64>,
) -> Seq<TagInfo> {
    tags_with_ids(tags, pinned) + tags.filter(among(active, pinned)) + tags.filter(
        fading_tag(fading, active, pinned),
    )
}

/// Whether a tag comes in anew.
pub open spec fn comes_in(
    active: Seq<i64>,
    pinned: Seq<i64>,
    rendered: Seq<i64>,
    id: i64,
) -> bool {
    active.contains(id) && !pinned.contains(id) && !rendered.contains(id)
}

/// The generation of a tag's movement.
pub open spec fn generation(generations: Map<i64, u64>, id: i64) -> u64 {
    if generations.contains_key(id) {
        generations[id]
    } else {
        0
    }
}

/// The generations after the tags have come in that do.
pub open spec fn generations_after(
    generations: Map<i64, u64>,
    shown: Seq<TagInfo>,
    active: Seq<i64>,
    pinned: Seq<i64>,
    rendered: Seq<i64>,
) -> Map<i64, u64>
    decreases shown.len(),
{
    if shown.len() == 0 {
        generations
    } else {
        let before = generations_after(generations, shown.drop_last(), active, pinned, rendered);
        let id = shown.last().id;
        if comes_in(active, pinned, rendered, id) {
            before.insert(id, generation(before, id).wrapping_add(1))
        } else {
            before
        }
    }
}

/// Where a row moves to.
pub open spec fn target_pose(checked: bool, pinned: bool) -> RowPose {
    RowPose {
        x: if checked {
            0
        } else {
            22
        },
        opacity: if checked || pinned {
            100
        } else {
            0
        },
        text_opacity: if checked {
            100
        } else {
            30
        },
        bar_height: if pinned {
            16
        } else {
            6
        },
    }
}

/// Where a row comes from that comes in anew.
pub open spec fn entry_pose() -> RowPose {
    RowPose { x: 22, opacity: 0, text_opacity: 30, bar_height: 6 }
}

/// The name of a tag's movement: the tag's id, with the generation from the
/// thirty-third bit on.
pub open spec fn transition_key(id: i64, generation: u64) -> u64 {
    (id as u64).wrapping_add(generation << 32)
}

/// The row of a tag.
pub open spec fn sidebar_row(
    tag: TagInfo,
    active: Seq<i64>,
    pinned: Seq<i64>,
    rendered: Seq<i64>,
    generations: Map<i64, u64>,
) -> SidebarRow {
    let checked = active.contains(tag.id);
    let is_pinned = pinned.contains(tag.id);
    let target = target_pose(checked, is_pinned);
    SidebarRow {
        tag,
        checked,
        pinned: is_pinned,
        interactable: checked || is_pinned,
        initial: if comes_in(active, pinned, rendered, tag.id) {
            entry_pose()
        } else {
            target
        },
        target,
        transition_key: transition_key(tag.id, generation(generations, tag.id)),
    }
}

/// How many of `count` tags do not fit.
pub open spec fn hidden(count: nat, max_visible: nat) -> nat {
    if count > max_visible {
        (count - max_visible) as nat
    } else {
        0
    }
}

/// How many of `count` tags get a row. Where some do not fit, the last row that
/// does is left for their number, unless there is room for no other.
pub open spec fn rows_shown(count: nat, max_visible: nat) -> nat {
    if hidden(count, max_visible) > 0 && max_visible > 1 {
        (max_visible - 1) as nat
    } else {
        count
    }
}

/// Holds of the ids that are none of these.
pub open spec fn none_of(ids: Seq<i64>) -> spec_fn(i64) -> bool {
    |id: i64| !ids.contains(id)
}

impl SidebarModel {
    /// The tags of the sidebar at a time, in order.
    pub open spec fn tags_at(self, app: AppModel, now: u64) -> Seq<TagInfo> {
        sidebar_tags(
            app.tags,
            app.filters.tag_ids,
            app.settings.pinned_tag_ids,
            self.fading_at(app, now),
        )
    }

    /// When each tag that is fading out at a time began to.
    pub open spec fn fading_at(self, app: AppModel, now: u64) -> Map<i64, u64> {
        fading_after(
            self.fading,
            self.rendered,
            shown_tag_ids(app.tags, app.filters.tag_ids, app.settings.pinned_tag_ids),
            now,
        )
    }

    /// The generations of the movements at a time.
    pub open spec fn generations_at(self, app: AppModel, now: u64) -> Map<i64, u64> {
        generations_after(
            self.generations,
            self.tags_at(app, now),
            app.filters.tag_ids,
            app.settings.pinned_tag_ids,
            self.rendered,
        )
    }

    /// The sidebar after it was laid out. Of a tag that does not fit, nothing is
    /// remembered.
    pub open spec fn laid_out(self, app: AppModel, now: u64, max_visible: nat) -> Self {
        let tags = self.tags_at(app, now);
        let fitting = rows_shown(tags.len(), max_visible) as int;
        let dropped = tag_ids(tags.skip(fitting));
        SidebarModel {
            rendered: tag_ids(tags).filter(none_of(dropped)),
            fading: self.fading_at(app, now).remove_keys(dropped.to_set()),
            generations: self.generations_at(app, now).remove_keys(dropped.to_set()),
            dark: self.dark,
        }
    }

    /// Whether every movement can be renewed `n` times more.
    pub open spec fn has_room(self, n: nat) -> bool {
        forall|id: i64|
            #![trigger self.generations.contains_key(id)]
            self.generations.contains_key(id) ==> self.generations[id] + n <= u64::MAX
    }
}

/// Collects the ids of the tags that are filtered for or pinned.
fn collect_shown_tag_ids(tags: &[TagInfo], active: &[i64], pinned: &[i64]) -> (r: Vec<i64>)
    ensures
        r@ == shown_tag_ids(tags@, active@, pinned@),
{
    let mut r: Vec<i64> = Vec::new();
    let mut i: usize = 0;
    let ghost keep = shown_tag(active@, pinned@);
    proof {
        lemma_filter_start(tags@, keep);
    }
    assert(r@ =~= tag_ids(tags@.take(0).filter(keep)));
    while i < tags.len()
        invariant
            0 <= i <= tags.len(),
            keep == shown_tag(active@, pinned@),
            r@ == tag_ids(tags@.take(i as int).filter(keep)),
        decreases tags.len() - i,
    {
        let ghost done = tags@.take(i as int);
        proof {
            lemma_filter_step(tags@, keep, i as int);
            assert(tag_ids(done.filter(keep).push(tags@[i as int])) =~= tag_ids(
                done.filter(keep),
            ).push(tags@[i as int].id));
        }
        if contains_id(active, tags[i].id) || contains_id(pinned, tags[i].id) {
            r.push(tags[i].id);
        }
        i += 1;
    }
    assert(tags@.take(i as int) =~= tags@);
    r
}

/// Keeps the tags that go on fading out.
fn keep_fading(fading: &HashMap<i64, u64>, shown: &[i64], now: u64) -> (r: HashMap<i64, u64>)
    ensures
        forall|id: i64| #[trigger]
            r@.contains_key(id) <==> fading@.contains_key(id) && !shown@.contains(id) && now
                - fading@[id] < FADE_OUT_NANOS,
        forall|id: i64| #[trigger] r@.contains_key(id) ==> r@[id] == fading@[id],
{
    let mut r: HashMap<i64, u64> = HashMap::new();
    for entry in entries: fading.iter()
        invariant
            entries.seq().len() == fading@.dom().len(),
            entries.seq() == fading.iter().remaining(),
            forall|id: i64| #[trigger]
                r@.contains_key(id) ==> fading@.contains_key(id) && !shown@.contains(id) && now
                    - fading@[id] < FADE_OUT_NANOS && r@[id] == fading@[id],
            forall|k: int|
                0 <= k < entries.index() && !shown@.contains(*entries.seq()[k].0) && now
                    - fading@[*entries.seq()[k].0] < FADE_OUT_NANOS ==> r@.contains_key(
                    *(#[trigger] entries.seq()[k]).0,
                ),
    {
        let id: i64 = *entry.0;
        let start: u64 = *entry.1;
        assert(fading@.contains_key(*entries.seq()[entries.index()].0));
        if !contains_id(shown, id) && (start >= now || now - start < FADE_OUT_NANOS) {
            r.insert(id, start);
        }
    }
    assert forall|id: i64|
        fading@.contains_key(id) && !shown@.contains(id) && now - fading@[id]
            < FADE_OUT_NANOS implies #[trigger] r@.contains_key(id) by {
        let all = fading.iter().remaining();
        assert(all.contains((&id, &fading@[id])));
    }
    r
}

/// Lets the tags begin to fade out that were shown last and are no longer.
fn begin_fading(
    fading: &mut HashMap<i64, u64>,
    before: &HashMap<i64, u64>,
    rendered: &[i64],
    shown: &[i64],
    now: u64,
)
    requires
        forall|id: i64| #[trigger]
            old(fading)@.contains_key(id) <==> before@.contains_key(id) && !shown@.contains(id)
                && now - before@[id] < FADE_OUT_NANOS,
        forall|id: i64| #[trigger]
            old(fading)@.contains_key(id) ==> old(fading)@[id] == before@[id],
    ensures
        final(fading)@ == fading_after(before@, rendered@, shown@, now),
{
    let mut i: usize = 0;
    while i < rendered.len()
        invariant
            0 <= i <= rendered.len(),
            forall|id: i64| #[trigger]
                fading@.contains_key(id) <==> fades(
                    before@,
                    rendered@.take(i as int),
                    shown@,
                    now,
                    id,
                ),
            forall|id: i64| #[trigger]
                fading@.contains_key(id) ==> Some(fading@[id]) == fade_start(
                    before@,
                    rendered@.take(i as int),
                    now,
                    id,
                ),
        decreases rendered.len() - i,
    {
        let id = rendered[i];
        let ghost done = rendered@.take(i as int);
        proof {
            assert(rendered@.take(i + 1) =~= done.push(id));
            assert forall|x: i64| done.push(id).contains(x) == (done.contains(x) || x == id) by {
                if done.contains(x) {
                    let k = done.index_of(x);
                    assert(done.push(id)[k] == x);
                }
                assert(done.push(id)[done.len() as int] == id);
            }
        }
        if !contains_id(shown, id) && !before.contains_key(&id) {
            fading.insert(id, now);
        }
        i += 1;
    }
    assert(rendered@.take(i as int) =~= rendered@);
    assert(fading@ =~= fading_after(before@, rendered@, shown@, now));
}

/// Puts the tags of the sidebar in order.
pub fn ordered_sidebar_tags(
    tags: &[TagInfo],
    active_tag_ids: &[i64],
    pinned_tag_ids: &[i64],
    unchecked_unpinned_since: &HashMap<i64, u64>,
) -> (r: Vec<TagInfo>)
    ensures
        r@ == sidebar_tags(tags@, active_tag_ids@, pinned_tag_ids@, unchecked_unpinned_since@),
{
    let mut ordered = collect_tags_with_ids(tags, pinned_tag_ids);
    append_among(&mut ordered, tags, active_tag_ids, pinned_tag_ids);
    let ghost first = ordered@;
    let ghost keep = fading_tag(unchecked_unpinned_since@, active_tag_ids@, pinned_tag_ids@);
    let mut i: usize = 0;
    proof {
        lemma_filter_start(tags@, keep);
    }
    assert(ordered@ =~= first + tags@.take(0).filter(keep));
    while i < tags.len()
        invariant
            0 <= i <= tags.len(),
            keep == fading_tag(
                unchecked_unpinned_since@,
                active_tag_ids@,
                pinned_tag_ids@,
            ),
            ordered@ == first + tags@.take(i as int).filter(keep),
        decreases tags.len() - i,
    {
        let ghost done = tags@.take(i as int);
        proof {
            lemma_filter_step(tags@, keep, i as int);
            assert(first + done.filter(keep).push(tags@[i as int]) =~= (first + done.filter(
                keep,
            )).push(tags@[i as int]));
        }
        if unchecked_unpinned_since.contains_key(&tags[i].id) && !contains_id(
            active_tag_ids,
            tags[i].id,
        ) && !contains_id(pinned_tag_ids, tags[i].id) {
            ordered.push(tags[i].duplicate());
        }
        i += 1;
    }
    assert(tags@.take(i as int) =~= tags@);
    ordered
}

/// Whether a tag comes in anew.
fn tag_comes_in(active: &[i64], pinned: &[i64], rendered: &[i64], id: i64) -> (r: bool)
    ensures
        r == comes_in(active@, pinned@, rendered@, id),
{
    contains_id(active, id) && !contains_id(pinned, id) && !contains_id(rendered, id)
}

/// Forgets what a map holds of these ids.
fn forget(map: &mut HashMap<i64, u64>, ids: &[i64])
    ensures
        final(map)@ == old(map)@.remove_keys(ids@.to_set()),
{
    let mut i: usize = 0;
    while i < ids.len()
        invariant
            0 <= i <= ids.len(),
            map@ =~= old(map)@.remove_keys(ids@.take(i as int).to_set()),
        decreases ids.len() - i,
    {
        map.remove(&ids[i]);
        proof {
            let done = ids@.take(i as int);
            assert(ids@.take(i + 1) =~= done.push(ids@[i as int]));
            lemma_push_to_set(done, ids@[i as int]);
        }
        i += 1;
    }
    assert(ids@.take(i as int) =~= ids@);
}

/// Collects the ids that are none of `unwanted`.
fn collect_none_of(ids: &[i64], unwanted: &[i64]) -> (r: Vec<i64>)
    ensures
        r@ == ids@.filter(none_of(unwanted@)),
{
    let mut r: Vec<i64> = Vec::new();
    let mut i: usize = 0;
    let ghost keep = none_of(unwanted@);
    proof {
        lemma_filter_start(ids@, keep);
    }
    while i < ids.len()
        invariant
            0 <= i <= ids.len(),
            keep == none_of(unwanted@),
            r@ == ids@.take(i as int).filter(keep),
        decreases ids.len() - i,
    {
        proof {
            lemma_filter_step(ids@, keep, i as int);
        }
        if !contains_id(unwanted, ids[i]) {
            r.push(ids[i]);
        }
        i += 1;
    }
    assert(ids@.take(i as int) =~= ids@);
    r
}

impl Sidebar {
    /// A sidebar that has shown nothing yet.
    pub fn new(theme: &ClippiTheme) -> (r: Self)
        ensures
            r@ == (SidebarModel {
                rendered: Seq::empty(),
                fading: Map::empty(),
                generations: Map::empty(),
                dark: theme.dark(),
            }),
    {
        Sidebar {
            rendered_tag_ids: Vec::new(),
            unchecked_unpinned_since: HashMap::new(),
            transition_generations: HashMap::new(),
            dark_mode: theme.is_dark(),
        }
    }

    /// Paints the sidebar in another theme from now on.
    pub fn set_theme(&mut self, theme: &ClippiTheme)
        ensures
            final(self)@ == (SidebarModel { dark: theme.dark(), ..old(self)@ }),
    {
        self.dark_mode = theme.is_dark();
    }

    /// Renews the movements of the tags that come in anew.
    fn renew_generations(&mut self, shown: &[TagInfo], active: &[i64], pinned: &[i64])
        ensures
            final(self)@ == (SidebarModel {
                generations: generations_after(
                    old(self)@.generations,
                    shown@,
                    active@,
                    pinned@,
                    old(self)@.rendered,
                ),
                ..old(self)@
            }),
    {
        let mut i: usize = 0;
        assert(shown@.take(0) =~= Seq::<TagInfo>::empty());
        while i < shown.len()
            invariant
                0 <= i <= shown.len(),
                self@ == (SidebarModel {
                    generations: generations_after(
                        old(self)@.generations,
                        shown@.take(i as int),
                        active@,
                        pinned@,
                        old(self)@.rendered,
                    ),
                    ..old(self)@
                }),
            decreases shown.len() - i,
        {
            let id = shown[i].id;
            assert(shown@.take(i + 1).drop_last() =~= shown@.take(i as int));
            if tag_comes_in(active, pinned, self.rendered_tag_ids.as_slice(), id) {
                let last: u64 = match self.transition_generations.get(&id) {
                    Some(n) => *n,
                    None => 0,
                };
                self.transition_generations.insert(id, last.wrapping_add(1));
            }
            i += 1;
        }
        assert(shown@.take(i as int) =~= shown@);
    }

    /// The row of a tag.
    fn row(&self, tag: &TagInfo, active: &[i64], pinned: &[i64], rendered: &[i64]) -> (r: SidebarRow)
        ensures
            r == sidebar_row(*tag, active@, pinned@, rendered@, self@.generations),
    {
        let checked = contains_id(active, tag.id);
        let is_pinned = contains_id(pinned, tag.id);
        let target = RowPose {
            x: if checked {
                0
            } else {
                22
            },
            opacity: if checked || is_pinned {
                100
            } else {
                0
            },
            text_opacity: if checked {
                100
            } else {
                30
            },
            bar_height: if is_pinned {
                16
            } else {
                6
            },
        };
        let initial = if tag_comes_in(active, pinned, rendered, tag.id) {
            RowPose { x: 22, opacity: 0, text_opacity: 30, bar_height: 6 }
        } else {
            target
        };
        let generation: u64 = match self.transition_generations.get(&tag.id) {
            Some(n) => *n,
            None => 0,
        };
        SidebarRow {
            tag: tag.duplicate(),
            checked,
            pinned: is_pinned,
            interactable: checked || is_pinned,
            initial,
            target,
            transition_key: (tag.id as u64).wrapping_add(generation << 32),
        }
    }

    /// Lays the sidebar out at a time, where `max_visible` rows fit.
    pub fn layout(&mut self, app: &AppState, now: u64, max_visible: usize) -> (r: SidebarLayout)
        ensures
            final(self)@ == old(self)@.laid_out(app@, now, max_visible as nat),
            ({
                let tags = old(self)@.tags_at(app@, now);
                let generations = old(self)@.generations_at(app@, now);
                &&& r.hidden_count == hidden(tags.len(), max_visible as nat)
                &&& r.rows@.len() == rows_shown(tags.len(), max_visible as nat)
                &&& forall|i: int|
                    0 <= i < r.rows@.len() ==> #[trigger] r.rows@[i] == sidebar_row(
                        tags[i],
                        app@.filters.tag_ids,
                        app@.settings.pinned_tag_ids,
                        old(self)@.rendered,
                        generations,
                    )
            }),
    {
        let tags = app.tags.as_slice();
        let active = app.filters.tag_ids.as_slice();
        let pinned = app.settings.pinned_tag_ids.as_slice();
        let shown_ids = collect_shown_tag_ids(tags, active, pinned);
        let mut fading = keep_fading(
            &self.unchecked_unpinned_since,
            shown_ids.as_slice(),
            now,
        );
        begin_fading(
            &mut fading,
            &self.unchecked_unpinned_since,
            self.rendered_tag_ids.as_slice(),
            shown_ids.as_slice(),
            now,
        );
        self.unchecked_unpinned_since = fading;
        let display = ordered_sidebar_tags(
            tags,
            active,
            pinned,
            &self.unchecked_unpinned_since,
        );
        assert(display@ == old(self)@.tags_at(app@, now));
        assert(self@.generations == old(self)@.generations);
        self.renew_generations(display.as_slice(), active, pinned);
        let count = display.len();
        let hidden_count = if count > max_visible {
            count - max_visible
        } else {
            0
        };
        let fitting = if hidden_count > 0 && max_visible > 1 {
            max_visible - 1
        } else {
            count
        };
        let mut rows: Vec<SidebarRow> = Vec::new();
        let mut i: usize = 0;
        while i < fitting
            invariant
                0 <= i <= fitting <= count,
                count == display@.len(),
                rows@.len() == i,
                forall|j: int|
                    0 <= j < i ==> #[trigger] rows@[j] == sidebar_row(
                        display@[j],
                        active@,
                        pinned@,
                        self@.rendered,
                        self@.generations,
                    ),
            decreases fitting - i,
        {
            rows.push(self.row(&display[i], active, pinned, self.rendered_tag_ids.as_slice()));
            i += 1;
        }
        let dropped = collect_tag_ids(
            vstd::slice::slice_subrange(display.as_slice(), fitting, count),
        );
        assert(display@.subrange(fitting as int, count as int) =~= display@.skip(fitting as int));
        let shown_now = collect_tag_ids(display.as_slice());
        self.rendered_tag_ids = collect_none_of(shown_now.as_slice(), dropped.as_slice());
        forget(&mut self.unchecked_unpinned_since, dropped.as_slice());
        forget(&mut self.transition_generations, dropped.as_slice());
        SidebarLayout { rows, hidden_count }
    }

    /// Handles a click on a row that can be clicked: filters for the tag, or no
    /// longer, and shows what is left.
    pub fn click_row(tag_id: i64, app: &mut AppState)
        ensures
            final(app)@ == old(app)@.tag_filter_used(tag_id),
    {
        app.request(Op::ToggleTagFilter { tag_id });
        app.request(Op::ResetList);
    }

    /// Handles a right click on a row that can be clicked: pins the tag, or no
    /// longer.
    pub fn right_click_row(tag_id: i64, app: &mut AppState)
        ensures
            final(app)@ == old(app)@.asking(Op::TogglePinnedTag { tag_id }),
    {
        app.request(Op::TogglePinnedTag { tag_id });
    }

    /// The colours of the sidebar.
    pub fn palette(&self) -> (r: SidebarPalette)
        ensures
            r == sidebar_colors(self@.dark),
    {
        let dark = self.dark_mode;
        SidebarPalette {
            text: pick_shade(dark, 0xeaebecff, 0x1a1c2eff),
            row_bg: pick_shade(dark, 0x2a2b2eff, 0xf5f6faff),
            row_bg_hover: pick_shade(dark, 0x353638ff, 0xeceef4ff),
            pill_bg: pick_shade(dark, 0x232425e8, 0xffffffe8),
            pill_border: pick_shade(dark, 0xffffff20, 0x00000014),
            pill_text: pick_shade(dark, 0x919496ff, 0x7c809aff),
        }
    }
}

} // verus!
