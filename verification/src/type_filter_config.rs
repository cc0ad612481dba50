//! The panel that configures the filter strip: which buttons it has, and in
//! what order.

use vstd::prelude::*;

use crate::app_state::{AppModel, AppState, FiltersModel, Op, SettingsModel, TypeFilterEntry};
use crate::filter_bar::{filter_type, filter_type_display, FilterBar, FilterType, I18nKey};
use crate::filters::lemma_filter_all;
use crate::tags::{
    append_outside, collect_tags_with_ids, known, lemma_tag_is_known, outside, tag_of,
    tags_with_ids,
};
use crate::text::{drop_name, holds_name, other_than, str_eq};
use crate::theme::{pick_shade, shade, ClippiTheme};
use crate::types::TagInfo;

verus! {

/// Two elements exchanged.
pub open spec fn swapped<T>(s: Seq<T>, i: int, j: int) -> Seq<T> {
    s.update(i, s[j]).update(j, s[i])
}

/// Whether entry `i` is the first with this key.
pub open spec fn is_entry_place(config: Seq<TypeFilterEntry>, key: Seq<char>, i: int) -> bool {
    &&& 0 <= i < config.len()
    &&& config[i].key@ == key
    &&& forall|j: int| 0 <= j < i ==> (#[trigger] config[j]).key@ != key
}

impl AppModel {
    /// The same state with another configuration of the strip, stored, and the
    /// items loaded anew.
    pub open spec fn reconfigured(self, config: Seq<TypeFilterEntry>) -> Self {
        AppModel {
            settings: SettingsModel { type_filter_config: config, ..self.settings },
            ..self
        }.asking(Op::SaveSettings).asking(Op::ReloadItems)
    }

    /// The same state with no filter for a type.
    pub open spec fn unfiltered(self, key: Seq<char>) -> Self {
        AppModel {
            filters: FiltersModel {
                active_types: self.filters.active_types.filter(other_than(key)),
                ..self.filters
            },
            ..self
        }
    }

    /// The same state with the entry at `i` shown or hidden. The filter of a
    /// type that is hidden is dropped.
    pub open spec fn toggling_entry(self, i: int) -> Self {
        let config = self.settings.type_filter_config;
        let entry = config[i];
        let toggled = config.update(i, TypeFilterEntry { visible: !entry.visible, ..entry });
        if entry.visible {
            self.unfiltered(entry.key@).reconfigured(toggled)
        } else {
            self.reconfigured(toggled)
        }
    }

    /// The same state with the entry at `i` one place further to the front.
    pub open spec fn moving_up(self, i: int) -> Self {
        if i == 0 {
            self
        } else {
            self.reconfigured(swapped(self.settings.type_filter_config, i, i - 1))
        }
    }

    /// The same state with the entry at `i` one place further to the back.
    pub open spec fn moving_down(self, i: int) -> Self {
        if i + 1 >= self.settings.type_filter_config.len() {
            self
        } else {
            self.reconfigured(swapped(self.settings.type_filter_config, i, i + 1))
        }
    }
}

/// A row of the panel for a type of content.
#[derive(Debug, Clone, PartialEq, Eq)]
pub struct TypeRow {
    pub key: String,
    /// The glyph of the type; that of plain text where the type is unknown.
    pub icon: char,
    /// The label of the type; where the type is unknown, the key is shown.
    pub label: Option<I18nKey>,
    pub visible: bool,
    pub is_first: bool,
    pub is_last: bool,
}

/// A row of the panel for a tag.
#[derive(Debug, Clone, PartialEq, Eq)]
pub struct TagRow {
    pub tag: TagInfo,
    /// Whether the tag is on the strip.
    pub pinned: bool,
    pub up_disabled: bool,
    pub down_disabled: bool,
}

/// The tags in the order of the panel: those on the strip, in its order, then
/// the others.
pub open spec fn panel_tags(tags: Seq<TagInfo>, pinned_ids: Seq<i64>) -> Seq<TagInfo> {
    tags_with_ids(tags, pinned_ids) + tags.filter(outside(pinned_ids))
}

/// The row of the `i`th tag of the panel, where the first `pinned_count` are on
/// the strip.
pub open spec fn tag_row(tag: TagInfo, i: int, pinned_count: nat) -> TagRow {
    TagRow {
        tag,
        pinned: i < pinned_count,
        up_disabled: i >= pinned_count || i == 0,
        down_disabled: i + 1 >= pinned_count,
    }
}

/// The row of the `i`th entry of the settings.
pub open spec fn type_row(config: Seq<TypeFilterEntry>, i: int) -> TypeRow {
    let kind = filter_type(config[i].key@);
    TypeRow {
        key: config[i].key,
        icon: match kind {
            Some(kind) => kind.glyph(),
            None => FilterType::PlainText.glyph(),
        },
        label: match kind {
            Some(kind) => Some(kind.label()),
            None => None,
        },
        visible: config[i].visible,
        is_first: i == 0,
        is_last: i + 1 >= config.len(),
    }
}

/// The colours of the panel.
#[derive(Clone, Copy, Debug, PartialEq, Eq, Structural)]
pub struct ConfigPalette {
    pub border: u32,
    pub arrow_bg: u32,
    pub arrow_hover: u32,
}

/// The colours of the panel, in a dark theme or in a light one.
pub open spec fn config_colors(dark: bool) -> ConfigPalette {
    ConfigPalette {
        border: shade(dark, 0xffffff14, 0x00000012),
        arrow_bg: shade(dark, 0xffffff0a, 0x00000008),
        arrow_hover: shade(dark, 0xffffff18, 0x00000014),
    }
}

/// The panel that configures the filter strip.
#[derive(Clone, Copy, Debug, PartialEq, Eq, Structural)]
pub struct TypeFilterConfigPanel {}

impl TypeFilterConfigPanel {
    /// The panel.
    pub fn new() -> (r: Self)
        ensures
            r == (TypeFilterConfigPanel {  }),
    {
        TypeFilterConfigPanel {  }
    }

    /// Closes the panel.
    pub fn close(&self, filter_bar: &mut FilterBar)
        ensures
            *final(filter_bar) == (FilterBar { filter_config_open: false, ..*old(filter_bar) }),
    {
        filter_bar.close_filter_config();
    }

    /// Shows the button of a type, or hides it. A type that is hidden is no
    /// longer filtered for.
    pub fn toggle_visible(&self, key: &str, app: &mut AppState)
        ensures
            forall|i: int|
                is_entry_place(old(app)@.settings.type_filter_config, key@, i) ==> final(app)@
                    == #[trigger] old(app)@.toggling_entry(i),
            (forall|i: int| !is_entry_place(old(app)@.settings.type_filter_config, key@, i))
                ==> final(app)@ == old(app)@,
    {
        let n = app.settings.type_filter_config.len();
        let mut i: usize = 0;
        while i < n
            invariant
                0 <= i <= n,
                n == app.settings.type_filter_config@.len(),
                app@ == old(app)@,
                forall|j: int|
                    0 <= j < i ==> (#[trigger] app.settings.type_filter_config@[j]).key@ != key@,
            decreases n - i,
        {
            if str_eq(app.settings.type_filter_config[i].key.as_str(), key) {
                self.toggle_entry(i, key, app);
                let ghost config = old(app)@.settings.type_filter_config;
                assert(is_entry_place(config, key@, i as int));
                assert forall|k: int|
                    is_entry_place(
                        old(app)@.settings.type_filter_config,
                        key@,
                        k,
                    ) implies final(app)@ == #[trigger] old(app)@.toggling_entry(k) by {
                    assert(k == i) by {
                        if k < i {
                            assert(config[k].key@ != key@);
                        }
                        if i < k {
                            assert(config[i as int].key@ != key@);
                        }
                    }
                }
                return;
            }
            i += 1;
        }
    }

    /// Shows the button at a place, or hides it.
    fn toggle_entry(&self, i: usize, key: &str, app: &mut AppState)
        requires
            i < old(app)@.settings.type_filter_config.len(),
            old(app)@.settings.type_filter_config[i as int].key@ == key@,
        ensures
            final(app)@ == old(app)@.toggling_entry(i as int),
    {
        let was_visible = app.settings.type_filter_config[i].visible;
        let entry = TypeFilterEntry {
            key: app.settings.type_filter_config[i].key.clone(),
            visible: !was_visible,
        };
        app.settings.type_filter_config[i] = entry;
        if was_visible {
            if app.filters.is_type_active(key) {
                drop_name(&mut app.filters.active_types, key);
            } else {
                proof {
                    lemma_filter_all(old(app)@.filters.active_types, other_than(key@));
                }
            }
        }
        app.request(Op::SaveSettings);
        app.request(Op::ReloadItems);
    }

    /// Exchanges the button at a place with the one after it.
    fn exchange_with_next(i: usize, app: &mut AppState)
        requires
            i + 1 < old(app)@.settings.type_filter_config.len(),
        ensures
            final(app)@ == old(app)@.reconfigured(
                swapped(old(app)@.settings.type_filter_config, i as int, i + 1),
            ),
    {
        let ghost config = app@.settings.type_filter_config;
        assert(i + 1 < app.settings.type_filter_config.len());
        let entry = app.settings.type_filter_config.remove(i);
        app.settings.type_filter_config.insert(i + 1, entry);
        assert(app@.settings.type_filter_config =~= swapped(config, i as int, i + 1));
        app.request(Op::SaveSettings);
        app.request(Op::ReloadItems);
    }

    /// Moves a button one place to the front; the first one stays.
    pub fn move_up(&self, index: usize, app: &mut AppState)
        requires
            index == 0 || index < old(app)@.settings.type_filter_config.len(),
        ensures
            final(app)@ == old(app)@.moving_up(index as int),
    {
        if index == 0 {
            return;
        }
        proof {
            let config = app@.settings.type_filter_config;
            assert(swapped(config, index as int, index - 1) =~= swapped(
                config,
                index - 1,
                index as int,
            ));
        }
        Self::exchange_with_next(index - 1, app);
    }

    /// Moves a button one place to the back; the last one stays.
    pub fn move_down(&self, index: usize, app: &mut AppState)
        ensures
            final(app)@ == old(app)@.moving_down(index as int),
    {
        let len = app.settings.type_filter_config.len();
        if index >= len || index + 1 >= len {
            return;
        }
        Self::exchange_with_next(index, app);
    }

    /// Puts a tag on the strip, or takes it off.
    pub fn toggle_pinned(&self, tag_id: i64, app: &mut AppState)
        ensures
            final(app)@ == old(app)@.asking(Op::TogglePinnedTag { tag_id }),
    {
        app.request(Op::TogglePinnedTag { tag_id });
    }

    /// Moves a tag along the strip.
    pub fn move_pinned(&self, tag_id: i64, delta: isize, app: &mut AppState)
        ensures
            final(app)@ == old(app)@.asking(Op::MovePinnedTag { tag_id, delta }),
    {
        app.request(Op::MovePinnedTag { tag_id, delta });
    }

    /// The rows of the panel for the types of content.
    pub fn type_rows(&self, app: &AppState) -> (r: Vec<TypeRow>)
        ensures
            r@.len() == app@.settings.type_filter_config.len(),
            forall|i: int|
                0 <= i < r@.len() ==> #[trigger] r@[i] == type_row(
                    app@.settings.type_filter_config,
                    i,
                ),
    {
        let config = app.settings.type_filter_config.as_slice();
        let n = config.len();
        let mut r: Vec<TypeRow> = Vec::new();
        let mut i: usize = 0;
        while i < n
            invariant
                0 <= i <= n,
                n == config@.len(),
                r@.len() == i,
                forall|j: int| 0 <= j < i ==> #[trigger] r@[j] == type_row(config@, j),
            decreases n - i,
        {
            let (icon, label) = match filter_type_display(config[i].key.as_str()) {
                Some((icon, label)) => (icon, Some(label)),
                None => (FilterType::PlainText.def().icon, None),
            };
            r.push(
                TypeRow {
                    key: config[i].key.clone(),
                    icon,
                    label,
                    visible: config[i].visible,
                    is_first: i == 0,
                    is_last: i + 1 >= n,
                },
            );
            i += 1;
        }
        r
    }

    /// The rows of the panel for the tags.
    pub fn tag_rows(&self, app: &AppState) -> (r: Vec<TagRow>)
        ensures
            ({
                let tags = panel_tags(app@.tags, app@.settings.pinned_tag_ids);
                let pinned_count = tags_with_ids(
                    app@.tags,
                    app@.settings.pinned_tag_ids,
                ).len();
                &&& r@.len() == tags.len()
                &&& forall|i: int|
                    0 <= i < r@.len() ==> #[trigger] r@[i] == tag_row(tags[i], i, pinned_count)
            }),
    {
        let mut tags = collect_tags_with_ids(
            app.tags.as_slice(),
            app.settings.pinned_tag_ids.as_slice(),
        );
        let pinned_count = tags.len();
        append_outside(&mut tags, app.tags.as_slice(), app.settings.pinned_tag_ids.as_slice());
        let n = tags.len();
        let mut r: Vec<TagRow> = Vec::new();
        let mut i: usize = 0;
        while i < n
            invariant
                0 <= i <= n,
                n == tags@.len(),
                r@.len() == i,
                forall|j: int|
                    0 <= j < i ==> #[trigger] r@[j] == tag_row(tags@[j], j, pinned_count as nat),
            decreases n - i,
        {
            r.push(
                TagRow {
                    tag: tags[i].duplicate(),
                    pinned: i < pinned_count,
                    up_disabled: i >= pinned_count || i == 0,
                    down_disabled: i + 1 >= pinned_count,
                },
            );
            i += 1;
        }
        r
    }

    /// The colours of the panel.
    pub fn palette(&self, theme: &ClippiTheme) -> (r: ConfigPalette)
        ensures
            r == config_colors(theme.dark()),
    {
        let dark = theme.is_dark();
        ConfigPalette {
            border: pick_shade(dark, 0xffffff14, 0x00000012),
            arrow_bg: pick_shade(dark, 0xffffff0a, 0x00000008),
            arrow_hover: pick_shade(dark, 0xffffff18, 0x00000014),
        }
    }
}

/// Moving a button up and down again, or down and up, leaves the strip as it
/// was.
pub proof fn law_moves_undo_each_other<T>(config: Seq<T>, i: int)
    requires
        0 <= i,
        i + 1 < config.len(),
    ensures
        swapped(swapped(config, i, i + 1), i + 1, i) == config,
        swapped(swapped(config, i + 1, i), i, i + 1) == config,
{
    assert(swapped(swapped(config, i, i + 1), i + 1, i) =~= config);
    assert(swapped(swapped(config, i + 1, i), i, i + 1) =~= config);
}

/// Moving a button keeps every button of the strip.
pub proof fn law_moves_keep_every_button<T>(config: Seq<T>, i: int, x: T)
    requires
        0 <= i,
        i + 1 < config.len(),
    ensures
        swapped(config, i, i + 1).contains(x) == config.contains(x),
        swapped(config, i, i + 1).len() == config.len(),
{
    let after = swapped(config, i, i + 1);
    if config.contains(x) {
        let k = choose|k: int| 0 <= k < config.len() && config[k] == x;
        let j = if k == i {
            i + 1
        } else if k == i + 1 {
            i
        } else {
            k
        };
        assert(after[j] == x);
    }
    if after.contains(x) {
        let k = choose|k: int| 0 <= k < after.len() && after[k] == x;
        let j = if k == i {
            i + 1
        } else if k == i + 1 {
            i
        } else {
            k
        };
        assert(config[j] == x);
    }
}

/// Hiding a button and showing it again leaves the strip as it was, and nothing
/// that is hidden is filtered for.
pub proof fn law_hidden_types_are_not_filtered_for(app: AppModel, i: int)
    requires
        0 <= i < app.settings.type_filter_config.len(),
    ensures
        app.toggling_entry(i).toggling_entry(i).settings == app.settings,
        app.settings.type_filter_config[i].visible ==> !holds_name(
            app.toggling_entry(i).filters.active_types,
            app.settings.type_filter_config[i].key@,
        ),
        !app.settings.type_filter_config[i].visible ==> app.toggling_entry(i).filters
            == app.filters,
{
    let key = app.settings.type_filter_config[i].key@;
    let kept = app.filters.active_types.filter(other_than(key));
    assert forall|k: int| 0 <= k < kept.len() implies (#[trigger] kept[k])@ != key by {
        app.filters.active_types.lemma_filter_pred(other_than(key), k);
    }
    let config = app.settings.type_filter_config;
    assert(app.toggling_entry(i).toggling_entry(i).settings.type_filter_config =~= config);
}

/// Every tag has a row in the panel, once for each of its ids on the strip, and
/// the rows on the strip come first.
pub proof fn law_every_tag_has_a_row(tags: Seq<TagInfo>, pinned_ids: Seq<i64>, k: int)
    requires
        0 <= k < tags.len(),
    ensures
        exists|i: int|
            0 <= i < panel_tags(tags, pinned_ids).len() && (#[trigger] panel_tags(
                tags,
                pinned_ids,
            )[i]).id == tags[k].id,
{
    let id = tags[k].id;
    let pinned = tags_with_ids(tags, pinned_ids);
    let others = tags.filter(outside(pinned_ids));
    let all = panel_tags(tags, pinned_ids);
    if pinned_ids.contains(id) {
        lemma_tag_is_known(tags, k);
        pinned_ids.lemma_filter_contains(known(tags), pinned_ids.index_of(id));
        let kept = pinned_ids.filter(known(tags));
        let j = choose|j: int| 0 <= j < kept.len() && kept[j] == id;
        assert(all[j] == pinned[j]);
        assert(pinned[j] == tag_of(tags)(id));
    } else {
        tags.lemma_filter_contains(outside(pinned_ids), k);
        let j = choose|j: int| 0 <= j < others.len() && others[j] == tags[k];
        assert(all[pinned.len() + j] == others[j]);
    }
}

} // verus!
