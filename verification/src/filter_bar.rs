//! The filter strip above the list: a button for each type of content, and one
//! for the tags.

use vstd::prelude::*;

use crate::app_state::{AppModel, AppState, Op, TypeFilterEntry};
use crate::filters::{lemma_filter_start, lemma_filter_step};
use crate::text::{holds_name, str_eq};
use crate::theme::{pick_shade, shade, ClippiTheme};

verus! {

/// A text of the user interface, which the program shows in the user's language.
#[derive(Clone, Copy, Debug, PartialEq, Eq, Structural)]
pub enum I18nKey {
    FilterTextLabel,
    FilterRtfLabel,
    FilterImageLabel,
    FilterFilesLabel,
    FilterLinksLabel,
    FilterPathLabel,
    FilterColorLabel,
    FilterContactLabel,
}

/// A type of content that the list can be filtered for.
#[derive(Clone, Copy, Debug, PartialEq, Eq, Structural)]
pub enum FilterType {
    PlainText,
    RichText,
    Image,
    File,
    Link,
    Path,
    Color,
    Contact,
}

/// How a type of content is named and shown on the strip.
#[derive(Clone, Copy, Debug)]
pub struct FilterDef {
    pub key: &'static str,
    pub icon: char,
    pub label_key: I18nKey,
}

impl FilterType {
    /// The key of this type in the settings.
    pub open spec fn key_text(self) -> Seq<char> {
        match self {
            FilterType::PlainText => "plain_text"@,
            FilterType::RichText => "rich_text"@,
            FilterType::Image => "image"@,
            FilterType::File => "file"@,
            FilterType::Link => "link"@,
            FilterType::Path => "path"@,
            FilterType::Color => "color"@,
            FilterType::Contact => "contact"@,
        }
    }

    /// The glyph of this type in the icon font.
    pub open spec fn glyph(self) -> char {
        match self {
            FilterType::PlainText => '\u{e606}',
            FilterType::RichText => '\u{e853}',
            FilterType::Image => '\u{e626}',
            FilterType::File => '\u{e68a}',
            FilterType::Link => '\u{e6d7}',
            FilterType::Path => '\u{e60f}',
            FilterType::Color => '\u{e608}',
            FilterType::Contact => '\u{e616}',
        }
    }

    /// The label of this type.
    pub open spec fn label(self) -> I18nKey {
        match self {
            FilterType::PlainText => I18nKey::FilterTextLabel,
            FilterType::RichText => I18nKey::FilterRtfLabel,
            FilterType::Image => I18nKey::FilterImageLabel,
            FilterType::File => I18nKey::FilterFilesLabel,
            FilterType::Link => I18nKey::FilterLinksLabel,
            FilterType::Path => I18nKey::FilterPathLabel,
            FilterType::Color => I18nKey::FilterColorLabel,
            FilterType::Contact => I18nKey::FilterContactLabel,
        }
    }

    /// How this type is named and shown.
    pub fn def(self) -> (r: FilterDef)
        ensures
            r.key@ == self.key_text(),
            r.icon == self.glyph(),
            r.label_key == self.label(),
    {
        match self {
            FilterType::PlainText => FilterDef {
                key: "plain_text",
                icon: '\u{e606}',
                label_key: I18nKey::FilterTextLabel,
            },
            FilterType::RichText => FilterDef {
                key: "rich_text",
                icon: '\u{e853}',
                label_key: I18nKey::FilterRtfLabel,
            },
            FilterType::Image => FilterDef {
                key: "image",
                icon: '\u{e626}',
                label_key: I18nKey::FilterImageLabel,
            },
            FilterType::File => FilterDef {
                key: "file",
                icon: '\u{e68a}',
                label_key: I18nKey::FilterFilesLabel,
            },
            FilterType::Link => FilterDef {
                key: "link",
                icon: '\u{e6d7}',
                label_key: I18nKey::FilterLinksLabel,
            },
            FilterType::Path => FilterDef {
                key: "path",
                icon: '\u{e60f}',
                label_key: I18nKey::FilterPathLabel,
            },
            FilterType::Color => FilterDef {
                key: "color",
                icon: '\u{e608}',
                label_key: I18nKey::FilterColorLabel,
            },
            FilterType::Contact => FilterDef {
                key: "contact",
                icon: '\u{e616}',
                label_key: I18nKey::FilterContactLabel,
            },
        }
    }

    /// The type with a key.
    pub fn from_key(key: &str) -> (r: Option<FilterType>)
        ensures
            r == filter_type(key@),
    {
        if str_eq(key, "plain_text") {
            Some(FilterType::PlainText)
        } else if str_eq(key, "rich_text") {
            Some(FilterType::RichText)
        } else if str_eq(key, "image") {
            Some(FilterType::Image)
        } else if str_eq(key, "file") {
            Some(FilterType::File)
        } else if str_eq(key, "link") {
            Some(FilterType::Link)
        } else if str_eq(key, "path") {
            Some(FilterType::Path)
        } else if str_eq(key, "color") {
            Some(FilterType::Color)
        } else if str_eq(key, "contact") {
            Some(FilterType::Contact)
        } else {
            None
        }
    }
}

/// The type with a key: of the types in their order, the first with that key.
pub open spec fn filter_type(key: Seq<char>) -> Option<FilterType> {
    if key == FilterType::PlainText.key_text() {
        Some(FilterType::PlainText)
    } else if key == FilterType::RichText.key_text() {
        Some(FilterType::RichText)
    } else if key == FilterType::Image.key_text() {
        Some(FilterType::Image)
    } else if key == FilterType::File.key_text() {
        Some(FilterType::File)
    } else if key == FilterType::Link.key_text() {
        Some(FilterType::Link)
    } else if key == FilterType::Path.key_text() {
        Some(FilterType::Path)
    } else if key == FilterType::Color.key_text() {
        Some(FilterType::Color)
    } else if key == FilterType::Contact.key_text() {
        Some(FilterType::Contact)
    } else {
        None
    }
}

/// The glyph and the label of the type with a key.
pub fn filter_type_display(key: &str) -> (r: Option<(char, I18nKey)>)
    ensures
        r == (match filter_type(key@) {
            Some(kind) => Some((kind.glyph(), kind.label())),
            None => None,
        }),
{
    match FilterType::from_key(key) {
        Some(kind) => {
            let def = kind.def();
            Some((def.icon, def.label_key))
        },
        None => None,
    }
}

/// Each type has a key of its own: the type with a type's key is that type.
pub proof fn law_every_type_is_found_by_its_key(kind: FilterType)
    ensures
        filter_type(kind.key_text()) == Some(kind),
{
    reveal_strlit("plain_text");
    reveal_strlit("rich_text");
    reveal_strlit("image");
    reveal_strlit("file");
    reveal_strlit("link");
    reveal_strlit("path");
    reveal_strlit("color");
    reveal_strlit("contact");
    assert("plain_text"@.len() == 10);
    assert("rich_text"@.len() == 9);
    assert("image"@.len() == 5 && "image"@[0] == 'i');
    assert("color"@.len() == 5 && "color"@[0] == 'c');
    assert("file"@.len() == 4 && "file"@[0] == 'f');
    assert("link"@.len() == 4 && "link"@[0] == 'l');
    assert("path"@.len() == 4 && "path"@[0] == 'p');
    assert("contact"@.len() == 7);
}

/// A button of the strip.
#[derive(Clone, Copy, Debug, PartialEq, Eq, Structural)]
pub struct FilterButton {
    /// The button's place among the visible entries of the settings.
    pub index: usize,
    pub kind: FilterType,
    /// Whether the list is filtered for this type.
    pub active: bool,
}

/// Holds of the entries that are shown.
pub open spec fn shown() -> spec_fn(TypeFilterEntry) -> bool {
    |entry: TypeFilterEntry| entry.visible
}

/// The buttons of these entries; an entry with an unknown key has none.
pub open spec fn filter_buttons(
    entries: Seq<TypeFilterEntry>,
    active_types: Seq<String>,
) -> Seq<FilterButton>
    decreases entries.len(),
{
    if entries.len() == 0 {
        Seq::empty()
    } else {
        let before = filter_buttons(entries.drop_last(), active_types);
        match filter_type(entries.last().key@) {
            Some(kind) => before.push(
                FilterButton {
                    index: (entries.len() - 1) as usize,
                    kind,
                    active: holds_name(active_types, kind.key_text()),
                },
            ),
            None => before,
        }
    }
}

impl AppModel {
    /// The same state with a type filtered for, or no longer, and what is left
    /// shown.
    pub open spec fn type_filter_used(self, kind: FilterType) -> Self {
        self.asking(Op::ToggleTypeFilter { kind }).asking(Op::ResetList)
    }
}

/// The colours of the strip.
#[derive(Clone, Copy, Debug, PartialEq, Eq, Structural)]
pub struct FilterPalette {
    pub active_bg: u32,
    pub active_text: u32,
    pub inactive_bg: u32,
    pub inactive_text: u32,
    pub divider: u32,
}

/// The filter strip.
#[derive(Clone, Copy, Debug, PartialEq, Eq, Structural)]
pub struct FilterBar {
    pub tag_panel_open: bool,
    pub filter_config_open: bool,
    pub theme: ClippiTheme,
}

impl FilterBar {
    /// The strip with the tag panel opened, or closed.
    pub open spec fn tag_panel_toggled(self) -> Self {
        FilterBar { tag_panel_open: !self.tag_panel_open, ..self }
    }

    /// The strip with the panel that configures it opened, or closed.
    pub open spec fn filter_config_toggled(self) -> Self {
        FilterBar { filter_config_open: !self.filter_config_open, ..self }
    }

    /// The colours of the strip.
    pub open spec fn colors(self) -> FilterPalette {
        FilterPalette {
            active_bg: self.theme.accent_overlay,
            active_text: self.theme.accent,
            inactive_bg: shade(self.theme.dark(), 0xffffff0a, 0x00000008),
            inactive_text: self.theme.text_2,
            divider: shade(self.theme.dark(), 0xffffff18, 0x00000014),
        }
    }

    /// A strip with its panels closed.
    pub fn new(theme: ClippiTheme) -> (r: Self)
        ensures
            r == (FilterBar { tag_panel_open: false, filter_config_open: false, theme }),
    {
        FilterBar { tag_panel_open: false, filter_config_open: false, theme }
    }

    /// Whether the tag panel is open.
    pub fn tag_panel_open(&self) -> (r: bool)
        ensures
            r == self.tag_panel_open,
    {
        self.tag_panel_open
    }

    /// Closes the tag panel.
    pub fn close_tag_panel(&mut self)
        ensures
            *final(self) == (FilterBar { tag_panel_open: false, ..*old(self) }),
    {
        self.tag_panel_open = false;
    }

    /// Opens the tag panel, or closes it.
    pub fn toggle_tag_panel(&mut self)
        ensures
            *final(self) == old(self).tag_panel_toggled(),
    {
        self.tag_panel_open = !self.tag_panel_open;
    }

    /// Whether the panel that configures the strip is open.
    pub fn filter_config_open(&self) -> (r: bool)
        ensures
            r == self.filter_config_open,
    {
        self.filter_config_open
    }

    /// Closes the panel that configures the strip.
    pub fn close_filter_config(&mut self)
        ensures
            *final(self) == (FilterBar { filter_config_open: false, ..*old(self) }),
    {
        self.filter_config_open = false;
    }

    /// Opens the panel that configures the strip, or closes it.
    pub fn toggle_filter_config(&mut self)
        ensures
            *final(self) == old(self).filter_config_toggled(),
    {
        self.filter_config_open = !self.filter_config_open;
    }

    /// Paints the strip in another theme from now on.
    pub fn set_theme(&mut self, theme: ClippiTheme)
        ensures
            *final(self) == (FilterBar { theme, ..*old(self) }),
    {
        self.theme = theme;
    }

    /// Filters for a type, or no longer, and shows what is left.
    pub fn apply_type_filter(kind: FilterType, app: &mut AppState)
        ensures
            final(app)@ == old(app)@.type_filter_used(kind),
    {
        app.request(Op::ToggleTypeFilter { kind });
        app.request(Op::ResetList);
    }

    /// The number of visible entries of the settings, among which the strip
    /// divides its width.
    pub fn visible_count(app: &AppState) -> (r: usize)
        ensures
            r == app@.settings.type_filter_config.filter(shown()).len(),
    {
        let config = app.settings.type_filter_config.as_slice();
        let mut n: usize = 0;
        let mut i: usize = 0;
        proof {
            lemma_filter_start(config@, shown());
        }
        while i < config.len()
            invariant
                0 <= i <= config.len(),
                n == config@.take(i as int).filter(shown()).len(),
                n <= i,
            decreases config.len() - i,
        {
            proof {
                lemma_filter_step(config@, shown(), i as int);
            }
            if config[i].visible {
                n += 1;
            }
            i += 1;
        }
        assert(config@.take(i as int) =~= config@);
        n
    }

    /// The buttons of the strip, in the order of the settings.
    pub fn buttons(app: &AppState) -> (r: Vec<FilterButton>)
        ensures
            r@ == filter_buttons(
                app@.settings.type_filter_config.filter(shown()),
                app@.filters.active_types,
            ),
    {
        let config = app.settings.type_filter_config.as_slice();
        let ghost active = app@.filters.active_types;
        let mut r: Vec<FilterButton> = Vec::new();
        let mut n: usize = 0;
        let mut i: usize = 0;
        proof {
            lemma_filter_start(config@, shown());
        }
        while i < config.len()
            invariant
                0 <= i <= config.len(),
                active == app@.filters.active_types,
                n == config@.take(i as int).filter(shown()).len(),
                n <= i,
                r@ == filter_buttons(config@.take(i as int).filter(shown()), active),
            decreases config.len() - i,
        {
            let ghost done = config@.take(i as int).filter(shown());
            proof {
                lemma_filter_step(config@, shown(), i as int);
                assert(done.push(config@[i as int]).drop_last() =~= done);
            }
            if config[i].visible {
                if let Some(kind) = FilterType::from_key(config[i].key.as_str()) {
                    let active = app.filters.is_type_active(kind.def().key);
                    r.push(FilterButton { index: n, kind, active });
                }
                n += 1;
            }
            i += 1;
        }
        assert(config@.take(i as int) =~= config@);
        r
    }

    /// Whether the list is filtered for tags.
    pub fn has_tag_filter(app: &AppState) -> (r: bool)
        ensures
            r == (app@.filters.tag_ids.len() > 0),
    {
        app.filters.tag_ids.len() > 0
    }

    /// The colours of the strip.
    pub fn palette(&self) -> (r: FilterPalette)
        ensures
            r == self.colors(),
    {
        let dark = self.theme.is_dark();
        FilterPalette {
            active_bg: self.theme.accent_overlay,
            active_text: self.theme.accent,
            inactive_bg: pick_shade(dark, 0xffffff0a, 0x00000008),
            inactive_text: self.theme.text_2,
            divider: pick_shade(dark, 0xffffff18, 0x00000014),
        }
    }
}

} // verus!
