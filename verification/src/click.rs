//! What a click on a card means: modifier keys, paste modes and the click
//! dispatch table.

use vstd::prelude::*;

use crate::text::str_eq;

verus! {

/// The modifier keys that were held during an event.
#[derive(Clone, Copy, Debug, PartialEq, Eq, Structural)]
pub struct Modifiers {
    pub control: bool,
    pub alt: bool,
    pub shift: bool,
    /// Command on macOS, the Windows or Super key elsewhere.
    pub platform: bool,
    pub function: bool,
    /// Whether the event comes from macOS, where Command takes the part that
    /// Control has elsewhere.
    pub mac: bool,
}

impl Default for Modifiers {
    /// No key held, outside macOS.
    fn default() -> (r: Self)
        ensures
            r == Modifiers::unheld(),
    {
        Modifiers {
            control: false,
            alt: false,
            shift: false,
            platform: false,
            function: false,
            mac: false,
        }
    }
}

impl Modifiers {
    /// No key held, outside macOS.
    pub open spec fn unheld() -> Self {
        Modifiers {
            control: false,
            alt: false,
            shift: false,
            platform: false,
            function: false,
            mac: false,
        }
    }

    /// How many of the five keys are held.
    pub open spec fn count(self) -> int {
        let n = |b: bool| -> int { if b { 1 } else { 0 } };
        n(self.control) + n(self.alt) + n(self.shift) + n(self.platform) + n(self.function)
    }

    /// Whether the platform's primary modifier is held.
    pub open spec fn primary(self) -> bool {
        if self.mac {
            self.platform
        } else {
            self.control
        }
    }

    /// Whether a modifier that adds to the selection is held.
    pub open spec fn additive(self) -> bool {
        self.control || self.primary()
    }

    /// No key held, outside macOS.
    pub fn none() -> (r: Self)
        ensures
            r == Modifiers::unheld(),
    {
        Modifiers::default()
    }

    /// Whether the platform's primary modifier is held: Command on macOS,
    /// Control elsewhere.
    pub fn secondary(&self) -> (r: bool)
        ensures
            r == self.primary(),
    {
        if self.mac {
            self.platform
        } else {
            self.control
        }
    }

    /// How many of the five keys are held.
    pub fn number_of_modifiers(&self) -> (r: u8)
        ensures
            r == self.count(),
    {
        let mut n: u8 = 0;
        if self.control {
            n += 1;
        }
        if self.alt {
            n += 1;
        }
        if self.shift {
            n += 1;
        }
        if self.platform {
            n += 1;
        }
        if self.function {
            n += 1;
        }
        n
    }
}

/// Whether a modifier that adds to the selection is held.
pub fn additive_selection_modifier(modifiers: Modifiers) -> (r: bool)
    ensures
        r == modifiers.additive(),
{
    modifiers.control || modifiers.secondary()
}

/// Whether the platform's primary modifier is held.
pub fn primary_modifier_pressed(modifiers: Modifiers) -> (r: bool)
    ensures
        r == modifiers.primary(),
{
    modifiers.secondary()
}

/// What a double click with a modifier pastes.
#[derive(Clone, Copy, Debug, PartialEq, Eq, Structural)]
pub enum ModifiedPasteModifier {
    Bitmap,
    PlainText,
}

/// The first half of a modified double click: a click that left the selection
/// as it was.
#[derive(Clone, Copy, Debug, PartialEq, Eq, Structural)]
pub struct ModifiedDoubleClickCandidate {
    pub item_id: i64,
    pub modifier: ModifiedPasteModifier,
}

/// What a double click with these modifiers pastes, if anything: a bitmap for
/// the bare primary modifier, plain text for a bare Shift.
pub open spec fn double_click_kind(modifiers: Modifiers) -> Option<ModifiedPasteModifier> {
    if modifiers.count() != 1 {
        None
    } else if modifiers.primary() {
        Some(ModifiedPasteModifier::Bitmap)
    } else if modifiers.shift {
        Some(ModifiedPasteModifier::PlainText)
    } else {
        None
    }
}

/// What a double click with these modifiers pastes, if anything.
///
/// Only a bare primary modifier or a bare Shift forms a kind of paste. Any
/// other modifier and any combination gives nothing, so that such a gesture can
/// never become a candidate nor paste on its second click.
pub fn modified_double_click_kind(modifiers: Modifiers) -> (r: Option<ModifiedPasteModifier>)
    ensures
        r == double_click_kind(modifiers),
{
    if modifiers.number_of_modifiers() != 1 {
        return None;
    }
    if primary_modifier_pressed(modifiers) {
        Some(ModifiedPasteModifier::Bitmap)
    } else if modifiers.shift {
        Some(ModifiedPasteModifier::PlainText)
    } else {
        None
    }
}

/// Which click pastes.
#[derive(Clone, Copy, Debug, PartialEq, Eq, Structural)]
pub enum PasteClickMode {
    DoubleClick,
    SingleClick,
}

/// The paste mode that a setting stands for.
pub open spec fn paste_click_mode(value: Seq<char>) -> PasteClickMode {
    if value == "single_click"@ {
        PasteClickMode::SingleClick
    } else {
        PasteClickMode::DoubleClick
    }
}

impl PasteClickMode {
    /// The mode that a setting stands for; every unknown value means the
    /// default, a double click.
    pub fn from_settings(value: &str) -> (r: Self)
        ensures
            r == paste_click_mode(value@),
    {
        if str_eq(value, "single_click") {
            PasteClickMode::SingleClick
        } else {
            PasteClickMode::DoubleClick
        }
    }
}

/// What the held modifiers ask of a click on a card.
#[derive(Clone, Copy, Debug, PartialEq, Eq, Structural)]
pub enum CardModifier {
    /// No modifier key held.
    Unmodified,
    /// A bare additive modifier: adding to the selection, or pasting a bitmap.
    Primary,
    /// A bare Shift: selecting a range, or pasting plain text.
    Shift,
    /// An additive modifier together with others: adding to the selection,
    /// never a paste.
    AdditiveCombo,
    /// Shift together with others that are not additive: a range in
    /// double-click mode, never a paste.
    ShiftCombo,
    /// Any other modifier or combination.
    Other,
}

/// What the held modifiers ask of a click on a card.
pub open spec fn card_modifier(modifiers: Modifiers) -> CardModifier {
    if modifiers.count() == 0 {
        CardModifier::Unmodified
    } else if modifiers.additive() {
        if modifiers.count() == 1 {
            CardModifier::Primary
        } else {
            CardModifier::AdditiveCombo
        }
    } else if modifiers.shift {
        if modifiers.count() == 1 {
            CardModifier::Shift
        } else {
            CardModifier::ShiftCombo
        }
    } else {
        CardModifier::Other
    }
}

/// Sorts the held modifiers into what they ask of a click on a card.
pub fn classify_card_modifier(modifiers: Modifiers) -> (r: CardModifier)
    ensures
        r == card_modifier(modifiers),
{
    let count: u8 = modifiers.number_of_modifiers();
    if count == 0 {
        return CardModifier::Unmodified;
    }
    if count == 1 {
        if additive_selection_modifier(modifiers) {
            return CardModifier::Primary;
        }
        if modifiers.shift {
            return CardModifier::Shift;
        }
        return CardModifier::Other;
    }
    if additive_selection_modifier(modifiers) {
        return CardModifier::AdditiveCombo;
    }
    if modifiers.shift {
        return CardModifier::ShiftCombo;
    }
    CardModifier::Other
}

/// What a click on a card does.
#[derive(Clone, Copy, Debug, PartialEq, Eq, Structural)]
pub enum CardClickAction {
    /// Nothing.
    Noop,
    /// Make the item the only selected one.
    SelectSingle,
    /// Add the item to the selection, or take it out.
    ToggleSelect,
    /// Select from the anchor to the item.
    RangeSelect,
    /// Paste the item with its formatting.
    PasteDefault,
    /// Paste the item as plain text.
    PastePlain,
    /// Paste the image as a bitmap.
    PasteBitmap,
}

impl CardClickAction {
    /// Whether the action pastes.
    pub open spec fn pastes(self) -> bool {
        self is PasteDefault || self is PastePlain || self is PasteBitmap
    }
}

/// What a click does in double-click mode: it selects, and nothing else.
pub open spec fn selection_action(modifier: CardModifier) -> CardClickAction {
    match modifier {
        CardModifier::Primary | CardModifier::AdditiveCombo => CardClickAction::ToggleSelect,
        CardModifier::Shift | CardModifier::ShiftCombo => CardClickAction::RangeSelect,
        CardModifier::Unmodified | CardModifier::Other => CardClickAction::SelectSingle,
    }
}

/// What a click does in single-click mode while several items are selected: it
/// manages the selection, and nothing else.
pub open spec fn multi_selection_action(modifier: CardModifier) -> CardClickAction {
    match modifier {
        CardModifier::Unmodified => CardClickAction::SelectSingle,
        CardModifier::Primary => CardClickAction::ToggleSelect,
        CardModifier::Shift => CardClickAction::RangeSelect,
        _ => CardClickAction::Noop,
    }
}

/// What a click does in single-click mode otherwise: it pastes the clicked
/// item, where a modified paste asks that the item is the selected one.
pub open spec fn single_click_action(
    clicked_is_selected: bool,
    modifier: CardModifier,
    is_image: bool,
) -> CardClickAction {
    match (modifier, clicked_is_selected) {
        (CardModifier::Unmodified, _) => CardClickAction::PasteDefault,
        (CardModifier::Primary, true) => if is_image {
            CardClickAction::PasteBitmap
        } else {
            CardClickAction::Noop
        },
        (CardModifier::Primary, false) => CardClickAction::ToggleSelect,
        (CardModifier::Shift, true) => CardClickAction::PastePlain,
        (CardModifier::Shift, false) => CardClickAction::RangeSelect,
        _ => CardClickAction::Noop,
    }
}

/// What a click on a card does.
pub open spec fn card_click_action(
    mode: PasteClickMode,
    clicked_is_selected: bool,
    selected_count: nat,
    modifier: CardModifier,
    is_image: bool,
) -> CardClickAction {
    match mode {
        PasteClickMode::DoubleClick => selection_action(modifier),
        PasteClickMode::SingleClick => if selected_count > 1 {
            multi_selection_action(modifier)
        } else {
            single_click_action(clicked_is_selected, modifier, is_image)
        },
    }
}

/// Decides what a click on a card does.
///
/// In double-click mode a click only selects; pasting is left to the double
/// click. In single-click mode an unmodified click pastes the clicked item
/// whatever is selected, unless several items are: then every click manages the
/// selection. `clicked_is_selected` and `selected_count` describe the selection
/// before the click changes it.
pub fn resolve_card_click_action(
    mode: PasteClickMode,
    clicked_is_selected: bool,
    selected_count: usize,
    modifier: CardModifier,
    is_image: bool,
) -> (r: CardClickAction)
    ensures
        r == card_click_action(
            mode,
            clicked_is_selected,
            selected_count as nat,
            modifier,
            is_image,
        ),
{
    match mode {
        PasteClickMode::DoubleClick => match modifier {
            CardModifier::Primary | CardModifier::AdditiveCombo => CardClickAction::ToggleSelect,
            CardModifier::Shift | CardModifier::ShiftCombo => CardClickAction::RangeSelect,
            CardModifier::Unmodified | CardModifier::Other => CardClickAction::SelectSingle,
        },
        PasteClickMode::SingleClick => {
            if selected_count > 1 {
                return match modifier {
                    CardModifier::Unmodified => CardClickAction::SelectSingle,
                    CardModifier::Primary => CardClickAction::ToggleSelect,
                    CardModifier::Shift => CardClickAction::RangeSelect,
                    CardModifier::AdditiveCombo
                    | CardModifier::ShiftCombo
                    | CardModifier::Other => CardClickAction::Noop,
                };
            }
            match modifier {
                CardModifier::Unmodified => CardClickAction::PasteDefault,
                CardModifier::Primary => {
                    if clicked_is_selected {
                        if is_image {
                            CardClickAction::PasteBitmap
                        } else {
                            CardClickAction::Noop
                        }
                    } else {
                        CardClickAction::ToggleSelect
                    }
                },
                CardModifier::Shift => {
                    if clicked_is_selected {
                        CardClickAction::PastePlain
                    } else {
                        CardClickAction::RangeSelect
                    }
                },
                CardModifier::AdditiveCombo | CardModifier::ShiftCombo | CardModifier::Other => {
                    CardClickAction::Noop
                },
            }
        },
    }
}

/// In double-click mode a single click never pastes.
pub proof fn law_double_click_mode_only_selects(
    clicked_is_selected: bool,
    selected_count: nat,
    modifier: CardModifier,
    is_image: bool,
)
    ensures
        !card_click_action(
            PasteClickMode::DoubleClick,
            clicked_is_selected,
            selected_count,
            modifier,
            is_image,
        ).pastes(),
{
}

/// While several items are selected, no click pastes, in either mode.
pub proof fn law_multi_selection_click_never_pastes(
    mode: PasteClickMode,
    clicked_is_selected: bool,
    selected_count: nat,
    modifier: CardModifier,
    is_image: bool,
)
    requires
        selected_count > 1,
    ensures
        !card_click_action(mode, clicked_is_selected, selected_count, modifier, is_image).pastes(),
{
}

/// In single-click mode an unmodified click pastes exactly outside a
/// multi-selection; a bare Shift pastes exactly on the only selected item, and
/// a bare primary modifier exactly on the only selected item when that is an
/// image; nothing else pastes.
pub proof fn law_single_click_paste_conditions(
    clicked_is_selected: bool,
    selected_count: nat,
    modifier: CardModifier,
    is_image: bool,
)
    ensures
        card_click_action(
            PasteClickMode::SingleClick,
            clicked_is_selected,
            selected_count,
            modifier,
            is_image,
        ).pastes() <==> selected_count <= 1 && match modifier {
            CardModifier::Unmodified => true,
            CardModifier::Shift => clicked_is_selected,
            CardModifier::Primary => clicked_is_selected && is_image,
            _ => false,
        },
{
}

/// In single-click mode a combination of modifiers, and a modifier that is
/// neither additive nor Shift, does nothing at all.
pub proof fn law_other_modifiers_do_nothing_in_single_click_mode(
    clicked_is_selected: bool,
    selected_count: nat,
    modifiers: Modifiers,
    is_image: bool,
)
    requires
        modifiers.count() >= 2 || (modifiers.count() == 1 && !modifiers.additive()
            && !modifiers.shift),
    ensures
        card_click_action(
            PasteClickMode::SingleClick,
            clicked_is_selected,
            selected_count,
            card_modifier(modifiers),
            is_image,
        ) == CardClickAction::Noop,
{
}

/// A click on the only selected item in single-click mode pastes or does
/// nothing: it never changes the selection.
pub proof fn law_click_on_the_only_selected_item_keeps_the_selection(
    modifier: CardModifier,
    is_image: bool,
)
    ensures
        ({
            let action = card_click_action(
                PasteClickMode::SingleClick,
                true,
                1,
                modifier,
                is_image,
            );
            action.pastes() || action is Noop
        }),
{
}

/// A bare modifier on an item that is not selected asks for the same change of
/// the selection in both modes.
pub proof fn law_modes_agree_on_bare_modifiers_outside_the_selection(
    selected_count: nat,
    modifier: CardModifier,
    is_image: bool,
)
    requires
        modifier is Primary || modifier is Shift,
    ensures
        card_click_action(
            PasteClickMode::SingleClick,
            false,
            selected_count,
            modifier,
            is_image,
        ) == card_click_action(
            PasteClickMode::DoubleClick,
            false,
            selected_count,
            modifier,
            is_image,
        ),
{
}

/// A gesture whose modifiers can paste on a double click is one that the
/// dispatch sees as a bare primary modifier or a bare Shift.
pub proof fn law_double_click_kinds_are_bare_modifiers(modifiers: Modifiers)
    requires
        double_click_kind(modifiers) is Some,
    ensures
        double_click_kind(modifiers) == Some(ModifiedPasteModifier::Bitmap) ==> card_modifier(
            modifiers,
        ) == CardModifier::Primary,
        double_click_kind(modifiers) == Some(ModifiedPasteModifier::PlainText) ==> card_modifier(
            modifiers,
        ) == CardModifier::Shift,
{
}

} // verus!
