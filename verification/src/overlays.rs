//! The panels and dialogs that lie over the pages, and their movements.

use vstd::prelude::*;

verus! {

/// How long an overlay takes to come in, in nanoseconds.
pub const OVERLAY_ANIM_NANOS: u64 = 150_000_000;

/// How long a movement counts as running after its time, in nanoseconds.
pub const ANIM_GRACE_NANOS: u64 = 24_000_000;

/// Something that lies over a page.
#[derive(Clone, Copy, Debug, PartialEq, Eq, Structural)]
pub enum Overlay {
    TagFilter,
    TypeFilterConfig,
    TagEdit,
    ContextMenu,
    TagPicker,
    ConfirmDialog,
    TagDeleteConfirm,
    HotkeyConfirm,
    ClearDataConfirm,
    BackendPanel,
    HotkeyBlacklistPopup,
    PasteShortcutsPopup,
    AppBlacklistPopup,
    LatestHotkeysPopup,
}

/// The number of overlays.
pub const OVERLAY_COUNT: usize = 14;

impl Overlay {
    /// The place of an overlay among all.
    pub open spec fn place(self) -> int {
        match self {
            Overlay::TagFilter => 0,
            Overlay::TypeFilterConfig => 1,
            Overlay::TagEdit => 2,
            Overlay::ContextMenu => 3,
            Overlay::TagPicker => 4,
            Overlay::ConfirmDialog => 5,
            Overlay::TagDeleteConfirm => 6,
            Overlay::HotkeyConfirm => 7,
            Overlay::ClearDataConfirm => 8,
            Overlay::BackendPanel => 9,
            Overlay::HotkeyBlacklistPopup => 10,
            Overlay::PasteShortcutsPopup => 11,
            Overlay::AppBlacklistPopup => 12,
            Overlay::LatestHotkeysPopup => 13,
        }
    }

    /// The place of an overlay among all.
    pub fn index(self) -> (r: usize)
        ensures
            r == self.place(),
            r < OVERLAY_COUNT,
    {
        match self {
            Overlay::TagFilter => 0,
            Overlay::TypeFilterConfig => 1,
            Overlay::TagEdit => 2,
            Overlay::ContextMenu => 3,
            Overlay::TagPicker => 4,
            Overlay::ConfirmDialog => 5,
            Overlay::TagDeleteConfirm => 6,
            Overlay::HotkeyConfirm => 7,
            Overlay::ClearDataConfirm => 8,
            Overlay::BackendPanel => 9,
            Overlay::HotkeyBlacklistPopup => 10,
            Overlay::PasteShortcutsPopup => 11,
            Overlay::AppBlacklistPopup => 12,
            Overlay::LatestHotkeysPopup => 13,
        }
    }

    /// The overlay at a place.
    pub open spec fn at(place: int) -> Self {
        if place == 0 {
            Overlay::TagFilter
        } else if place == 1 {
            Overlay::TypeFilterConfig
        } else if place == 2 {
            Overlay::TagEdit
        } else if place == 3 {
            Overlay::ContextMenu
        } else if place == 4 {
            Overlay::TagPicker
        } else if place == 5 {
            Overlay::ConfirmDialog
        } else if place == 6 {
            Overlay::TagDeleteConfirm
        } else if place == 7 {
            Overlay::HotkeyConfirm
        } else if place == 8 {
            Overlay::ClearDataConfirm
        } else if place == 9 {
            Overlay::BackendPanel
        } else if place == 10 {
            Overlay::HotkeyBlacklistPopup
        } else if place == 11 {
            Overlay::PasteShortcutsPopup
        } else if place == 12 {
            Overlay::AppBlacklistPopup
        } else {
            Overlay::LatestHotkeysPopup
        }
    }

    /// The overlay at a place.
    pub fn nth(index: usize) -> (r: Self)
        requires
            index < OVERLAY_COUNT,
        ensures
            r == Overlay::at(index as int),
            r.place() == index,
    {
        match index {
            0 => Overlay::TagFilter,
            1 => Overlay::TypeFilterConfig,
            2 => Overlay::TagEdit,
            3 => Overlay::ContextMenu,
            4 => Overlay::TagPicker,
            5 => Overlay::ConfirmDialog,
            6 => Overlay::TagDeleteConfirm,
            7 => Overlay::HotkeyConfirm,
            8 => Overlay::ClearDataConfirm,
            9 => Overlay::BackendPanel,
            10 => Overlay::HotkeyBlacklistPopup,
            11 => Overlay::PasteShortcutsPopup,
            12 => Overlay::AppBlacklistPopup,
            _ => Overlay::LatestHotkeysPopup,
        }
    }
}

/// The movement of an overlay.
#[derive(Clone, Copy, Debug, PartialEq, Eq, Structural)]
pub struct OverlayTransitionState {
    pub visible: bool,
    /// How often the overlay has come in.
    pub generation: u64,
    /// When the overlay last came in, while it is visible; in nanoseconds.
    pub started_at: Option<u64>,
}

impl OverlayTransitionState {
    /// An overlay that has never been visible.
    pub open spec fn unseen() -> Self {
        OverlayTransitionState { visible: false, generation: 0, started_at: None }
    }

    /// The overlay shown or not.
    pub open spec fn shown(self, visible: bool, now: u64) -> Self {
        OverlayTransitionState {
            visible,
            generation: if visible && !self.visible {
                self.generation.wrapping_add(1)
            } else {
                self.generation
            },
            started_at: if !visible {
                None
            } else if !self.visible {
                Some(now)
            } else {
                self.started_at
            },
        }
    }
}

/// Whether a movement is running.
pub open spec fn runs(started_at: Option<u64>, duration: u64, now: u64) -> bool {
    match started_at {
        Some(start) => now - start <= duration + ANIM_GRACE_NANOS,
        None => false,
    }
}

/// Whether a movement is running: it began, and its time, with a little grace,
/// is not over.
pub fn animation_running(started_at: Option<u64>, duration: u64, now: u64) -> (r: bool)
    requires
        duration <= u64::MAX - ANIM_GRACE_NANOS,
    ensures
        r == runs(started_at, duration, now),
{
    match started_at {
        Some(start) => now <= start || now - start <= duration + ANIM_GRACE_NANOS,
        None => false,
    }
}

/// The movements of all overlays.
pub struct OverlayTransitions {
    pub states: Vec<OverlayTransitionState>,
}

impl View for OverlayTransitions {
    type V = Seq<OverlayTransitionState>;

    open spec fn view(&self) -> Seq<OverlayTransitionState> {
        self.states@
    }
}

impl OverlayTransitions {
    /// Every overlay has its movement.
    pub open spec fn wf(&self) -> bool {
        self@.len() == OVERLAY_COUNT
    }

    /// Overlays that have never been visible.
    pub fn new() -> (r: Self)
        ensures
            r.wf(),
            r@ == Seq::new(OVERLAY_COUNT as nat, |i: int| OverlayTransitionState::unseen()),
    {
        let mut states: Vec<OverlayTransitionState> = Vec::new();
        while states.len() < OVERLAY_COUNT
            invariant
                states@.len() <= OVERLAY_COUNT,
                forall|i: int|
                    0 <= i < states@.len() ==> #[trigger] states@[i]
                        == OverlayTransitionState::unseen(),
            decreases OVERLAY_COUNT - states.len(),
        {
            states.push(
                OverlayTransitionState { visible: false, generation: 0, started_at: None },
            );
        }
        assert(states@ =~= Seq::new(
            OVERLAY_COUNT as nat,
            |i: int| OverlayTransitionState::unseen(),
        ));
        OverlayTransitions { states }
    }

    /// Takes note of whether an overlay is visible. The result names its
    /// movement; another one each time that the overlay comes in.
    pub fn overlay_generation(&mut self, key: Overlay, visible: bool, now: u64) -> (r: u64)
        requires
            old(self).wf(),
        ensures
            final(self).wf(),
            final(self)@ == old(self)@.update(
                key.place(),
                old(self)@[key.place()].shown(visible, now),
            ),
            r == final(self)@[key.place()].generation,
    {
        let i = key.index();
        let mut state = self.states[i];
        if visible && !state.visible {
            state.generation = state.generation.wrapping_add(1);
            state.started_at = Some(now);
        } else if !visible {
            state.started_at = None;
        }
        state.visible = visible;
        let generation = state.generation;
        self.states[i] = state;
        generation
    }

    /// Whether an overlay is still coming in.
    pub fn overlay_animating(&self, key: Overlay, now: u64) -> (r: bool)
        requires
            self.wf(),
        ensures
            r == runs(self@[key.place()].started_at, OVERLAY_ANIM_NANOS, now),
    {
        animation_running(self.states[key.index()].started_at, OVERLAY_ANIM_NANOS, now)
    }
}

/// The name of an overlay's change of opacity.
pub fn overlay_opacity_key(generation: u64) -> (r: u64)
    ensures
        r == generation.wrapping_add(10_000),
{
    generation.wrapping_add(10_000)
}

/// The name of an overlay's change of place.
pub fn overlay_offset_key(generation: u64) -> (r: u64)
    ensures
        r == generation.wrapping_add(20_000),
{
    generation.wrapping_add(20_000)
}

/// The name of an overlay's change of size.
pub fn overlay_scale_key(generation: u64) -> (r: u64)
    ensures
        r == generation.wrapping_add(30_000),
{
    generation.wrapping_add(30_000)
}

/// An overlay begins a new movement exactly when it comes in: while it stays
/// visible, and when it goes, its movement keeps its name.
pub proof fn law_overlays_move_anew_when_they_come_in(
    state: OverlayTransitionState,
    visible: bool,
    now: u64,
)
    ensures
        state.shown(visible, now).generation != state.generation <==> visible && !state.visible,
        visible && state.visible ==> state.shown(visible, now) == state,
        !visible ==> state.shown(visible, now).started_at is None,
{
}

/// An overlay that is not visible is not coming in, and one that comes in is
/// until its time is over.
pub proof fn law_overlays_come_in_for_a_while(
    state: OverlayTransitionState,
    now: u64,
    later: u64,
)
    requires
        now <= later,
    ensures
        !runs(state.shown(false, now).started_at, OVERLAY_ANIM_NANOS, later),
        !state.visible ==> (runs(
            state.shown(true, now).started_at,
            OVERLAY_ANIM_NANOS,
            later,
        ) <==> later - now <= OVERLAY_ANIM_NANOS + ANIM_GRACE_NANOS),
{
}

/// No two overlays have the same place.
pub proof fn law_every_overlay_has_its_place(a: Overlay, b: Overlay)
    ensures
        a.place() == b.place() ==> a == b,
        0 <= a.place() < OVERLAY_COUNT,
        Overlay::at(a.place()) == a,
{
}

} // verus!
