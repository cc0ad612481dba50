//! The pages of the main window, and the transfer station between them.

use vstd::prelude::*;

use crate::overlays::{animation_running, runs};

verus! {

/// How long the change to another page takes, in nanoseconds.
pub const VIEW_ANIM_NANOS: u64 = 180_000_000;

/// A page of the main window.
#[derive(Clone, Copy, Debug, PartialEq, Eq, Structural)]
pub enum MainView {
    Clipboard,
    Settings,
    Edit,
}

/// Which page is shown. Times are in nanoseconds.
#[derive(Clone, Copy, Debug, PartialEq, Eq, Structural)]
pub struct Navigation {
    pub current_view: MainView,
    /// The page to go back to when the transfer station is closed; set where it
    /// was opened from another page than the list.
    pub transfer_return_view: Option<MainView>,
    /// How often the page has changed.
    pub view_transition_generation: u64,
    /// When the page last changed.
    pub view_transition_started: Option<u64>,
}

impl Navigation {
    /// The list, with no page to go back to.
    pub open spec fn start() -> Self {
        Navigation {
            current_view: MainView::Clipboard,
            transfer_return_view: None,
            view_transition_generation: 0,
            view_transition_started: None,
        }
    }

    /// A page shown; a change only where it is another one.
    pub open spec fn switched(self, view: MainView, now: u64) -> Self {
        if self.current_view == view {
            self
        } else {
            Navigation {
                current_view: view,
                view_transition_generation: self.view_transition_generation.wrapping_add(1),
                view_transition_started: Some(now),
                ..self
            }
        }
    }

    /// The same page, with another page to go back to.
    pub open spec fn returning_to(self, view: Option<MainView>) -> Self {
        Navigation { transfer_return_view: view, ..self }
    }

    /// The pages after the transfer station was toggled from this one.
    /// `was_active` says whether it was open, `activated` whether it was opened.
    pub open spec fn transfer_toggled(self, was_active: bool, activated: bool, now: u64) -> Self {
        match (self.current_view, was_active, self.transfer_return_view) {
            (MainView::Clipboard, false, _) => self.returning_to(None),
            (MainView::Settings, false, _) => if activated {
                self.returning_to(Some(MainView::Settings)).switched(MainView::Clipboard, now)
            } else {
                self
            },
            (MainView::Clipboard, true, Some(view)) => self.switched(view, now).returning_to(None),
            (MainView::Clipboard, true, None) => self,
            (MainView::Settings, true, _) => self.returning_to(None),
            (MainView::Edit, _, _) => self,
        }
    }

    /// The list, with no page to go back to.
    pub fn new() -> (r: Self)
        ensures
            r == Navigation::start(),
    {
        Navigation {
            current_view: MainView::Clipboard,
            transfer_return_view: None,
            view_transition_generation: 0,
            view_transition_started: None,
        }
    }

    /// Shows a page.
    pub fn switch_view(&mut self, view: MainView, now: u64)
        ensures
            *final(self) == old(self).switched(view, now),
    {
        if self.current_view != view {
            self.current_view = view;
            self.view_transition_generation = self.view_transition_generation.wrapping_add(1);
            self.view_transition_started = Some(now);
        }
    }

    /// Whether the button of the transfer station toggles it on this page.
    pub fn toggles_transfer(&self) -> (r: bool)
        ensures
            r == (self.current_view != MainView::Edit),
    {
        self.current_view != MainView::Edit
    }

    /// Takes note that the transfer station was toggled.
    pub fn transfer_was_toggled(&mut self, was_active: bool, activated: bool, now: u64)
        ensures
            *final(self) == old(self).transfer_toggled(was_active, activated, now),
    {
        match self.current_view {
            MainView::Clipboard => {
                if !was_active {
                    self.transfer_return_view = None;
                } else if let Some(view) = self.transfer_return_view {
                    self.switch_view(view, now);
                    self.transfer_return_view = None;
                }
            },
            MainView::Settings => {
                if was_active {
                    self.transfer_return_view = None;
                } else if activated {
                    self.transfer_return_view = Some(MainView::Settings);
                    self.switch_view(MainView::Clipboard, now);
                }
            },
            MainView::Edit => {},
        }
    }

    /// Whether the page is still changing.
    pub fn view_animating(&self, now: u64) -> (r: bool)
        ensures
            r == runs(self.view_transition_started, VIEW_ANIM_NANOS, now),
    {
        animation_running(self.view_transition_started, VIEW_ANIM_NANOS, now)
    }
}

/// Showing the page that is shown changes nothing, and showing another one
/// starts a new change.
pub proof fn law_same_page_is_no_change(nav: Navigation, view: MainView, now: u64, later: u64)
    ensures
        nav.switched(nav.current_view, now) == nav,
        nav.switched(view, now).switched(view, later) == nav.switched(view, now),
        nav.switched(view, now).current_view == view,
        view != nav.current_view ==> nav.switched(view, now).view_transition_generation
            != nav.view_transition_generation,
{
}

/// The transfer station that was opened from the settings goes back to them when
/// it is closed, and leaves no page to go back to.
pub proof fn law_transfer_goes_back_to_the_settings(nav: Navigation, now: u64, later: u64)
    requires
        nav.current_view == MainView::Settings,
    ensures
        ({
            let opened = nav.transfer_toggled(false, true, now);
            let closed = opened.transfer_toggled(true, false, later);
            &&& opened.current_view == MainView::Clipboard
            &&& closed.current_view == MainView::Settings
            &&& closed.transfer_return_view is None
        }),
{
}

/// The transfer station that was opened from the list stays on the list.
pub proof fn law_transfer_from_the_list_stays_there(nav: Navigation, now: u64, later: u64)
    requires
        nav.current_view == MainView::Clipboard,
    ensures
        ({
            let opened = nav.transfer_toggled(false, true, now);
            let closed = opened.transfer_toggled(true, false, later);
            &&& opened.current_view == MainView::Clipboard
            &&& closed.current_view == MainView::Clipboard
            &&& closed.view_transition_generation == nav.view_transition_generation
        }),
{
}

/// Where the transfer station cannot be opened, nobody is taken away from the
/// settings.
pub proof fn law_failed_transfer_changes_no_page(nav: Navigation, now: u64)
    requires
        nav.current_view == MainView::Settings,
    ensures
        nav.transfer_toggled(false, false, now) == nav,
{
}

/// Showing a page never touches the page to go back to.
pub proof fn law_plain_changes_keep_the_way_back(nav: Navigation, view: MainView, now: u64)
    ensures
        nav.switched(view, now).transfer_return_view == nav.transfer_return_view,
{
}

} // verus!
