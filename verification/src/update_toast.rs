//! The messages about updates of the program.

use vstd::prelude::*;

use crate::text::{fill, filled};
use crate::toast::{toasting, ToastButtons, ToastModel, ToastPair, ToastSlot, ToastState};

verus! {

/// How far an update has come.
#[derive(Debug, Clone, PartialEq, Eq)]
pub enum UpdatePhase {
    /// It is being downloaded; the progress as it is shown.
    Downloading { progress: String },
    Verifying,
    Installing,
    ReadyToRestart,
    Error { message: String },
    UpToDate,
    /// Anything else.
    Idle,
}

/// The texts of the messages about updates, in the user's language. A `{0}` in a
/// text stands for what it is about.
#[derive(Debug, Clone, PartialEq, Eq)]
pub struct UpdateTexts {
    pub available: String,
    pub downloading: String,
    pub verifying: String,
    pub installing: String,
    pub ready: String,
    pub error: String,
}

/// How long the offer of an update stays, in nanoseconds.
pub const OFFER_NANOS: u64 = 15_000_000_000;

/// How long a message that something failed stays, in nanoseconds.
pub const FAILURE_NANOS: u64 = 5_000_000_000;

/// How long a message about an update in progress stays, in nanoseconds.
pub const PROGRESS_NANOS: u64 = 3_600_000_000_000;

impl ToastPair {
    /// A message that stays until `expiry`, in place of any other.
    pub open spec fn fresh(
        self,
        message: Seq<char>,
        actions: Option<ToastButtons>,
        expiry: u64,
    ) -> Self {
        toasting(
            self.slot.saying(message),
            self.toast.held().offering(actions, Some(expiry)),
        )
    }

    /// The same message state with other words and no button.
    pub open spec fn reworded(self, message: Seq<char>) -> Self {
        toasting(
            self.slot.saying(message),
            ToastModel { actions: Some(ToastButtons::Nothing), ..self.toast },
        )
    }

    /// An update offered.
    pub open spec fn update_offered(self, texts: UpdateTexts, version: Seq<char>, now: u64) -> Self {
        self.fresh(
            filled(texts.available@, version),
            Some(ToastButtons::DownloadOrLater),
            (now + OFFER_NANOS) as u64,
        )
    }

    /// The progress of a download shown. The first word of it replaces the offer;
    /// later ones keep the timer.
    pub open spec fn downloading(self, texts: UpdateTexts, progress: Seq<char>, now: u64) -> Self {
        let offered = self.toast.actions is Some && self.toast.actions
            != Some(ToastButtons::Nothing);
        let toast = if offered {
            self.toast.held()
        } else {
            self.toast
        };
        toasting(
            self.slot.saying(filled(texts.downloading@, progress)),
            toast.offering(
                Some(ToastButtons::Nothing),
                Some((now + PROGRESS_NANOS) as u64),
            ),
        )
    }

    /// The phase of an update shown.
    pub open spec fn update_shown(self, texts: UpdateTexts, phase: UpdatePhase, now: u64) -> Self {
        match phase {
            UpdatePhase::Downloading { progress } => self.downloading(texts, progress@, now),
            UpdatePhase::Verifying => self.reworded(texts.verifying@),
            UpdatePhase::Installing => self.reworded(texts.installing@),
            UpdatePhase::ReadyToRestart => self.fresh(
                texts.ready@,
                Some(ToastButtons::Restart),
                (now + PROGRESS_NANOS) as u64,
            ),
            UpdatePhase::Error { message } => self.fresh(
                filled(texts.error@, message@),
                Some(ToastButtons::Nothing),
                (now + FAILURE_NANOS) as u64,
            ),
            UpdatePhase::UpToDate => self,
            UpdatePhase::Idle => self,
        }
    }
}

impl ToastState {
    /// Shows a message that stays until `expiry`, in place of any other.
    pub fn show_fresh(
        &mut self,
        slot: &mut ToastSlot,
        message: String,
        actions: Option<ToastButtons>,
        expiry: u64,
    )
        ensures
            toasting(final(slot)@, final(self)@) == toasting(old(slot)@, old(self)@).fresh(
                message@,
                actions,
                expiry,
            ),
    {
        self.hold();
        slot.say(message);
        self.offer(actions, Some(expiry));
    }

    /// Offers an update.
    pub fn offer_update(
        &mut self,
        slot: &mut ToastSlot,
        texts: &UpdateTexts,
        version: &str,
        now: u64,
    )
        requires
            now <= u64::MAX - PROGRESS_NANOS,
        ensures
            toasting(final(slot)@, final(self)@) == toasting(
                old(slot)@,
                old(self)@,
            ).update_offered(*texts, version@, now),
    {
        let message = fill(texts.available.as_str(), version);
        self.show_fresh(slot, message, Some(ToastButtons::DownloadOrLater), now + OFFER_NANOS);
    }

    /// Shows the phase of an update.
    pub fn show_update(
        &mut self,
        slot: &mut ToastSlot,
        texts: &UpdateTexts,
        phase: &UpdatePhase,
        now: u64,
    )
        requires
            now <= u64::MAX - PROGRESS_NANOS,
        ensures
            toasting(final(slot)@, final(self)@) == toasting(old(slot)@, old(self)@).update_shown(
                *texts,
                *phase,
                now,
            ),
    {
        match phase {
            UpdatePhase::Downloading { progress } => {
                let offered = match self.actions {
                    Some(buttons) => buttons != ToastButtons::Nothing,
                    None => false,
                };
                if offered {
                    self.hold();
                }
                slot.say(fill(texts.downloading.as_str(), progress.as_str()));
                self.offer(Some(ToastButtons::Nothing), Some(now + PROGRESS_NANOS));
            },
            UpdatePhase::Verifying => {
                slot.say(texts.verifying.clone());
                self.actions = Some(ToastButtons::Nothing);
            },
            UpdatePhase::Installing => {
                slot.say(texts.installing.clone());
                self.actions = Some(ToastButtons::Nothing);
            },
            UpdatePhase::ReadyToRestart => {
                let message = texts.ready.clone();
                self.show_fresh(
                    slot,
                    message,
                    Some(ToastButtons::Restart),
                    now + PROGRESS_NANOS,
                );
            },
            UpdatePhase::Error { message } => {
                let words = fill(texts.error.as_str(), message.as_str());
                self.show_fresh(slot, words, Some(ToastButtons::Nothing), now + FAILURE_NANOS);
            },
            UpdatePhase::UpToDate => {},
            UpdatePhase::Idle => {},
        }
    }
}

/// The progress of a download keeps the message's timer, once it has replaced
/// the offer.
pub proof fn law_progress_keeps_the_timer(
    pair: ToastPair,
    texts: UpdateTexts,
    first: Seq<char>,
    next: Seq<char>,
    now: u64,
    later: u64,
)
    ensures
        ({
            let once = pair.downloading(texts, first, now);
            once.downloading(texts, next, later).toast.timer == once.toast.timer
        }),
{
}

} // verus!
