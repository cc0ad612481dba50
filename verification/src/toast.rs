//! The short message at the bottom of the window: when it comes, how long it
//! stays, and what it offers.

use vstd::prelude::*;

use crate::text::{copy_text, said, same_text, says};

verus! {

/// How long a message takes to come and to go, in nanoseconds.
pub const TOAST_ANIM_NANOS: u64 = 220_000_000;

/// How long after it has begun to go a message is cleared, in nanoseconds.
pub const TOAST_CLEANUP_NANOS: u64 = 280_000_000;

/// What a message offers.
#[derive(Clone, Copy, Debug, PartialEq, Eq, Structural)]
pub enum ToastButtons {
    /// Nothing.
    Nothing,
    /// To download an update, or not now.
    DownloadOrLater,
    /// To restart for an update.
    Restart,
}

/// A button of a message.
#[derive(Clone, Copy, Debug, PartialEq, Eq, Structural)]
pub enum ToastButton {
    Download,
    Later,
    Restart,
}

/// The message that is to be shown.
#[derive(Debug, Clone, PartialEq, Eq)]
pub struct ToastSlot {
    pub message: Option<String>,
    pub is_warning: bool,
}

/// The contents of a `ToastSlot`.
#[verifier::ext_equal]
pub ghost struct SlotModel {
    pub message: Option<Seq<char>>,
    pub is_warning: bool,
}

impl View for ToastSlot {
    type V = SlotModel;

    open spec fn view(&self) -> SlotModel {
        SlotModel { message: said(self.message), is_warning: self.is_warning }
    }
}

/// How the message is being shown. Times are in nanoseconds.
#[derive(Debug, Clone, PartialEq, Eq)]
pub struct ToastState {
    /// How often a message has come.
    pub generation: u64,
    /// Whether the message is going.
    pub dismissing: bool,
    /// The timer after which the message goes.
    pub timer: Option<u64>,
    pub actions: Option<ToastButtons>,
    /// When the message is to have gone, where that is fixed.
    pub expiry: Option<u64>,
    /// The message that was shown last.
    pub last_message: Option<String>,
}

/// The contents of a `ToastState`.
#[verifier::ext_equal]
pub ghost struct ToastModel {
    pub generation: u64,
    pub dismissing: bool,
    pub timer: Option<u64>,
    pub actions: Option<ToastButtons>,
    pub expiry: Option<u64>,
    pub last_message: Option<Seq<char>>,
}

impl View for ToastState {
    type V = ToastModel;

    open spec fn view(&self) -> ToastModel {
        ToastModel {
            generation: self.generation,
            dismissing: self.dismissing,
            timer: self.timer,
            actions: self.actions,
            expiry: self.expiry,
            last_message: said(self.last_message),
        }
    }
}

/// A timer to start: after `nanos` the message goes, unless the timer was
/// replaced by then.
#[derive(Clone, Copy, Debug, PartialEq, Eq, Structural)]
pub struct ToastTimer {
    pub token: u64,
    pub nanos: u64,
}

/// The message and how it is being shown.
#[verifier::ext_equal]
pub ghost struct ToastPair {
    pub slot: SlotModel,
    pub toast: ToastModel,
}

/// The message and how it is being shown.
pub open spec fn toasting(slot: SlotModel, toast: ToastModel) -> ToastPair {
    ToastPair { slot, toast }
}

impl SlotModel {
    /// Another message in place of this one.
    pub open spec fn saying(self, message: Seq<char>) -> Self {
        SlotModel { message: Some(message), ..self }
    }

    /// No message.
    pub open spec fn cleared() -> Self {
        SlotModel { message: None, is_warning: false }
    }

    /// A warning.
    pub open spec fn warning(message: Seq<char>) -> Self {
        SlotModel { message: Some(message), is_warning: true }
    }
}

impl ToastModel {
    /// The same, with no timer and the message not going.
    pub open spec fn held(self) -> Self {
        ToastModel { timer: None, dismissing: false, ..self }
    }

    /// The buttons of the message.
    pub open spec fn shown_buttons(self) -> ToastButtons {
        match self.actions {
            Some(actions) => actions,
            None => ToastButtons::Nothing,
        }
    }

    /// The same, with other buttons and another end.
    pub open spec fn offering(self, actions: Option<ToastButtons>, expiry: Option<u64>) -> Self {
        ToastModel { actions, expiry, ..self }
    }

    /// How long the message stays before it goes.
    pub open spec fn stay(self, now: u64, usual: u64) -> int {
        let expiry = match self.expiry {
            Some(at) => at as int,
            None => now + usual,
        };
        let left = expiry - now;
        if left > TOAST_ANIM_NANOS {
            left - TOAST_ANIM_NANOS
        } else {
            0
        }
    }
}

impl ToastPair {
    /// The message dropped with all that belongs to it.
    pub open spec fn drop_toast(self) -> Self {
        toasting(
            SlotModel::cleared(),
            ToastModel { timer: None, expiry: None, actions: None, ..self.toast },
        )
    }

    /// The message dropped, if it offers anything or would.
    pub open spec fn drop_update_toast(self) -> Self {
        if self.toast.actions is Some {
            self.drop_toast()
        } else {
            self
        }
    }

    /// How the message is being shown, brought up to date with what it says.
    pub open spec fn noticed(self) -> ToastModel {
        let toast = if self.slot.message != self.toast.last_message {
            self.toast.held()
        } else {
            self.toast
        };
        ToastModel { last_message: self.slot.message, ..toast }
    }

    /// Whether the message is painted: while there is one, and while it goes.
    pub open spec fn is_painted(self) -> bool {
        self.slot.message is Some || self.toast.dismissing
    }

    /// Whether the message is fully visible.
    pub open spec fn is_in_place(self) -> bool {
        self.slot.message is Some && !self.toast.dismissing
    }

    /// The message brought one step further: a new one comes and gets its timer,
    /// unless it says that a bitmap is being prepared and waits for that; where
    /// there is none, nothing goes on.
    pub open spec fn advanced(self, preparing: Seq<char>, now: u64, usual: u64) -> ToastModel {
        let is_new = self.slot.message != self.toast.last_message;
        let toast = self.noticed();
        if self.slot.message is None {
            toast.held()
        } else if toast.dismissing || toast.timer is Some {
            toast
        } else if self.slot.message == Some(preparing) {
            ToastModel {
                generation: if is_new {
                    toast.generation.wrapping_add(1)
                } else {
                    toast.generation
                },
                expiry: None,
                actions: None,
                ..toast
            }
        } else if toast.stay(now, usual) > 0 {
            let token = toast.generation.wrapping_add(1);
            ToastModel { generation: token, timer: Some(token), ..toast }
        } else {
            toast
        }
    }

    /// The timer that the step starts.
    pub open spec fn starts(self, preparing: Seq<char>, now: u64, usual: u64) -> Option<
        ToastTimer,
    > {
        let toast = self.noticed();
        if self.slot.message is Some && !toast.dismissing && toast.timer is None
            && self.slot.message != Some(preparing) && toast.stay(now, usual) > 0 {
            Some(
                ToastTimer {
                    token: toast.generation.wrapping_add(1),
                    nanos: toast.stay(now, usual) as u64,
                },
            )
        } else {
            None
        }
    }

    /// A timer ran out: the message goes, unless the timer was replaced.
    pub open spec fn timer_ran_out(self, token: u64) -> Self {
        if self.toast.timer == Some(token) {
            toasting(self.slot, ToastModel { dismissing: true, ..self.toast })
        } else {
            self
        }
    }

    /// The message has gone, unless the timer was replaced: it is cleared.
    pub open spec fn has_gone(self, token: u64) -> Self {
        if self.toast.timer == Some(token) {
            toasting(
                SlotModel::cleared(),
                ToastModel {
                    dismissing: false,
                    actions: None,
                    expiry: None,
                    ..self.toast
                },
            )
        } else {
            self
        }
    }
}

impl ToastSlot {
    /// No message.
    pub fn new() -> (r: Self)
        ensures
            r@ == SlotModel::cleared(),
    {
        ToastSlot { message: None, is_warning: false }
    }

    /// Clears the message.
    pub fn clear_toast(&mut self)
        ensures
            final(self)@ == SlotModel::cleared(),
    {
        self.message = None;
        self.is_warning = false;
    }

    /// Puts another message in place of this one.
    pub fn say(&mut self, message: String)
        ensures
            final(self)@ == old(self)@.saying(message@),
    {
        self.message = Some(message);
    }

    /// Puts a warning in place of this message.
    pub fn warn(&mut self, message: String)
        ensures
            final(self)@ == SlotModel::warning(message@),
    {
        self.message = Some(message);
        self.is_warning = true;
    }
}

impl ToastState {
    /// No message was shown yet.
    pub fn new() -> (r: Self)
        ensures
            r@ == (ToastModel {
                generation: 0,
                dismissing: false,
                timer: None,
                actions: None,
                expiry: None,
                last_message: None,
            }),
    {
        ToastState {
            generation: 0,
            dismissing: false,
            timer: None,
            actions: None,
            expiry: None,
            last_message: None,
        }
    }

    /// Drops the timer and lets the message stay.
    pub fn hold(&mut self)
        ensures
            final(self)@ == old(self)@.held(),
    {
        self.timer = None;
        self.dismissing = false;
    }

    /// Offers other buttons until another end.
    pub fn offer(&mut self, actions: Option<ToastButtons>, expiry: Option<u64>)
        ensures
            final(self)@ == old(self)@.offering(actions, expiry),
    {
        self.actions = actions;
        self.expiry = expiry;
    }

    /// Drops the message with all that belongs to it.
    pub fn drop_toast(&mut self, slot: &mut ToastSlot)
        ensures
            toasting(final(slot)@, final(self)@) == toasting(old(slot)@, old(self)@).drop_toast(),
    {
        self.timer = None;
        self.expiry = None;
        self.actions = None;
        slot.clear_toast();
    }

    /// Drops the message, if it is about an update.
    pub fn drop_update_toast(&mut self, slot: &mut ToastSlot)
        ensures
            toasting(final(slot)@, final(self)@) == toasting(
                old(slot)@,
                old(self)@,
            ).drop_update_toast(),
    {
        if self.actions.is_some() {
            self.drop_toast(slot);
        }
    }

    /// Brings the message one step further. The result is a timer to start;
    /// `preparing` is the message that waits for a bitmap, `usual` is how long a
    /// message is shown otherwise.
    pub fn advance(&mut self, slot: &ToastSlot, preparing: &str, now: u64, usual: u64) -> (r:
        Option<ToastTimer>)
        requires
            now + usual <= u64::MAX,
        ensures
            final(self)@ == toasting(slot@, old(self)@).advanced(preparing@, now, usual),
            r == toasting(slot@, old(self)@).starts(preparing@, now, usual),
    {
        let is_new = !same_text(&slot.message, &self.last_message);
        if is_new {
            self.hold();
        }
        self.last_message = copy_text(&slot.message);
        assert(self@ == toasting(slot@, old(self)@).noticed());
        if slot.message.is_none() {
            self.hold();
            return None;
        }
        if self.dismissing || self.timer.is_some() {
            return None;
        }
        if says(&slot.message, preparing) {
            if is_new {
                self.generation = self.generation.wrapping_add(1);
            }
            self.expiry = None;
            self.actions = None;
            return None;
        }
        let expiry: u64 = match self.expiry {
            Some(at) => at,
            None => now + usual,
        };
        if expiry <= now || expiry - now <= TOAST_ANIM_NANOS {
            return None;
        }
        let nanos: u64 = expiry - now - TOAST_ANIM_NANOS;
        self.generation = self.generation.wrapping_add(1);
        let token: u64 = self.generation;
        self.timer = Some(token);
        Some(ToastTimer { token, nanos })
    }

    /// Handles the end of a timer. Says whether the message goes, so that after
    /// `TOAST_CLEANUP_NANOS` it is to be cleared.
    pub fn timer_elapsed(&mut self, slot: &ToastSlot, token: u64) -> (r: bool)
        ensures
            r == (old(self)@.timer == Some(token)),
            toasting(slot@, final(self)@) == toasting(slot@, old(self)@).timer_ran_out(token),
    {
        match self.timer {
            Some(current) => {
                if current == token {
                    self.dismissing = true;
                    true
                } else {
                    false
                }
            },
            None => false,
        }
    }

    /// Clears a message that has gone.
    pub fn finish(&mut self, slot: &mut ToastSlot, token: u64)
        ensures
            toasting(final(slot)@, final(self)@) == toasting(old(slot)@, old(self)@).has_gone(
                token,
            ),
    {
        if let Some(current) = self.timer {
            if current == token {
                slot.clear_toast();
                self.dismissing = false;
                self.actions = None;
                self.expiry = None;
            }
        }
    }

    /// Whether the message is to be painted: while there is one, and while it
    /// goes.
    pub fn is_painted(&self, slot: &ToastSlot) -> (r: bool)
        ensures
            r == toasting(slot@, self@).is_painted(),
    {
        slot.message.is_some() || self.dismissing
    }

    /// Whether the message is to be fully visible.
    pub fn is_in_place(&self, slot: &ToastSlot) -> (r: bool)
        ensures
            r == toasting(slot@, self@).is_in_place(),
    {
        slot.message.is_some() && !self.dismissing
    }

    /// The buttons of the message.
    pub fn buttons(&self) -> (r: ToastButtons)
        ensures
            r == self@.shown_buttons(),
    {
        match self.actions {
            Some(actions) => actions,
            None => ToastButtons::Nothing,
        }
    }
}

/// A message has one timer at a time: where a step has started one, no later
/// step starts another for the same message.
pub proof fn law_one_timer_at_a_time(
    pair: ToastPair,
    preparing: Seq<char>,
    now: u64,
    later: u64,
    usual: u64,
)
    requires
        pair.starts(preparing, now, usual) is Some,
    ensures
        ({
            let after = toasting(pair.slot, pair.advanced(preparing, now, usual));
            &&& after.starts(preparing, later, usual) is None
            &&& after.advanced(preparing, later, usual) == after.toast
        }),
{
}

/// A new message cancels the timer of the one before: when that timer runs out,
/// nothing happens.
pub proof fn law_new_message_cancels_the_timer(
    pair: ToastPair,
    message: Seq<char>,
    token: u64,
    preparing: Seq<char>,
    now: u64,
    usual: u64,
)
    requires
        pair.toast.timer == Some(token),
        token == pair.toast.generation,
        pair.toast.last_message != Some(message),
    ensures
        ({
            let said = toasting(pair.slot.saying(message), pair.toast);
            let after = toasting(said.slot, said.advanced(preparing, now, usual));
            &&& after.timer_ran_out(token) == after
            &&& after.has_gone(token) == after
        }),
{
}

/// A message that is about a bitmap in preparation stays until it is replaced.
pub proof fn law_preparing_message_stays(
    pair: ToastPair,
    preparing: Seq<char>,
    now: u64,
    usual: u64,
)
    requires
        pair.slot.message == Some(preparing),
        pair.toast.last_message != Some(preparing),
    ensures
        pair.starts(preparing, now, usual) is None,
        pair.advanced(preparing, now, usual).timer is None,
{
}

/// A message that has gone leaves nothing behind.
pub proof fn law_gone_message_leaves_nothing(pair: ToastPair, token: u64)
    requires
        pair.toast.timer == Some(token),
    ensures
        pair.timer_ran_out(token).has_gone(token).slot.message is None,
        !pair.timer_ran_out(token).has_gone(token).toast.dismissing,
        pair.timer_ran_out(token).has_gone(token).toast.actions is None,
{
}

} // verus!
