//! The coordinator that decides when detection runs again.
//!
//! Two sources ask for a recheck: a change of location, which is looked at
//! after a settle delay, and a periodic tick. Both send a [`Message`] to one
//! [`RetryScheduler`], which answers with a [`Directive`]. The shell keeps
//! the clocks: it waits out the settle delay, sends the ticks and runs
//! detection where it is told to.
//!
//! The periodic source has a budget of ticks and stops for good when the
//! budget is spent or the target is reached. The location source has no
//! budget.

use crate::detector::{Detection, DetectorConfig, PageClass};
use vstd::prelude::*;

verus! {

/// What the trigger sources share.
#[derive(Clone, Copy, Debug, PartialEq, Eq, Structural)]
pub struct NavigationState {
    /// The location has changed and its recheck has not run yet.
    pub rechecking: bool,
    /// The target page has been reached. Once true, it stays true.
    pub on_target: bool,
}

/// What a trigger source reports.
#[derive(Clone, Copy, Debug, PartialEq, Eq, Structural)]
pub enum Message {
    /// The location has changed; `on_target` says whether the new URL is a
    /// target URL.
    NavigationChanged { on_target: bool },
    /// The settle delay after a change of location has passed.
    Settled,
    /// The periodic clock has ticked.
    Tick,
    /// Detection has run; `on_target` says whether it found the target page.
    Detected { on_target: bool },
}

/// What the shell is to do about a message.
#[derive(Clone, Copy, Debug, PartialEq, Eq, Structural)]
pub enum Directive {
    /// Wait out the settle delay, then send [`Message::Settled`].
    Settle,
    /// Run detection now.
    Recheck,
    /// Do nothing.
    Skip,
    /// Do nothing, and send no more ticks.
    Stop,
}

/// The coordinator of one window session.
#[derive(Debug)]
pub struct RetryScheduler {
    state: NavigationState,
    budget: u32,
    used: u32,
    stopped: bool,
}

/// The mathematical model of a [`RetryScheduler`].
pub struct SchedulerView {
    /// The location has changed and its recheck has not run yet.
    pub rechecking: bool,
    /// The target page has been reached.
    pub on_target: bool,
    /// How many ticks may be served in all.
    pub budget: nat,
    /// How many ticks have been served.
    pub used: nat,
    /// The periodic source has been told to stop.
    pub stopped: bool,
}

impl SchedulerView {
    /// No more ticks have been served than the budget allows.
    pub open spec fn wf(self) -> bool {
        self.used <= self.budget
    }
}

impl View for RetryScheduler {
    type V = SchedulerView;

    closed spec fn view(&self) -> SchedulerView {
        SchedulerView {
            rechecking: self.state.rechecking,
            on_target: self.state.on_target,
            budget: self.budget as nat,
            used: self.used as nat,
            stopped: self.stopped,
        }
    }
}

/// The scheduler at the start of a window session.
pub open spec fn initial(budget: nat) -> SchedulerView {
    SchedulerView { rechecking: false, on_target: false, budget, used: 0, stopped: false }
}

/// The state that follows `s` on `msg`, and the directive for the shell.
///
/// - A change of location marks a recheck as pending and asks for the settle
///   delay; a target URL marks the target as reached.
/// - When the delay has passed, detection runs unless the target has been
///   reached, and the pending mark is cleared. No budget applies.
/// - A tick is answered with `Stop` once the periodic source has stopped,
///   the target has been reached or the budget is spent. Any other tick
///   uses up one unit of the budget; detection runs unless a recheck is
///   pending.
/// - A detection that found the target page marks the target as reached.
pub open spec fn next(s: SchedulerView, msg: Message) -> (SchedulerView, Directive) {
    match msg {
        Message::NavigationChanged { on_target } => (
            SchedulerView { rechecking: true, on_target: s.on_target || on_target, ..s },
            Directive::Settle,
        ),
        Message::Settled => (
            SchedulerView { rechecking: false, ..s },
            if s.on_target {
                Directive::Skip
            } else {
                Directive::Recheck
            },
        ),
        Message::Tick => if s.stopped {
            (s, Directive::Stop)
        } else if s.on_target || s.used >= s.budget {
            (SchedulerView { stopped: true, ..s }, Directive::Stop)
        } else {
            (
                SchedulerView { used: s.used + 1, ..s },
                if s.rechecking {
                    Directive::Skip
                } else {
                    Directive::Recheck
                },
            )
        },
        Message::Detected { on_target } => (
            SchedulerView { on_target: s.on_target || on_target, ..s },
            Directive::Skip,
        ),
    }
}

/// The state after a series of messages.
pub open spec fn run(s: SchedulerView, msgs: Seq<Message>) -> SchedulerView
    decreases msgs.len(),
{
    if msgs.len() == 0 {
        s
    } else {
        run(next(s, msgs.first()).0, msgs.drop_first())
    }
}

/// How many ticks of a series of messages are answered with `Recheck`.
pub open spec fn tick_rechecks(s: SchedulerView, msgs: Seq<Message>) -> nat
    decreases msgs.len(),
{
    if msgs.len() == 0 {
        0
    } else {
        let (after, directive) = next(s, msgs.first());
        let here: nat = if msgs.first() is Tick && directive is Recheck {
            1
        } else {
            0
        };
        here + tick_rechecks(after, msgs.drop_first())
    }
}

/// How many ticks of a series of messages are answered with anything but
/// `Stop`.
pub open spec fn ticks_served(s: SchedulerView, msgs: Seq<Message>) -> nat
    decreases msgs.len(),
{
    if msgs.len() == 0 {
        0
    } else {
        let (after, directive) = next(s, msgs.first());
        let here: nat = if msgs.first() is Tick && !(directive is Stop) {
            1
        } else {
            0
        };
        here + ticks_served(after, msgs.drop_first())
    }
}

impl RetryScheduler {
    /// The scheduler at the start of a window session, with a budget of
    /// `budget` ticks.
    pub fn new(budget: u32) -> (s: RetryScheduler)
        ensures
            s@ == initial(budget as nat),
    {
        RetryScheduler {
            state: NavigationState { rechecking: false, on_target: false },
            budget,
            used: 0,
            stopped: false,
        }
    }

    /// What the trigger sources share.
    pub fn navigation_state(&self) -> (state: NavigationState)
        ensures
            state.rechecking == self@.rechecking,
            state.on_target == self@.on_target,
    {
        self.state
    }

    /// How many ticks may be served in all.
    pub fn budget(&self) -> (n: u32)
        ensures
            n == self@.budget,
    {
        self.budget
    }

    /// How many ticks have been served.
    pub fn ticks_used(&self) -> (n: u32)
        ensures
            n == self@.used,
    {
        self.used
    }

    /// Whether the periodic source has been told to stop.
    pub fn has_stopped(&self) -> (b: bool)
        ensures
            b == self@.stopped,
    {
        self.stopped
    }

    /// Takes one message and says what the shell is to do; see [`next`].
    pub fn step(&mut self, msg: Message) -> (directive: Directive)
        ensures
            (final(self)@, directive) == next(old(self)@, msg),
    {
        match msg {
            Message::NavigationChanged { on_target } => {
                self.state.rechecking = true;
                self.state.on_target = self.state.on_target || on_target;
                Directive::Settle
            },
            Message::Settled => {
                self.state.rechecking = false;
                if self.state.on_target {
                    Directive::Skip
                } else {
                    Directive::Recheck
                }
            },
            Message::Tick => {
                if self.stopped {
                    Directive::Stop
                } else if self.state.on_target || self.used >= self.budget {
                    self.stopped = true;
                    Directive::Stop
                } else {
                    self.used = self.used + 1;
                    if self.state.rechecking {
                        Directive::Skip
                    } else {
                        Directive::Recheck
                    }
                }
            },
            Message::Detected { on_target } => {
                self.state.on_target = self.state.on_target || on_target;
                Directive::Skip
            },
        }
    }
}

/// The message for a change of location to `url`.
pub fn location_changed(config: &DetectorConfig, url: &str) -> (msg: Message)
    ensures
        msg == (Message::NavigationChanged { on_target: config@.target.matches(url@) }),
{
    Message::NavigationChanged { on_target: config.target.matches(url) }
}

/// The message for a detection that has run.
pub fn detection_report(found: &Detection) -> (msg: Message)
    ensures
        msg == (Message::Detected { on_target: found@.class is OnTarget }),
{
    match found.class {
        PageClass::OnTarget => Message::Detected { on_target: true },
        _ => Message::Detected { on_target: false },
    }
}

/// A scheduler never serves more ticks than its budget allows: the start is
/// within the budget and every message keeps it so.
pub proof fn lemma_budget_is_kept(s: SchedulerView, msg: Message, budget: nat)
    ensures
        initial(budget).wf(),
        s.wf() ==> next(s, msg).0.wf(),
        next(s, msg).0.budget == s.budget,
        next(s, msg).0.used >= s.used,
{
}

/// Once the target has been reached it stays reached, whatever messages
/// follow.
pub proof fn lemma_on_target_is_monotonic(s: SchedulerView, msgs: Seq<Message>)
    requires
        s.on_target,
    ensures
        run(s, msgs).on_target,
    decreases msgs.len(),
{
    if msgs.len() > 0 {
        lemma_on_target_is_monotonic(next(s, msgs.first()).0, msgs.drop_first());
    }
}

/// Over any series of messages the periodic source is served at most as
/// many ticks as its budget has left, and so asks for at most that many
/// rechecks, whether or not the target is ever reached.
pub proof fn lemma_budget_bounds_rechecks(s: SchedulerView, msgs: Seq<Message>)
    requires
        s.wf(),
    ensures
        tick_rechecks(s, msgs) <= ticks_served(s, msgs),
        ticks_served(s, msgs) <= s.budget - s.used,
    decreases msgs.len(),
{
    if msgs.len() > 0 {
        lemma_budget_bounds_rechecks(next(s, msgs.first()).0, msgs.drop_first());
    }
}

/// From the start of a window session the periodic source asks for at most
/// `budget` rechecks, whatever messages arrive and in whatever order.
pub proof fn lemma_session_rechecks_within_budget(budget: nat, msgs: Seq<Message>)
    ensures
        tick_rechecks(initial(budget), msgs) <= budget,
{
    lemma_budget_bounds_rechecks(initial(budget), msgs);
}

/// Once the target has been reached every tick is answered with `Stop`: the
/// periodic source asks for no further recheck, however much of its budget
/// is left.
pub proof fn lemma_on_target_stops_ticks(s: SchedulerView, msgs: Seq<Message>)
    requires
        s.on_target,
    ensures
        next(s, Message::Tick).1 == Directive::Stop,
        ticks_served(s, msgs) == 0,
        tick_rechecks(s, msgs) == 0,
    decreases msgs.len(),
{
    if msgs.len() > 0 {
        lemma_on_target_stops_ticks(next(s, msgs.first()).0, msgs.drop_first());
    }
}

/// The periodic source stops for good: after one tick was answered with
/// `Stop`, every later tick is.
pub proof fn lemma_stop_is_permanent(s: SchedulerView, msgs: Seq<Message>)
    requires
        s.stopped,
    ensures
        run(s, msgs).stopped,
        next(s, Message::Tick).1 == Directive::Stop,
        ticks_served(s, msgs) == 0,
        tick_rechecks(s, msgs) == 0,
    decreases msgs.len(),
{
    if msgs.len() > 0 {
        lemma_stop_is_permanent(next(s, msgs.first()).0, msgs.drop_first());
    }
}

/// A tick answered with `Stop` leaves the periodic source stopped.
pub proof fn lemma_stop_marks_stopped(s: SchedulerView)
    ensures
        next(s, Message::Tick).1 == Directive::Stop ==> next(s, Message::Tick).0.stopped,
{
}

} // verus!
