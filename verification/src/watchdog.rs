//! The redirect watchdog of one window: a [`Detector`] for the page that is
//! shown and a [`RetryScheduler`] for the rechecks, kept together so that
//! what detection finds reaches the scheduler.
//!
//! The shell calls in when a page has loaded, when a settle delay has
//! passed, when the periodic clock ticks and when the page reports a
//! snapshot. It performs what comes back and decides nothing itself.

use crate::detector::{
    outcome, Detection, DetectionView, Detector, DetectorConfig, DetectorView, PageSnapshot,
    PageView,
};
use crate::scheduler::{
    detection_report, initial, location_changed, next, Directive, Message, RetryScheduler,
    SchedulerView,
};
use vstd::prelude::*;

verus! {

/// The watchdog of one window session.
#[derive(Debug)]
pub struct Watchdog {
    detector: Detector,
    scheduler: RetryScheduler,
}

/// The mathematical model of a [`Watchdog`].
pub struct WatchdogView {
    pub detector: DetectorView,
    pub scheduler: SchedulerView,
}

impl View for Watchdog {
    type V = WatchdogView;

    closed spec fn view(&self) -> WatchdogView {
        WatchdogView { detector: self.detector@, scheduler: self.scheduler@ }
    }
}

/// A page has loaded at `url`: a new page instance begins, which may
/// redirect once, and the scheduler is told of the change of location.
pub open spec fn after_load(w: WatchdogView, url: Seq<char>) -> (WatchdogView, Directive) {
    let msg = Message::NavigationChanged { on_target: w.detector.config.target.matches(url) };
    (
        WatchdogView {
            detector: DetectorView { config: w.detector.config, redirected: false },
            scheduler: next(w.scheduler, msg).0,
        },
        next(w.scheduler, msg).1,
    )
}

/// The scheduler takes a message of a clock; the detector stays as it is.
pub open spec fn after_clock(w: WatchdogView, msg: Message) -> (WatchdogView, Directive) {
    (
        WatchdogView { detector: w.detector, scheduler: next(w.scheduler, msg).0 },
        next(w.scheduler, msg).1,
    )
}

/// The page has reported a snapshot: detection runs on it, and the
/// scheduler is told whether the target page was found.
pub open spec fn after_report(w: WatchdogView, page: PageView) -> (WatchdogView, DetectionView) {
    let (detector, found) = outcome(w.detector, page);
    let msg = Message::Detected { on_target: found.class is OnTarget };
    (WatchdogView { detector, scheduler: next(w.scheduler, msg).0 }, found)
}

impl Watchdog {
    /// The watchdog at the start of a window session, with a budget of
    /// `budget` periodic ticks.
    pub fn new(config: DetectorConfig, budget: u32) -> (w: Watchdog)
        ensures
            w@ == (WatchdogView {
                detector: DetectorView { config: config@, redirected: false },
                scheduler: initial(budget as nat),
            }),
    {
        Watchdog { detector: Detector::new(config), scheduler: RetryScheduler::new(budget) }
    }

    /// The detector of the page that is shown.
    pub fn detector(&self) -> (d: &Detector)
        ensures
            d@ == self@.detector,
    {
        &self.detector
    }

    /// The scheduler of the rechecks.
    pub fn scheduler(&self) -> (s: &RetryScheduler)
        ensures
            s@ == self@.scheduler,
    {
        &self.scheduler
    }

    /// A page has loaded at `url`; see [`after_load`]. The answer is always
    /// `Settle`: the recheck runs when the settle delay has passed.
    pub fn page_loaded(&mut self, url: &str) -> (directive: Directive)
        ensures
            (final(self)@, directive) == after_load(old(self)@, url@),
            directive == Directive::Settle,
    {
        let msg = location_changed(self.detector.config(), url);
        self.detector.begin_page();
        self.scheduler.step(msg)
    }

    /// The settle delay after a page load has passed: says whether
    /// detection is to run.
    pub fn settled(&mut self) -> (directive: Directive)
        ensures
            (final(self)@, directive) == after_clock(old(self)@, Message::Settled),
    {
        self.scheduler.step(Message::Settled)
    }

    /// The periodic clock has ticked: says whether detection is to run, or
    /// whether the clock is to stop.
    pub fn tick(&mut self) -> (directive: Directive)
        ensures
            (final(self)@, directive) == after_clock(old(self)@, Message::Tick),
    {
        self.scheduler.step(Message::Tick)
    }

    /// The page has reported a snapshot; see [`after_report`]. The answer
    /// holds the steps that the page is to perform.
    pub fn report(&mut self, page: &PageSnapshot) -> (found: Detection)
        ensures
            (final(self)@, found@) == after_report(old(self)@, page@),
    {
        let found = self.detector.detect(page);
        let msg = detection_report(&found);
        self.scheduler.step(msg);
        found
    }
}

/// As soon as the target page is seen, by a page load or by a report, the
/// periodic clock is stopped at its next tick and no recheck is asked for
/// when the settle delay has passed.
pub proof fn lemma_target_seen_stops_rechecks(w: WatchdogView, url: Seq<char>, page: PageView)
    requires
        w.detector.config.target.matches(url),
        page.url == url,
    ensures
        after_clock(after_load(w, url).0, Message::Tick).1 == Directive::Stop,
        after_clock(after_load(w, url).0, Message::Settled).1 == Directive::Skip,
        after_clock(after_report(w, page).0, Message::Tick).1 == Directive::Stop,
        after_clock(after_report(w, page).0, Message::Settled).1 == Directive::Skip,
{
}

/// Nothing that reaches the watchdog changes what it was told about the
/// site or the budget of its periodic clock.
pub proof fn lemma_configuration_is_kept(
    w: WatchdogView,
    url: Seq<char>,
    page: PageView,
    msg: Message,
)
    ensures
        after_load(w, url).0.detector.config == w.detector.config,
        after_load(w, url).0.scheduler.budget == w.scheduler.budget,
        after_clock(w, msg).0.detector == w.detector,
        after_clock(w, msg).0.scheduler.budget == w.scheduler.budget,
        after_report(w, page).0.detector.config == w.detector.config,
        after_report(w, page).0.scheduler.budget == w.scheduler.budget,
{
}

/// A report never uses up the budget of the periodic clock and never
/// stops it: only ticks do.
pub proof fn lemma_reports_leave_the_clock_alone(w: WatchdogView, page: PageView)
    ensures
        after_report(w, page).0.scheduler.used == w.scheduler.used,
        after_report(w, page).0.scheduler.stopped == w.scheduler.stopped,
        after_report(w, page).0.scheduler.rechecking == w.scheduler.rechecking,
{
}

} // verus!
