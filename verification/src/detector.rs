//! Page-state detection and the one-shot redirect.
//!
//! The page hands over a [`PageSnapshot`]: its URL and the outcome of three
//! guarded checks (the persisted flag, a search input, a navigation element).
//! A [`Detector`] classifies the snapshot and answers with the steps that the
//! page is to perform. Within one page instance the redirect is answered at
//! most once, however often detection runs.

use crate::pattern::{any_matches, matches_any, patterns_view, PatternView, UrlPattern};
use vstd::prelude::*;

verus! {

/// The outcome of one guarded check in the page.
#[derive(Clone, Copy, Debug, PartialEq, Eq, Structural)]
pub enum Probe {
    /// The check ran and found what it looks for.
    Present,
    /// The check ran and found nothing.
    Absent,
    /// The check could not run (a missing element, storage that refuses
    /// access). A failed check counts as one that found nothing.
    Failed,
}

impl Probe {
    /// The check found what it looks for.
    pub open spec fn holds(self) -> bool {
        self is Present
    }

    /// The probe for a check that answered `true` or `false`, or gave no
    /// answer because it could not run.
    pub open spec fn of_check(answer: Option<bool>) -> Probe {
        match answer {
            Some(true) => Probe::Present,
            Some(false) => Probe::Absent,
            None => Probe::Failed,
        }
    }

    /// The probe for a check that answered `true` or `false`, or gave no
    /// answer because it could not run.
    pub fn from_check(answer: Option<bool>) -> (probe: Probe)
        ensures
            probe == Probe::of_check(answer),
    {
        match answer {
            Some(true) => Probe::Present,
            Some(false) => Probe::Absent,
            None => Probe::Failed,
        }
    }

    /// Whether the check found what it looks for.
    pub fn is_present(self) -> (b: bool)
        ensures
            b == self.holds(),
    {
        match self {
            Probe::Present => true,
            _ => false,
        }
    }
}

/// What the page looks like at one moment.
#[derive(Debug)]
pub struct PageSnapshot {
    /// The current URL.
    pub url: String,
    /// The persisted flag "the user has reached the target before".
    pub flag: Probe,
    /// A recognisable search input.
    pub search_input: Probe,
    /// A recognisable navigation or header element.
    pub nav_element: Probe,
}

/// The mathematical model of a [`PageSnapshot`]: each check is reduced to
/// whether it found something.
pub struct PageView {
    pub url: Seq<char>,
    pub flagged: bool,
    pub search_input: bool,
    pub nav_element: bool,
}

impl View for PageSnapshot {
    type V = PageView;

    open spec fn view(&self) -> PageView {
        PageView {
            url: self.url@,
            flagged: self.flag.holds(),
            search_input: self.search_input.holds(),
            nav_element: self.nav_element.holds(),
        }
    }
}

/// What a detector is told about the site.
#[derive(Debug)]
pub struct DetectorConfig {
    /// The URLs of the target page.
    pub target: UrlPattern,
    /// The URL that a redirect navigates to.
    pub target_url: String,
    /// The URLs of the home page.
    pub home: Vec<UrlPattern>,
    /// The URLs of the sign-in, login and registration pages.
    pub auth: Vec<UrlPattern>,
}

/// The mathematical model of a [`DetectorConfig`].
pub struct ConfigView {
    pub target: PatternView,
    pub target_url: Seq<char>,
    pub home: Seq<PatternView>,
    pub auth: Seq<PatternView>,
}

impl ConfigView {
    /// The URL that a redirect navigates to is itself a target URL, so a
    /// redirect is never followed by another.
    pub open spec fn lands_on_target(self) -> bool {
        self.target.matches(self.target_url)
    }
}

impl View for DetectorConfig {
    type V = ConfigView;

    open spec fn view(&self) -> ConfigView {
        ConfigView {
            target: self.target@,
            target_url: self.target_url@,
            home: patterns_view(self.home@),
            auth: patterns_view(self.auth@),
        }
    }
}

/// The signal by which a page was recognised as the home page.
#[derive(Clone, Copy, Debug, PartialEq, Eq, Structural)]
pub enum HomeSignal {
    /// The URL is one of the home URLs.
    HomeUrl,
    /// The page holds a search input.
    SearchInput,
    /// The page holds a navigation element and is no sign-in page.
    NavElement,
}

/// What detection takes a page for.
#[derive(Clone, Copy, Debug, PartialEq, Eq, Structural)]
pub enum PageClass {
    /// The page is the target page.
    OnTarget,
    /// The page is not the target page and the persisted flag is set: the
    /// user has been on the target before.
    Returning,
    /// The page is the home page, recognised by the given signal.
    Home(HomeSignal),
    /// No signal matched.
    Unknown,
}

/// One thing that the page is to do.
#[derive(Debug, PartialEq, Eq)]
pub enum Step {
    /// Set the persisted flag.
    SetFlag,
    /// Navigate to the given URL.
    Navigate(String),
}

/// The mathematical model of a [`Step`].
pub enum StepView {
    SetFlag,
    Navigate(Seq<char>),
}

impl View for Step {
    type V = StepView;

    open spec fn view(&self) -> StepView {
        match self {
            Step::SetFlag => StepView::SetFlag,
            Step::Navigate(url) => StepView::Navigate(url@),
        }
    }
}

/// The models of a list of steps, in the same order.
pub open spec fn steps_view(steps: Seq<Step>) -> Seq<StepView> {
    Seq::new(steps.len(), |i: int| steps[i]@)
}

/// The answer to one run of detection.
#[derive(Debug)]
pub struct Detection {
    /// What the page was taken for.
    pub class: PageClass,
    /// What the page is to do, in this order. Empty where nothing is to be
    /// done.
    pub steps: Vec<Step>,
    /// Whether the manual "go to target" control is to be shown.
    pub fallback_visible: bool,
}

/// The mathematical model of a [`Detection`].
pub struct DetectionView {
    pub class: PageClass,
    pub steps: Seq<StepView>,
    pub fallback_visible: bool,
}

impl View for Detection {
    type V = DetectionView;

    open spec fn view(&self) -> DetectionView {
        DetectionView {
            class: self.class,
            steps: steps_view(self.steps@),
            fallback_visible: self.fallback_visible,
        }
    }
}

/// The detector of one page instance.
#[derive(Debug)]
pub struct Detector {
    config: DetectorConfig,
    redirected: bool,
}

/// The mathematical model of a [`Detector`].
pub struct DetectorView {
    pub config: ConfigView,
    /// The redirect has been answered in this page instance.
    pub redirected: bool,
}

impl View for Detector {
    type V = DetectorView;

    closed spec fn view(&self) -> DetectorView {
        DetectorView { config: self.config@, redirected: self.redirected }
    }
}

/// What a page is taken for. The rules apply in this order and the first
/// that holds decides:
/// the URL is a target URL; the persisted flag is set; the URL is a home URL;
/// a search input is present; a navigation element is present and the URL is
/// no sign-in URL.
pub open spec fn classification(cfg: ConfigView, page: PageView) -> PageClass {
    if cfg.target.matches(page.url) {
        PageClass::OnTarget
    } else if page.flagged {
        PageClass::Returning
    } else if any_matches(cfg.home, page.url) {
        PageClass::Home(HomeSignal::HomeUrl)
    } else if page.search_input {
        PageClass::Home(HomeSignal::SearchInput)
    } else if page.nav_element && !any_matches(cfg.auth, page.url) {
        PageClass::Home(HomeSignal::NavElement)
    } else {
        PageClass::Unknown
    }
}

/// A page of this class is to be left for the target page.
pub open spec fn calls_for_redirect(class: PageClass) -> bool {
    class is Returning || class is Home
}

/// The redirect: set the persisted flag, then navigate to the target URL.
pub open spec fn redirect_steps(cfg: ConfigView) -> Seq<StepView> {
    seq![StepView::SetFlag, StepView::Navigate(cfg.target_url)]
}

/// One run of detection: the detector afterwards, and the answer.
///
/// The redirect is answered where the page calls for it and this page
/// instance has not answered it before. The manual control is shown on every
/// page but the target page.
pub open spec fn outcome(d: DetectorView, page: PageView) -> (DetectorView, DetectionView) {
    let class = classification(d.config, page);
    let fires = calls_for_redirect(class) && !d.redirected;
    (
        DetectorView { config: d.config, redirected: d.redirected || fires },
        DetectionView {
            class,
            steps: if fires {
                redirect_steps(d.config)
            } else {
                Seq::empty()
            },
            fallback_visible: !(class is OnTarget),
        },
    )
}

/// How many of the steps navigate.
pub open spec fn navigations(steps: Seq<StepView>) -> nat
    decreases steps.len(),
{
    if steps.len() == 0 {
        0
    } else {
        navigations(steps.drop_last()) + if steps.last() is Navigate {
            1nat
        } else {
            0nat
        }
    }
}

/// How many navigations a page instance answers over a series of detection
/// runs, one run for each snapshot.
pub open spec fn navigations_over(d: DetectorView, pages: Seq<PageView>) -> nat
    decreases pages.len(),
{
    if pages.len() == 0 {
        0
    } else {
        let (after, found) = outcome(d, pages.first());
        navigations(found.steps) + navigations_over(after, pages.drop_first())
    }
}

impl DetectorConfig {
    /// Whether the URL that a redirect navigates to is itself a target URL.
    pub fn lands_on_target(&self) -> (b: bool)
        ensures
            b == self@.lands_on_target(),
    {
        self.target.matches(self.target_url.as_str())
    }
}

/// What a page is taken for; see [`classification`].
pub fn classify(config: &DetectorConfig, page: &PageSnapshot) -> (class: PageClass)
    ensures
        class == classification(config@, page@),
{
    let url = page.url.as_str();
    if config.target.matches(url) {
        PageClass::OnTarget
    } else if page.flag.is_present() {
        PageClass::Returning
    } else if matches_any(&config.home, url) {
        PageClass::Home(HomeSignal::HomeUrl)
    } else if page.search_input.is_present() {
        PageClass::Home(HomeSignal::SearchInput)
    } else if page.nav_element.is_present() && !matches_any(&config.auth, url) {
        PageClass::Home(HomeSignal::NavElement)
    } else {
        PageClass::Unknown
    }
}

impl Detector {
    /// The detector of a page instance that has not redirected.
    pub fn new(config: DetectorConfig) -> (d: Detector)
        ensures
            d@ == (DetectorView { config: config@, redirected: false }),
    {
        Detector { config, redirected: false }
    }

    /// What this detector was told about the site.
    pub fn config(&self) -> (config: &DetectorConfig)
        ensures
            config@ == self@.config,
    {
        &self.config
    }

    /// Whether the redirect has been answered in this page instance.
    pub fn has_redirected(&self) -> (b: bool)
        ensures
            b == self@.redirected,
    {
        self.redirected
    }

    /// Starts over for a new page instance: the redirect may be answered
    /// once more.
    pub fn begin_page(&mut self)
        ensures
            final(self)@ == (DetectorView { config: old(self)@.config, redirected: false }),
    {
        self.redirected = false;
    }

    /// Runs detection on one snapshot; see [`outcome`].
    pub fn detect(&mut self, page: &PageSnapshot) -> (found: Detection)
        ensures
            (final(self)@, found@) == outcome(old(self)@, page@),
    {
        let class = classify(&self.config, page);
        let calls = match class {
            PageClass::Returning | PageClass::Home(_) => true,
            _ => false,
        };
        let on_target = match class {
            PageClass::OnTarget => true,
            _ => false,
        };
        let mut steps: Vec<Step> = Vec::new();
        if calls && !self.redirected {
            steps.push(Step::SetFlag);
            steps.push(Step::Navigate(self.config.target_url.clone()));
            self.redirected = true;
            assert(steps_view(steps@) =~= redirect_steps(self.config@));
        } else {
            assert(steps_view(steps@) =~= Seq::empty());
        }
        Detection { class, steps, fallback_visible: !on_target }
    }
}

/// On a target URL detection finds the target page, answers no step and
/// leaves the detector as it was, whatever the flag, the signals and the
/// detector's past.
pub proof fn lemma_target_never_redirects(d: DetectorView, page: PageView)
    requires
        d.config.target.matches(page.url),
    ensures
        outcome(d, page).1.class == PageClass::OnTarget,
        outcome(d, page).1.steps == Seq::<StepView>::empty(),
        navigations(outcome(d, page).1.steps) == 0,
        outcome(d, page).0 == d,
{
}

/// Where the redirect lands on the target, no redirect is answered on the
/// page that it leads to: redirects do not chain.
pub proof fn lemma_redirects_do_not_chain(d: DetectorView, page: PageView)
    requires
        d.config.lands_on_target(),
        page.url == d.config.target_url,
    ensures
        outcome(d, page).1.class == PageClass::OnTarget,
        outcome(d, page).1.steps == Seq::<StepView>::empty(),
{
}

/// The redirect navigates exactly once, after it has set the flag.
pub proof fn lemma_redirect_sets_flag_then_navigates(cfg: ConfigView)
    ensures
        redirect_steps(cfg).len() == 2,
        redirect_steps(cfg)[0] == StepView::SetFlag,
        redirect_steps(cfg)[1] == StepView::Navigate(cfg.target_url),
        navigations(redirect_steps(cfg)) == 1,
{
    let steps = redirect_steps(cfg);
    assert(steps.drop_last() =~= seq![StepView::SetFlag]);
    assert(steps.drop_last().drop_last() =~= Seq::<StepView>::empty());
    reveal_with_fuel(navigations, 3);
}

/// One run of detection navigates at most once, and not at all in a page
/// instance that has redirected.
pub proof fn lemma_one_run_navigates_at_most_once(d: DetectorView, page: PageView)
    ensures
        navigations(outcome(d, page).1.steps) <= 1,
        d.redirected ==> navigations(outcome(d, page).1.steps) == 0,
        navigations(outcome(d, page).1.steps) == 1 ==> outcome(d, page).0.redirected,
        d.redirected ==> outcome(d, page).0.redirected,
{
    lemma_redirect_sets_flag_then_navigates(d.config);
}

/// However often detection runs in one page instance, and on whatever
/// snapshots, it navigates at most once; in a page instance that has
/// redirected it never navigates again.
pub proof fn lemma_at_most_one_navigation(d: DetectorView, pages: Seq<PageView>)
    ensures
        navigations_over(d, pages) <= 1,
        d.redirected ==> navigations_over(d, pages) == 0,
    decreases pages.len(),
{
    if pages.len() > 0 {
        lemma_one_run_navigates_at_most_once(d, pages.first());
        lemma_at_most_one_navigation(outcome(d, pages.first()).0, pages.drop_first());
    }
}

/// Two runs of detection in one page instance navigate at most once between
/// them.
pub proof fn lemma_detecting_twice_navigates_at_most_once(
    d: DetectorView,
    first: PageView,
    second: PageView,
)
    ensures
        navigations(outcome(d, first).1.steps) + navigations(
            outcome(outcome(d, first).0, second).1.steps,
        ) <= 1,
{
    lemma_one_run_navigates_at_most_once(d, first);
    lemma_one_run_navigates_at_most_once(outcome(d, first).0, second);
}

/// On a home URL that is no target URL, with the flag not set, a page
/// instance that has not redirected finds the home page and answers the
/// redirect: the flag is set first, then the page navigates to the target
/// URL. Over that run and any runs that follow in the same page instance
/// there is exactly one navigation.
pub proof fn lemma_home_redirects_exactly_once(d: DetectorView, pages: Seq<PageView>)
    requires
        !d.redirected,
        pages.len() >= 1,
        any_matches(d.config.home, pages.first().url),
        !d.config.target.matches(pages.first().url),
        !pages.first().flagged,
    ensures
        outcome(d, pages.first()).1.class == PageClass::Home(HomeSignal::HomeUrl),
        outcome(d, pages.first()).1.steps == seq![
            StepView::SetFlag,
            StepView::Navigate(d.config.target_url),
        ],
        navigations_over(d, pages) == 1,
{
    lemma_redirect_sets_flag_then_navigates(d.config);
    lemma_at_most_one_navigation(outcome(d, pages.first()).0, pages.drop_first());
}

/// With the flag set, off the target, detection answers without looking at
/// the signals: the class is `Returning` whatever the search input and the
/// navigation element say, and a page instance that has not redirected
/// answers the redirect at once.
pub proof fn lemma_flag_bypasses_signals(d: DetectorView, page: PageView, other: PageView)
    requires
        page.flagged,
        !d.config.target.matches(page.url),
        other.url == page.url,
        other.flagged,
    ensures
        outcome(d, page).1.class == PageClass::Returning,
        !d.redirected ==> outcome(d, page).1.steps == redirect_steps(d.config),
        outcome(d, other) == outcome(d, page),
{
}

} // verus!
