//! The challenge solver: a browser is sent to the site and its cookie jar is
//! polled until the site's bot check hands out a clearance cookie, which is
//! then dressed up as the cookie the login expects.
//!
//! The browser, the stopwatch, the sleeping and the clock are outside work.
//! What is decided here is what to ask for next and what an answer means:
//! [`solver_begin`] and [`solver_step`] say so one step at a time.

use crate::clock::{add_days, can_add_days, SECONDS_PER_DAY};
use crate::error::CheckinError;
use crate::site::{base_url, base_url_text};
use crate::text::{signed_decimal, signed_decimal_text};
use vstd::prelude::*;
use vstd::string::StringExecFns;

verus! {

/// Name of the cookie that the bot check hands out.
pub const CF_CLEARANCE_NAME: &'static str = "cf_clearance";

/// Stands in for the hash of the caller's address that the site expects.
pub const IP_PLACEHOLDER: &'static str = "12704efe9702be1480f07823cef5222b";

/// Days for which a challenge cookie claims to be good.
pub const COOKIE_EXPIRE_DAYS: i64 = 30;

/// Seconds after which polling for the clearance cookie is given up.
pub const TIMEOUT_SECS: u64 = 60;

/// Seconds between two looks into the cookie jar.
pub const POLL_INTERVAL_SECS: u64 = 2;

/// Where the browser is found on Linux.
pub const LINUX_BROWSER_PATH: &'static str = "/usr/bin/chromium";

/// A cookie as far as this client reads one: its name and its value.
#[derive(Clone, Debug, PartialEq, Eq)]
pub struct CookiePair {
    pub name: String,
    pub value: String,
}

impl DeepView for CookiePair {
    type V = (Seq<char>, Seq<char>);

    open spec fn deep_view(&self) -> (Seq<char>, Seq<char>) {
        (self.name@, self.value@)
    }
}

/// How the browser is to be started.
#[derive(Clone, Debug, PartialEq, Eq)]
pub struct LaunchPlan {
    /// Without a window.
    pub headless: bool,
    /// Inside the browser's sandbox.
    pub sandbox: bool,
    /// With GPU acceleration.
    pub enable_gpu: bool,
    /// The browser's path on Linux; elsewhere it is looked for.
    pub linux_path: String,
}

/// The cookie at `at` is the first one named [`CF_CLEARANCE_NAME`].
pub open spec fn first_clearance_at(cookies: Seq<CookiePair>, at: int) -> bool {
    &&& 0 <= at < cookies.len()
    &&& cookies[at].name@ == CF_CLEARANCE_NAME@
    &&& forall|j: int| 0 <= j < at ==> (#[trigger] cookies[j]).name@ != CF_CLEARANCE_NAME@
}

/// No cookie is named [`CF_CLEARANCE_NAME`].
pub open spec fn no_clearance(cookies: Seq<CookiePair>) -> bool {
    forall|j: int| 0 <= j < cookies.len() ==> (#[trigger] cookies[j]).name@ != CF_CLEARANCE_NAME@
}

/// The position of the first clearance cookie in a cookie jar.
pub fn find_clearance(cookies: &Vec<CookiePair>) -> (found: Option<usize>)
    ensures
        match found {
            Some(at) => first_clearance_at(cookies@, at as int),
            None => no_clearance(cookies@),
        },
{
    let wanted = String::from_str(CF_CLEARANCE_NAME);
    let mut i: usize = 0;
    while i < cookies.len()
        invariant
            i <= cookies.len(),
            wanted@ == CF_CLEARANCE_NAME@,
            forall|j: int| 0 <= j < i ==> (#[trigger] cookies@[j]).name@ != CF_CLEARANCE_NAME@,
        decreases cookies.len() - i,
    {
        if cookies[i].name == wanted {
            return Some(i);
        }
        i = i + 1;
    }
    None
}

/// The challenge cookie made of a clearance cookie and the time at which it
/// is to expire: `name=value; ip=<placeholder>; expire_in=<time>`.
pub open spec fn challenge_cookie_text(name: Seq<char>, value: Seq<char>, expires: int) -> Seq<
    char,
> {
    name + "="@ + value + "; ip="@ + IP_PLACEHOLDER@ + "; expire_in="@ + signed_decimal_text(
        expires,
    )
}

/// The challenge cookie for a clearance cookie that expires at `expires`.
pub fn compose_challenge_cookie(clearance: &CookiePair, expires: i64) -> (cookie: String)
    ensures
        cookie@ == challenge_cookie_text(clearance.name@, clearance.value@, expires as int),
{
    let mut cookie = clearance.name.clone();
    cookie.append("=");
    cookie.append(clearance.value.as_str());
    cookie.append("; ip=");
    cookie.append(IP_PLACEHOLDER);
    cookie.append("; expire_in=");
    let stamp = signed_decimal(expires);
    cookie.append(stamp.as_str());
    cookie
}

/// The challenge cookie for a clearance cookie seen at the Unix time `now`:
/// it expires [`COOKIE_EXPIRE_DAYS`] days later.
pub open spec fn fresh_challenge_cookie_text(name: Seq<char>, value: Seq<char>, now: int) -> Seq<
    char,
> {
    challenge_cookie_text(name, value, now + COOKIE_EXPIRE_DAYS * SECONDS_PER_DAY)
}

/// The challenge cookie for a clearance cookie seen at the Unix time `now`.
pub fn fresh_challenge_cookie(clearance: &CookiePair, now: i64) -> (cookie: String)
    requires
        can_add_days(now as int, COOKIE_EXPIRE_DAYS as int),
    ensures
        cookie@ == fresh_challenge_cookie_text(clearance.name@, clearance.value@, now as int),
{
    compose_challenge_cookie(clearance, add_days(now, COOKIE_EXPIRE_DAYS))
}

/// Where the solver stands: what it has asked for and is waiting on.
#[derive(Debug, PartialEq, Eq)]
pub enum SolverState {
    /// The browser is being started.
    Launching,
    /// A tab is being opened.
    OpeningTab,
    /// The tab is being sent to the site.
    Navigating,
    /// The page is loading.
    Settling,
    /// The stopwatch is being started.
    StartingTimer,
    /// The stopwatch is being read.
    Timing,
    /// The cookie jar is being read.
    Reading,
    /// The solver sleeps between two looks.
    Pausing,
    /// The clearance cookie is in hand and the clock is being read.
    Stamping { clearance: CookiePair },
    /// The solver is through, with the challenge cookie or without.
    Done { result: Result<String, CheckinError> },
}

/// What the solver asks its driver to do next.
#[derive(Clone, Debug, PartialEq, Eq)]
pub enum SolverAction {
    /// Start the browser.
    Launch(LaunchPlan),
    /// Open a tab.
    OpenTab,
    /// Send the tab to this URL.
    Navigate(String),
    /// Wait until the page has loaded.
    WaitUntilNavigated,
    /// Start the stopwatch.
    StartTimer,
    /// Report the whole seconds the stopwatch has run.
    ReadElapsed,
    /// Report the cookies in the browser's jar.
    ReadCookies,
    /// Sleep for this many seconds.
    Sleep(u64),
    /// Report the Unix time.
    ReadClock,
    /// Nothing more: the result is in the state.
    Finish,
}

/// What the driver reports back.
#[derive(Clone, Debug, PartialEq, Eq)]
pub enum SolverEvent {
    /// The action was carried out and has nothing to report.
    Completed,
    /// The browser could not do it.
    Failed,
    /// The whole seconds the stopwatch has run.
    Elapsed(u64),
    /// The cookies in the browser's jar.
    Cookies(Vec<CookiePair>),
    /// The Unix time.
    Clock(i64),
}

/// The solver has ended in `error`.
pub open spec fn solver_failed(post: SolverState, action: SolverAction, error: CheckinError) -> bool {
    post == (SolverState::Done { result: Err(error) }) && action is Finish
}

/// The browser is started without a window, outside the sandbox, without GPU.
pub open spec fn is_launch_plan(plan: LaunchPlan) -> bool {
    &&& plan.headless
    &&& !plan.sandbox
    &&& !plan.enable_gpu
    &&& plan.linux_path@ == LINUX_BROWSER_PATH@
}

/// One step of the solver: from `pre`, on `event`, to `post` and `action`.
///
/// The browser is started, a tab opened and sent to the site, and the page
/// awaited; any hitch there ends the solver in `BrowserError`. Then the
/// stopwatch is started and the solver polls: while fewer than
/// [`TIMEOUT_SECS`] seconds have run it looks into the cookie jar, and sleeps
/// [`POLL_INTERVAL_SECS`] seconds when the clearance cookie is not there.
/// Once the time is up it ends in `ChallengeNotFound`. With the first
/// clearance cookie in hand it reads the clock and ends with the challenge
/// cookie. An answer that does not fit the question counts as a hitch of the
/// browser.
pub open spec fn solver_moves(
    pre: SolverState,
    event: SolverEvent,
    post: SolverState,
    action: SolverAction,
) -> bool {
    match pre {
        SolverState::Launching => if event is Completed {
            post is OpeningTab && action is OpenTab
        } else {
            solver_failed(post, action, CheckinError::BrowserError)
        },
        SolverState::OpeningTab => if event is Completed {
            &&& post is Navigating
            &&& action matches SolverAction::Navigate(url)
            &&& url@ == base_url_text()
        } else {
            solver_failed(post, action, CheckinError::BrowserError)
        },
        SolverState::Navigating => if event is Completed {
            post is Settling && action is WaitUntilNavigated
        } else {
            solver_failed(post, action, CheckinError::BrowserError)
        },
        SolverState::Settling => if event is Completed {
            post is StartingTimer && action is StartTimer
        } else {
            solver_failed(post, action, CheckinError::BrowserError)
        },
        SolverState::StartingTimer => if event is Completed {
            post is Timing && action is ReadElapsed
        } else {
            solver_failed(post, action, CheckinError::BrowserError)
        },
        SolverState::Timing => match event {
            SolverEvent::Elapsed(seconds) => if seconds < TIMEOUT_SECS {
                post is Reading && action is ReadCookies
            } else {
                solver_failed(post, action, CheckinError::ChallengeNotFound)
            },
            _ => solver_failed(post, action, CheckinError::BrowserError),
        },
        SolverState::Reading => match event {
            SolverEvent::Cookies(cookies) => if no_clearance(cookies@) {
                post is Pausing && action == SolverAction::Sleep(POLL_INTERVAL_SECS)
            } else {
                &&& post matches SolverState::Stamping { clearance }
                &&& exists|at: int| first_clearance_at(cookies@, at) && clearance == cookies@[at]
                &&& action is ReadClock
            },
            _ => solver_failed(post, action, CheckinError::BrowserError),
        },
        SolverState::Pausing => if event is Completed {
            post is Timing && action is ReadElapsed
        } else {
            solver_failed(post, action, CheckinError::BrowserError)
        },
        SolverState::Stamping { clearance } => match event {
            SolverEvent::Clock(now) => {
                &&& post matches SolverState::Done { result: Ok(cookie) }
                &&& cookie@ == fresh_challenge_cookie_text(
                    clearance.name@,
                    clearance.value@,
                    now as int,
                )
                &&& action is Finish
            },
            _ => solver_failed(post, action, CheckinError::BrowserError),
        },
        SolverState::Done { result } => post == pre && action is Finish,
    }
}

/// The first step: the solver asks for the browser.
pub fn solver_begin() -> (r: (SolverState, SolverAction))
    ensures
        r.0 is Launching,
        r.1 matches SolverAction::Launch(plan) && is_launch_plan(plan),
{
    let plan = LaunchPlan {
        headless: true,
        sandbox: false,
        enable_gpu: false,
        linux_path: String::from_str(LINUX_BROWSER_PATH),
    };
    (SolverState::Launching, SolverAction::Launch(plan))
}

/// What a clock reading has to be for the solver to take it: a time to which
/// [`COOKIE_EXPIRE_DAYS`] days can be added. Other events are always taken.
pub open spec fn solver_takes(state: SolverState, event: SolverEvent) -> bool {
    state is Stamping ==> (event matches SolverEvent::Clock(now) ==> can_add_days(
        now as int,
        COOKIE_EXPIRE_DAYS as int,
    ))
}

fn give_up(error: CheckinError) -> (r: (SolverState, SolverAction))
    ensures
        solver_failed(r.0, r.1, error),
{
    (SolverState::Done { result: Err(error) }, SolverAction::Finish)
}

/// One step of the solver.
pub fn solver_step(state: SolverState, event: SolverEvent) -> (r: (SolverState, SolverAction))
    requires
        solver_takes(state, event),
    ensures
        solver_moves(state, event, r.0, r.1),
{
    match state {
        SolverState::Launching => match event {
            SolverEvent::Completed => (SolverState::OpeningTab, SolverAction::OpenTab),
            _ => give_up(CheckinError::BrowserError),
        },
        SolverState::OpeningTab => match event {
            SolverEvent::Completed => (SolverState::Navigating, SolverAction::Navigate(base_url())),
            _ => give_up(CheckinError::BrowserError),
        },
        SolverState::Navigating => match event {
            SolverEvent::Completed => (SolverState::Settling, SolverAction::WaitUntilNavigated),
            _ => give_up(CheckinError::BrowserError),
        },
        SolverState::Settling => match event {
            SolverEvent::Completed => (SolverState::StartingTimer, SolverAction::StartTimer),
            _ => give_up(CheckinError::BrowserError),
        },
        SolverState::StartingTimer => match event {
            SolverEvent::Completed => (SolverState::Timing, SolverAction::ReadElapsed),
            _ => give_up(CheckinError::BrowserError),
        },
        SolverState::Timing => match event {
            SolverEvent::Elapsed(seconds) => if seconds < TIMEOUT_SECS {
                (SolverState::Reading, SolverAction::ReadCookies)
            } else {
                give_up(CheckinError::ChallengeNotFound)
            },
            _ => give_up(CheckinError::BrowserError),
        },
        SolverState::Reading => match event {
            SolverEvent::Cookies(mut cookies) => match find_clearance(&cookies) {
                Some(at) => {
                    let ghost seen = cookies@;
                    let clearance = cookies.swap_remove(at);
                    assert(first_clearance_at(seen, at as int) && clearance == seen[at as int]);
                    (SolverState::Stamping { clearance }, SolverAction::ReadClock)
                },
                None => (SolverState::Pausing, SolverAction::Sleep(POLL_INTERVAL_SECS)),
            },
            _ => give_up(CheckinError::BrowserError),
        },
        SolverState::Pausing => match event {
            SolverEvent::Completed => (SolverState::Timing, SolverAction::ReadElapsed),
            _ => give_up(CheckinError::BrowserError),
        },
        SolverState::Stamping { clearance } => match event {
            SolverEvent::Clock(now) => {
                let cookie = fresh_challenge_cookie(&clearance, now);
                (SolverState::Done { result: Ok(cookie) }, SolverAction::Finish)
            },
            _ => give_up(CheckinError::BrowserError),
        },
        SolverState::Done { result } => (SolverState::Done { result }, SolverAction::Finish),
    }
}

} // verus!
