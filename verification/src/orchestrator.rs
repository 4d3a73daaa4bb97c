//! The run as a whole: try to check in with the session cookie on file; if
//! that does not work, for whatever reason, get a fresh cookie (solve the
//! challenge, log in, save) and try once more.
//!
//! [`run_begin`] and [`run_step`] take the run one step at a time: the driver
//! does what the action says and reports back with an event. What holds of
//! every run so driven is proved in [`laws`](crate::laws).

use crate::account::{
    checkin_outcome, checkin_result, flushed, is_checkin_request,
    is_login_request, Credentials, HttpRequest, JsonResult, OktiXyz,
};
use crate::challenge::CookiePair;
use crate::error::CheckinError;
use crate::headers::is_header_value;
use crate::store::loaded;
use vstd::prelude::*;

verus! {

/// Where a run stands: what it has asked for and is waiting on.
#[derive(Debug, PartialEq, Eq)]
pub enum RunState {
    /// First attempt: the cookie file is being read.
    Loading,
    /// First attempt: the check-in is on its way.
    FirstCheckin,
    /// Refresh: the challenge solver is at work.
    Solving,
    /// Refresh: the login is on its way.
    LoggingIn { challenge_cookie: String },
    /// Refresh: the fresh session cookie is being written.
    Saving { session_cookie: String },
    /// Refresh: the one retry of the check-in is on its way.
    Retrying,
    /// The run is over.
    Finished { outcome: Result<(), CheckinError> },
}

/// The two stages of a run, and its end.
#[derive(Clone, Copy, Debug, PartialEq, Eq, Structural)]
pub enum Phase {
    Attempting,
    Refreshing,
    Over,
}

/// What the run asks its driver to do next.
#[derive(Debug, PartialEq, Eq)]
pub enum RunAction {
    /// Read the cookie file.
    ReadCookieFile,
    /// Send this check-in.
    SendCheckin(HttpRequest),
    /// Run the challenge solver.
    SolveChallenge,
    /// Send this login.
    SendLogin(HttpRequest),
    /// Overwrite the cookie file with this content.
    WriteCookieFile(String),
    /// Nothing more: the outcome is in the state.
    Exit,
}

/// What the driver reports back.
#[derive(Debug, PartialEq, Eq)]
pub enum RunEvent {
    /// The content of the cookie file, `None` where there is no file.
    CookieFile(Option<String>),
    /// The reply to a check-in: its status and its body, `None` where the
    /// body was not the expected JSON.
    CheckinReply { status: u16, reply: Option<JsonResult> },
    /// What the challenge solver ended with.
    Challenge(Result<String, CheckinError>),
    /// The reply to a login: its status and the cookies it set.
    LoginReply { status: u16, cookies: Vec<CookiePair> },
    /// The cookie file has been written.
    Saved,
    /// The action could not be carried out: no reply came, or the file could
    /// not be written.
    Failed,
}

impl RunState {
    /// The stage that the state belongs to.
    pub open spec fn phase(self) -> Phase {
        match self {
            RunState::Loading | RunState::FirstCheckin => Phase::Attempting,
            RunState::Finished { .. } => Phase::Over,
            _ => Phase::Refreshing,
        }
    }

    /// Tells the stage that the state belongs to.
    pub fn current_phase(&self) -> (phase: Phase)
        ensures
            phase == self.phase(),
    {
        match self {
            RunState::Loading | RunState::FirstCheckin => Phase::Attempting,
            RunState::Finished { .. } => Phase::Over,
            _ => Phase::Refreshing,
        }
    }

    /// How far the run has come. No step leads back.
    pub open spec fn rank(self) -> nat {
        match self {
            RunState::Loading => 0,
            RunState::FirstCheckin => 1,
            RunState::Solving => 2,
            RunState::LoggingIn { .. } => 3,
            RunState::Saving { .. } => 4,
            RunState::Retrying => 5,
            RunState::Finished { .. } => 6,
        }
    }
}

/// The text of a file's content, where there is a file.
pub open spec fn file_text(contents: Option<String>) -> Option<Seq<char>> {
    match contents {
        Some(s) => Some(s@),
        None => None,
    }
}

/// The run turns to the refresh.
pub open spec fn refreshes(post: RunState, action: RunAction) -> bool {
    post is Solving && action is SolveChallenge
}

/// The run ends with `outcome`.
pub open spec fn finishes(post: RunState, action: RunAction, outcome: Result<(), CheckinError>) -> bool {
    post == (RunState::Finished { outcome }) && action is Exit
}

/// The content of the cookie file holds a session cookie that can be sent.
pub open spec fn usable_cookie(contents: Option<Seq<char>>) -> bool {
    loaded(contents) matches Ok(cookie) && is_header_value(cookie)
}

/// One step out of `Loading`: with a usable cookie on file the check-in is
/// sent under it; otherwise the run turns to the refresh.
pub open spec fn loading_moves(event: RunEvent, post: RunState, action: RunAction) -> bool {
    match event {
        RunEvent::CookieFile(contents) => if usable_cookie(file_text(contents)) {
            &&& post is FirstCheckin
            &&& action matches RunAction::SendCheckin(request)
            &&& is_checkin_request(request, loaded(file_text(contents))->Ok_0)
        } else {
            refreshes(post, action)
        },
        _ => refreshes(post, action),
    }
}

/// One step out of `FirstCheckin`: a good reply ends the run in success;
/// anything else turns it to the refresh.
pub open spec fn first_checkin_moves(event: RunEvent, post: RunState, action: RunAction) -> bool {
    match event {
        RunEvent::CheckinReply { status, reply } => if checkin_result(status, reply) is Ok {
            finishes(post, action, Ok(()))
        } else {
            refreshes(post, action)
        },
        _ => refreshes(post, action),
    }
}

/// One step out of `Solving`: with a challenge cookie that can be sent the
/// login is sent under it; otherwise the run ends in the solver's error.
pub open spec fn solving_moves(
    account: Credentials,
    event: RunEvent,
    post: RunState,
    action: RunAction,
) -> bool {
    match event {
        RunEvent::Challenge(Ok(cookie)) => if is_header_value(cookie@) {
            &&& post == (RunState::LoggingIn { challenge_cookie: cookie })
            &&& action matches RunAction::SendLogin(request)
            &&& is_login_request(request, account, cookie@)
        } else {
            finishes(post, action, Err(CheckinError::InvalidHeaderValue))
        },
        RunEvent::Challenge(Err(e)) => finishes(post, action, Err(e)),
        _ => finishes(post, action, Err(CheckinError::BrowserError)),
    }
}

/// One step out of `LoggingIn`: on a good reply the session cookie is
/// written to the cookie file; otherwise the run ends in `RequestFailed`.
pub open spec fn logging_in_moves(
    challenge_cookie: Seq<char>,
    event: RunEvent,
    post: RunState,
    action: RunAction,
) -> bool {
    match event {
        RunEvent::LoginReply { status, cookies } => match flushed(
            status,
            cookies@,
            challenge_cookie,
        ) {
            Ok(text) => {
                &&& post matches RunState::Saving { session_cookie }
                &&& session_cookie@ == text
                &&& action matches RunAction::WriteCookieFile(contents)
                &&& contents@ == text
            },
            Err(e) => finishes(post, action, Err(e)),
        },
        _ => finishes(post, action, Err(CheckinError::RequestFailed)),
    }
}

/// One step out of `Saving`: once the file is written, the check-in is sent
/// again under the cookie now on file; where the file could not be written
/// or does not hold a usable cookie, the run ends in error.
pub open spec fn saving_moves(
    session_cookie: Seq<char>,
    event: RunEvent,
    post: RunState,
    action: RunAction,
) -> bool {
    match event {
        RunEvent::Saved => match loaded(Some(session_cookie)) {
            Ok(cookie) => if is_header_value(cookie) {
                &&& post is Retrying
                &&& action matches RunAction::SendCheckin(request)
                &&& is_checkin_request(request, cookie)
            } else {
                finishes(post, action, Err(CheckinError::InvalidHeaderValue))
            },
            Err(e) => finishes(post, action, Err(e)),
        },
        _ => finishes(post, action, Err(CheckinError::CookieFileUnwritable)),
    }
}

/// One step out of `Retrying`: the run ends in what the reply comes to.
pub open spec fn retrying_moves(event: RunEvent, post: RunState, action: RunAction) -> bool {
    match event {
        RunEvent::CheckinReply { status, reply } => finishes(
            post,
            action,
            checkin_result(status, reply),
        ),
        _ => finishes(post, action, Err(CheckinError::RequestFailed)),
    }
}

/// One step of the run of `account`: from `pre`, on `event`, to `post` and
/// `action`. An event that does not answer what was asked counts as the
/// failure of what was asked.
pub open spec fn run_moves(
    account: Credentials,
    pre: RunState,
    event: RunEvent,
    post: RunState,
    action: RunAction,
) -> bool {
    match pre {
        RunState::Loading => loading_moves(event, post, action),
        RunState::FirstCheckin => first_checkin_moves(event, post, action),
        RunState::Solving => solving_moves(account, event, post, action),
        RunState::LoggingIn { challenge_cookie } => logging_in_moves(
            challenge_cookie@,
            event,
            post,
            action,
        ),
        RunState::Saving { session_cookie } => saving_moves(session_cookie@, event, post, action),
        RunState::Retrying => retrying_moves(event, post, action),
        RunState::Finished { .. } => post == pre && action is Exit,
    }
}

/// The first step of every run: the cookie file is asked for.
pub fn run_begin() -> (r: (RunState, RunAction))
    ensures
        r.0 is Loading,
        r.1 is ReadCookieFile,
{
    (RunState::Loading, RunAction::ReadCookieFile)
}

fn refresh() -> (r: (RunState, RunAction))
    ensures
        refreshes(r.0, r.1),
{
    (RunState::Solving, RunAction::SolveChallenge)
}

fn finish(outcome: Result<(), CheckinError>) -> (r: (RunState, RunAction))
    ensures
        finishes(r.0, r.1, outcome),
{
    (RunState::Finished { outcome }, RunAction::Exit)
}

/// One step of the run of `account`.
pub fn run_step(account: &OktiXyz, state: RunState, event: RunEvent) -> (r: (RunState, RunAction))
    ensures
        run_moves(account@, state, event, r.0, r.1),
{
    match state {
        RunState::Loading => match event {
            RunEvent::CookieFile(contents) => {
                let request = match &contents {
                    Some(s) => account.checkin(Some(s.as_str())),
                    None => account.checkin(None),
                };
                match request {
                    Ok(request) => (RunState::FirstCheckin, RunAction::SendCheckin(request)),
                    Err(_) => refresh(),
                }
            },
            _ => refresh(),
        },
        RunState::FirstCheckin => match event {
            RunEvent::CheckinReply { status, reply } => match checkin_outcome(status, &reply) {
                Ok(()) => finish(Ok(())),
                Err(_) => refresh(),
            },
            _ => refresh(),
        },
        RunState::Solving => match event {
            RunEvent::Challenge(Ok(cookie)) => match account.login_request(cookie.as_str()) {
                Ok(request) => (
                    RunState::LoggingIn { challenge_cookie: cookie },
                    RunAction::SendLogin(request),
                ),
                Err(e) => finish(Err(e)),
            },
            RunEvent::Challenge(Err(e)) => finish(Err(e)),
            _ => finish(Err(CheckinError::BrowserError)),
        },
        RunState::LoggingIn { challenge_cookie } => match event {
            RunEvent::LoginReply { status, cookies } => match account.flush_cookie(
                status,
                &cookies,
                challenge_cookie.as_str(),
            ) {
                Ok(session_cookie) => {
                    let contents = session_cookie.clone();
                    (RunState::Saving { session_cookie }, RunAction::WriteCookieFile(contents))
                },
                Err(e) => finish(Err(e)),
            },
            _ => finish(Err(CheckinError::RequestFailed)),
        },
        RunState::Saving { session_cookie } => match event {
            RunEvent::Saved => match account.checkin(Some(session_cookie.as_str())) {
                Ok(request) => (RunState::Retrying, RunAction::SendCheckin(request)),
                Err(e) => finish(Err(e)),
            },
            _ => finish(Err(CheckinError::CookieFileUnwritable)),
        },
        RunState::Retrying => match event {
            RunEvent::CheckinReply { status, reply } => finish(checkin_outcome(status, &reply)),
            _ => finish(Err(CheckinError::RequestFailed)),
        },
        RunState::Finished { outcome } => (RunState::Finished { outcome }, RunAction::Exit),
    }
}

} // verus!
