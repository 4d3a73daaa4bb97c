use vstd::prelude::*;

verus! {

/// Everything that can end a step of a run early.
#[derive(Clone, Copy, Debug, PartialEq, Eq, Structural)]
pub enum CheckinError {
    /// The login email or password was not supplied.
    CredentialsMissing,
    /// There is no persisted session cookie.
    CookieFileMissing,
    /// The persisted session cookie is blank.
    CookieFileEmpty,
    /// The server answered outside the 2xx range, or did not answer.
    RequestFailed,
    /// The check-in reply was not the expected JSON: the session is stale.
    CookieExpired,
    /// The clearance cookie did not show up before the deadline.
    ChallengeNotFound,
    /// The browser could not be started or driven.
    BrowserError,
    /// A header name or value is not valid header syntax.
    InvalidHeaderValue,
    /// The fresh session cookie could not be persisted.
    CookieFileUnwritable,
}

} // verus!
