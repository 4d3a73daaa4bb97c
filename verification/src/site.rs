//! The one site this client talks to: its host, its URLs, and the fixed
//! values sent to it.

use vstd::prelude::*;
use vstd::string::StringExecFns;

verus! {

/// Host name of the site.
pub const TARGET_URL: &'static str = "okti.xyz";

/// Name of the file that keeps the session cookie between runs.
pub const COOKIE_FILE: &'static str = "cookie.txt";

/// The browser this client claims to be.
pub const DEFAULT_USER_AGENT: &'static str =
    "Mozilla/5.0 (Windows NT 10.0; Win64; x64; rv:145.0) Gecko/20100101 Firefox/145.0";

/// `https://` and the host.
pub open spec fn base_url_text() -> Seq<char> {
    "https://"@ + TARGET_URL@
}

/// The site's root with a trailing slash, as sent in the `origin` header.
pub open spec fn origin_text() -> Seq<char> {
    base_url_text() + "/"@
}

/// Where the login form is posted.
pub open spec fn login_url_text() -> Seq<char> {
    base_url_text() + "/auth/login"@
}

/// Where the daily check-in is posted.
pub open spec fn checkin_url_text() -> Seq<char> {
    base_url_text() + "/user/checkin"@
}

/// The page a check-in claims to come from.
pub open spec fn user_page_text() -> Seq<char> {
    base_url_text() + "/user"@
}

/// The site's root, where the browser is sent to pass the challenge.
pub fn base_url() -> (url: String)
    ensures
        url@ == base_url_text(),
{
    let mut url = String::from_str("https://");
    url.append(TARGET_URL);
    url
}

/// The value of the `origin` header.
pub fn origin() -> (url: String)
    ensures
        url@ == origin_text(),
{
    let mut url = base_url();
    url.append("/");
    url
}

/// The URL of the login endpoint.
pub fn login_url() -> (url: String)
    ensures
        url@ == login_url_text(),
{
    let mut url = base_url();
    url.append("/auth/login");
    url
}

/// The URL of the check-in endpoint.
pub fn checkin_url() -> (url: String)
    ensures
        url@ == checkin_url_text(),
{
    let mut url = base_url();
    url.append("/user/checkin");
    url
}

/// The URL of the user page.
pub fn user_page_url() -> (url: String)
    ensures
        url@ == user_page_text(),
{
    let mut url = base_url();
    url.append("/user");
    url
}

} // verus!
