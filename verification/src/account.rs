//! The account and the two requests made in its name: the login that turns a
//! challenge cookie into a session cookie, and the daily check-in.
//!
//! Requests are built and replies are read here; sending is the caller's
//! part.

use crate::challenge::CookiePair;
use crate::error::CheckinError;
use crate::headers::{
    all_header_syntax, base_entries, build_headers, extra_pairs, header_entries, header_pair,
    header_value_accepted, insert_header, is_header_name, is_header_value,
    lemma_header_value_concat, with_headers, HeaderPairs, BASE_HEADER_COUNT, HEADER_MAP_ROOM,
};
use crate::site::{
    base_url_text, checkin_url, checkin_url_text, login_url, login_url_text, user_page_text,
    user_page_url, TARGET_URL,
};
use crate::store::{content_text, load, loaded, save, saved};
use crate::text::{join, joined, texts};
use reqwest::header::HeaderMap;
use vstd::prelude::*;
use vstd::string::StringExecFns;

verus! {

/// Body type of the login form.
pub const FORM_CONTENT_TYPE: &'static str = "application/x-www-form-urlencoded; charset=UTF-8";

/// Seconds after which a login request is abandoned.
pub const LOGIN_TIMEOUT_SECS: u64 = 30;

/// What an [`OktiXyz`] holds, as plain text.
pub struct Credentials {
    pub email: Seq<char>,
    pub passwd: Seq<char>,
}

/// The account that checks in: its login email and password.
#[derive(Clone, Debug)]
pub struct OktiXyz {
    email: String,
    passwd: String,
}

impl View for OktiXyz {
    type V = Credentials;

    closed spec fn view(&self) -> Credentials {
        Credentials { email: self.email@, passwd: self.passwd@ }
    }
}

/// The body of a successful check-in reply.
#[derive(Clone, Debug, PartialEq, Eq)]
pub struct JsonResult {
    pub ret: i32,
    pub msg: String,
}

/// A POST request, ready to be sent.
#[derive(Debug, PartialEq, Eq)]
pub struct HttpRequest {
    /// Where it goes.
    pub url: String,
    /// The headers it carries.
    pub headers: HeaderMap,
    /// The fields of its form-encoded body; `None` for an empty body.
    pub form: Option<Vec<(String, String)>>,
    /// Seconds after which it is abandoned; `None` to wait as long as it takes.
    pub timeout_secs: Option<u64>,
}

/// The headers that a login sets on top of the base headers.
pub open spec fn login_headers(challenge_cookie: Seq<char>) -> HeaderPairs {
    seq![
        ("Referer"@, login_url_text()),
        ("Content-Type"@, FORM_CONTENT_TYPE@),
        ("Cookie"@, challenge_cookie),
    ]
}

/// The headers that a check-in sets on top of the base headers.
pub open spec fn checkin_headers(session_cookie: Seq<char>) -> HeaderPairs {
    seq![
        ("Referer"@, user_page_text()),
        ("TE"@, "trailers"@),
        ("Content-Length"@, "0"@),
        ("Cookie"@, session_cookie),
    ]
}

/// The fields of the login form, each with its value.
pub open spec fn login_form(account: Credentials) -> Seq<(Seq<char>, Seq<char>)> {
    seq![("email"@, account.email), ("passwd"@, account.passwd), ("code"@, Seq::empty())]
}

/// `request` is the login of `account` under `challenge_cookie`.
pub open spec fn is_login_request(
    request: HttpRequest,
    account: Credentials,
    challenge_cookie: Seq<char>,
) -> bool {
    &&& request.url@ == login_url_text()
    &&& header_entries(request.headers) == with_headers(
        base_entries(),
        login_headers(challenge_cookie),
    )
    &&& request.form.deep_view() == Some(login_form(account))
    &&& request.timeout_secs == Some(LOGIN_TIMEOUT_SECS)
}

/// `request` is a check-in under `session_cookie`.
pub open spec fn is_checkin_request(request: HttpRequest, session_cookie: Seq<char>) -> bool {
    &&& request.url@ == checkin_url_text()
    &&& header_entries(request.headers) == with_headers(
        base_entries(),
        checkin_headers(session_cookie),
    )
    &&& request.form is None
    &&& request.timeout_secs is None
}

/// A status in the 2xx range.
pub open spec fn is_success(status: u16) -> bool {
    200 <= status < 300
}

/// Each cookie as `name=value`.
pub open spec fn cookie_lines(cookies: Seq<CookiePair>) -> Seq<Seq<char>> {
    Seq::new(cookies.len(), |i: int| cookies[i].name@ + "="@ + cookies[i].value@)
}

/// The session cookie made of the cookies that a login set and the challenge
/// cookie it was made under: the former as `name=value` in the order
/// received, then the latter, with `;` between neighbours.
pub open spec fn session_cookie_text(cookies: Seq<CookiePair>, challenge_cookie: Seq<char>) -> Seq<
    char,
> {
    joined(cookie_lines(cookies).push(challenge_cookie), ";"@)
}

/// What a login reply comes to: the session cookie on a 2xx status,
/// `RequestFailed` on any other.
pub open spec fn login_result(
    status: u16,
    cookies: Seq<CookiePair>,
    challenge_cookie: Seq<char>,
) -> Result<Seq<char>, CheckinError> {
    if is_success(status) {
        Ok(session_cookie_text(cookies, challenge_cookie))
    } else {
        Err(CheckinError::RequestFailed)
    }
}

/// What a check-in reply comes to: `RequestFailed` on a status outside 2xx,
/// `CookieExpired` where the body is not the expected JSON, success
/// otherwise.
pub open spec fn checkin_result(status: u16, reply: Option<JsonResult>) -> Result<
    (),
    CheckinError,
> {
    if !is_success(status) {
        Err(CheckinError::RequestFailed)
    } else if reply is None {
        Err(CheckinError::CookieExpired)
    } else {
        Ok(())
    }
}

/// The check-in to send for what the cookie file holds: the request under
/// the cookie on file, or the reason why there is none to send.
pub open spec fn is_checkin_for(
    r: Result<HttpRequest, CheckinError>,
    cookie_file: Option<Seq<char>>,
) -> bool {
    match loaded(cookie_file) {
        Ok(cookie) => if is_header_value(cookie) {
            r matches Ok(request) && is_checkin_request(request, cookie)
        } else {
            r matches Err(e) && e == CheckinError::InvalidHeaderValue
        },
        Err(error) => r matches Err(e) && e == error,
    }
}

/// What a login reply leaves to be written to the cookie file: the session
/// cookie, trimmed.
pub open spec fn flushed(
    status: u16,
    cookies: Seq<CookiePair>,
    challenge_cookie: Seq<char>,
) -> Result<Seq<char>, CheckinError> {
    match login_result(status, cookies, challenge_cookie) {
        Ok(cookie) => Ok(saved(cookie)),
        Err(e) => Err(e),
    }
}

/// The site's URLs are valid header values.
pub proof fn lemma_urls_are_header_values()
    ensures
        is_header_value(login_url_text()),
        is_header_value(user_page_text()),
{
    reveal_strlit("https://");
    reveal_strlit("okti.xyz");
    reveal_strlit("/auth/login");
    reveal_strlit("/user");
    lemma_header_value_concat("https://"@, TARGET_URL@);
    lemma_header_value_concat(base_url_text(), "/auth/login"@);
    lemma_header_value_concat(base_url_text(), "/user"@);
}

/// Tests [`is_success`].
pub fn status_is_success(status: u16) -> (ok: bool)
    ensures
        ok == is_success(status),
{
    200 <= status && status < 300
}

/// Reads a login reply: its status, the cookies it set, and the challenge
/// cookie the login was made under.
pub fn login_outcome(status: u16, cookies: &Vec<CookiePair>, challenge_cookie: &str) -> (r: Result<
    String,
    CheckinError,
>)
    ensures
        match login_result(status, cookies@, challenge_cookie@) {
            Ok(text) => r matches Ok(cookie) && cookie@ == text,
            Err(e) => r == Err::<String, CheckinError>(e),
        },
{
    if !status_is_success(status) {
        return Err(CheckinError::RequestFailed);
    }
    let mut lines: Vec<String> = Vec::new();
    let mut i: usize = 0;
    while i < cookies.len()
        invariant
            i <= cookies.len(),
            lines.len() == i,
            texts(lines@) == cookie_lines(cookies@).take(i as int),
        decreases cookies.len() - i,
    {
        let ghost before = lines@;
        let mut line = cookies[i].name.clone();
        line.append("=");
        line.append(cookies[i].value.as_str());
        lines.push(line);
        assert(texts(lines@) =~= texts(before).push(cookie_lines(cookies@)[i as int]));
        i = i + 1;
    }
    let ghost before = lines@;
    lines.push(challenge_cookie.to_owned());
    assert(cookie_lines(cookies@).take(i as int) =~= cookie_lines(cookies@));
    assert(texts(lines@) =~= texts(before).push(challenge_cookie@));
    Ok(join(&lines, ";"))
}

/// Reads a check-in reply: its status and its body, `None` where the body
/// was not the expected JSON.
pub fn checkin_outcome(status: u16, reply: &Option<JsonResult>) -> (r: Result<(), CheckinError>)
    ensures
        r == checkin_result(status, *reply),
{
    if !status_is_success(status) {
        Err(CheckinError::RequestFailed)
    } else if reply.is_none() {
        Err(CheckinError::CookieExpired)
    } else {
        Ok(())
    }
}

impl OktiXyz {
    /// Takes the credentials as they are; nothing is checked or sent.
    pub fn new(email: String, passwd: String) -> (account: Self)
        ensures
            account@.email == email@,
            account@.passwd == passwd@,
    {
        Self { email, passwd }
    }

    /// The account for the email and password found in the environment;
    /// `CredentialsMissing` where either is not there.
    pub fn from_environment(email: Option<String>, passwd: Option<String>) -> (r: Result<
        Self,
        CheckinError,
    >)
        ensures
            match (email, passwd) {
                (Some(e), Some(p)) => r matches Ok(account) && account@.email == e@
                    && account@.passwd == p@,
                _ => r matches Err(e) && e == CheckinError::CredentialsMissing,
            },
    {
        match (email, passwd) {
            (Some(email), Some(passwd)) => Ok(Self::new(email, passwd)),
            _ => Err(CheckinError::CredentialsMissing),
        }
    }

    /// The base headers with the caller's own set on top, in the order
    /// given. Fails with `InvalidHeaderValue` where one of the caller's names
    /// or values is not valid header syntax, and only then.
    pub fn build_base_request_headers(&self, extra: Option<Vec<(String, String)>>) -> (r: Result<
        HeaderMap,
        CheckinError,
    >)
        requires
            extra_pairs(extra).len() + BASE_HEADER_COUNT <= HEADER_MAP_ROOM,
        ensures
            r is Ok <==> all_header_syntax(extra_pairs(extra)),
            r matches Ok(headers) ==> {
                &&& header_entries(headers) == with_headers(base_entries(), extra_pairs(extra))
                &&& header_entries(headers).dom().finite()
                &&& header_entries(headers).dom().len() <= BASE_HEADER_COUNT + extra_pairs(
                    extra,
                ).len()
            },
            r matches Err(e) ==> e == CheckinError::InvalidHeaderValue,
    {
        build_headers(&extra)
    }

    /// The login request under a challenge cookie. Fails with
    /// `InvalidHeaderValue` where the cookie is not a valid header value, and
    /// only then.
    pub fn login_request(&self, challenge_cookie: &str) -> (r: Result<HttpRequest, CheckinError>)
        ensures
            r is Ok <==> is_header_value(challenge_cookie@),
            r matches Ok(request) ==> is_login_request(request, self@, challenge_cookie@),
            r matches Err(e) ==> e == CheckinError::InvalidHeaderValue,
    {
        let url = login_url();
        let mut extra: Vec<(String, String)> = Vec::new();
        extra.push(header_pair("Referer", url.as_str()));
        extra.push(header_pair("Content-Type", FORM_CONTENT_TYPE));
        let ghost set = extra.deep_view();
        proof {
            reveal_strlit("Referer");
            reveal_strlit("Content-Type");
            reveal_strlit("application/x-www-form-urlencoded; charset=UTF-8");
            reveal_strlit("Cookie");
            lemma_urls_are_header_values();
            assert(set =~= login_headers(challenge_cookie@).drop_last());
            assert(is_header_name(set[0].0) && is_header_value(set[0].1));
            assert(is_header_name(set[1].0) && is_header_value(set[1].1));
        }
        let mut headers = match self.build_base_request_headers(Some(extra)) {
            Ok(headers) => headers,
            Err(e) => {
                return Err(e);
            },
        };
        if !header_value_accepted(challenge_cookie) {
            return Err(CheckinError::InvalidHeaderValue);
        }
        insert_header(&mut headers, "Cookie", challenge_cookie);
        let mut form: Vec<(String, String)> = Vec::new();
        form.push(header_pair("email", self.email.as_str()));
        form.push(header_pair("passwd", self.passwd.as_str()));
        form.push(header_pair("code", ""));
        proof {
            reveal_strlit("");
            assert(form.deep_view() =~~= login_form(self@));
        }
        Ok(HttpRequest { url, headers, form: Some(form), timeout_secs: Some(LOGIN_TIMEOUT_SECS) })
    }

    /// The check-in request under a session cookie. Fails with
    /// `InvalidHeaderValue` where the cookie is not a valid header value, and
    /// only then.
    pub fn checkin_request(&self, session_cookie: &str) -> (r: Result<HttpRequest, CheckinError>)
        ensures
            r is Ok <==> is_header_value(session_cookie@),
            r matches Ok(request) ==> is_checkin_request(request, session_cookie@),
            r matches Err(e) ==> e == CheckinError::InvalidHeaderValue,
    {
        let referer = user_page_url();
        let mut extra: Vec<(String, String)> = Vec::new();
        extra.push(header_pair("Referer", referer.as_str()));
        extra.push(header_pair("TE", "trailers"));
        extra.push(header_pair("Content-Length", "0"));
        let ghost set = extra.deep_view();
        proof {
            reveal_strlit("Referer");
            reveal_strlit("TE");
            reveal_strlit("trailers");
            reveal_strlit("Content-Length");
            reveal_strlit("0");
            reveal_strlit("Cookie");
            lemma_urls_are_header_values();
            assert(set =~= checkin_headers(session_cookie@).drop_last());
            assert(is_header_name(set[0].0) && is_header_value(set[0].1));
            assert(is_header_name(set[1].0) && is_header_value(set[1].1));
            assert(is_header_name(set[2].0) && is_header_value(set[2].1));
        }
        let mut headers = match self.build_base_request_headers(Some(extra)) {
            Ok(headers) => headers,
            Err(e) => {
                return Err(e);
            },
        };
        if !header_value_accepted(session_cookie) {
            return Err(CheckinError::InvalidHeaderValue);
        }
        insert_header(&mut headers, "Cookie", session_cookie);
        Ok(HttpRequest { url: checkin_url(), headers, form: None, timeout_secs: None })
    }

    /// The check-in to send for what the cookie file holds; `None` where
    /// there is no file. Fails with `CookieFileMissing` without a file, with
    /// `CookieFileEmpty` on a blank one, and with `InvalidHeaderValue` where
    /// the cookie on file is not a valid header value.
    pub fn checkin(&self, cookie_file: Option<&str>) -> (r: Result<HttpRequest, CheckinError>)
        ensures
            is_checkin_for(r, content_text(cookie_file)),
    {
        match load(cookie_file) {
            Ok(cookie) => self.checkin_request(cookie.as_str()),
            Err(e) => Err(e),
        }
    }

    /// What is to be written to the cookie file after a login made under
    /// `challenge_cookie`: the session cookie that the reply comes to,
    /// trimmed. Fails with `RequestFailed` on a status outside 2xx.
    pub fn flush_cookie(
        &self,
        status: u16,
        cookies: &Vec<CookiePair>,
        challenge_cookie: &str,
    ) -> (r: Result<String, CheckinError>)
        ensures
            match flushed(status, cookies@, challenge_cookie@) {
                Ok(text) => r matches Ok(contents) && contents@ == text,
                Err(e) => r == Err::<String, CheckinError>(e),
            },
    {
        match login_outcome(status, cookies, challenge_cookie) {
            Ok(cookie) => Ok(save(cookie.as_str())),
            Err(e) => Err(e),
        }
    }
}

} // verus!
