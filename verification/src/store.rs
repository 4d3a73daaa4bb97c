//! The session store: one cookie, kept as the trimmed content of one file.
//! Reading and writing the file is the caller's part; what the content means
//! and what is to be written is decided here.

use crate::error::CheckinError;
use crate::text::{lemma_trimmed_idempotent, trim, trimmed};
use vstd::prelude::*;

verus! {

/// The text of a file's content, where there is a file.
pub open spec fn content_text(contents: Option<&str>) -> Option<Seq<char>> {
    match contents {
        Some(s) => Some(s@),
        None => None,
    }
}

/// The session cookie that a file's content stands for: the content without
/// the white space around it. No file is `CookieFileMissing`, a blank one
/// `CookieFileEmpty`.
pub open spec fn loaded(contents: Option<Seq<char>>) -> Result<Seq<char>, CheckinError> {
    match contents {
        None => Err(CheckinError::CookieFileMissing),
        Some(s) => if trimmed(s).len() == 0 {
            Err(CheckinError::CookieFileEmpty)
        } else {
            Ok(trimmed(s))
        },
    }
}

/// The content under which a session cookie is kept: the cookie without the
/// white space around it.
pub open spec fn saved(cookie: Seq<char>) -> Seq<char> {
    trimmed(cookie)
}

/// The session cookie in the cookie file's content; `None` where there is no
/// file.
pub fn load(contents: Option<&str>) -> (r: Result<String, CheckinError>)
    ensures
        match loaded(content_text(contents)) {
            Ok(text) => r matches Ok(cookie) && cookie@ == text,
            Err(e) => r == Err::<String, CheckinError>(e),
        },
{
    match contents {
        None => Err(CheckinError::CookieFileMissing),
        Some(s) => {
            let cookie = trim(s);
            if cookie.as_str().is_empty() {
                Err(CheckinError::CookieFileEmpty)
            } else {
                Ok(cookie)
            }
        },
    }
}

/// The content to write to the cookie file for a session cookie.
pub fn save(cookie: &str) -> (contents: String)
    ensures
        contents@ == saved(cookie@),
{
    trim(cookie)
}

/// A session cookie that is saved and then loaded comes back trimmed, and
/// otherwise as it was. This holds of every cookie that is not blank.
pub proof fn lemma_save_then_load(cookie: Seq<char>)
    requires
        trimmed(cookie).len() > 0,
    ensures
        loaded(Some(saved(cookie))) == Ok::<Seq<char>, CheckinError>(trimmed(cookie)),
{
    lemma_trimmed_idempotent(cookie);
}

/// A blank session cookie does not survive saving: loading finds the file
/// empty.
pub proof fn lemma_blank_is_not_kept(cookie: Seq<char>)
    requires
        trimmed(cookie).len() == 0,
    ensures
        loaded(Some(saved(cookie))) == Err::<Seq<char>, CheckinError>(
            CheckinError::CookieFileEmpty,
        ),
{
    lemma_trimmed_idempotent(cookie);
}

} // verus!
