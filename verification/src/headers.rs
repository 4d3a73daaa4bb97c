//! Request headers: what counts as header syntax, the fixed browser-like
//! set every request carries, and how a header collection is filled.
//!
//! The collection itself is the HTTP client's own `HeaderMap`. Verus cannot
//! look inside it, so the few operations used on it are stated here as
//! trusted contracts over [`header_entries`].

use crate::error::CheckinError;
use crate::site::{origin, origin_text, DEFAULT_USER_AGENT, TARGET_URL};
use reqwest::header::{HeaderMap, HeaderName, HeaderValue};
use std::str::FromStr;
use vstd::prelude::*;

verus! {

/// The header collection of the HTTP client. Nothing inside it is visible to
/// the verifier; [`header_entries`] names what it holds.
#[verifier::external_type_specification]
#[verifier::external_body]
#[verifier::reject_recursive_types(T)]
pub struct ExHeaderMap<T>(HeaderMap<T>);

/// One header value of the HTTP client. It occurs only as the element type of
/// the header collection.
#[verifier::external_type_specification]
#[verifier::external_body]
pub struct ExHeaderValue(HeaderValue);

/// Header names, in lower case, each with the text of its value.
pub type HeaderEntries = Map<Seq<char>, Seq<char>>;

/// Header names as written, each with the text of its value, in the order in
/// which they are set.
pub type HeaderPairs = Seq<(Seq<char>, Seq<char>)>;

/// What a header collection holds: for each header name, in lower case, the
/// text of its one value.
pub uninterp spec fn header_entries(map: HeaderMap) -> HeaderEntries;

/// The largest number of names a header collection can hold and still be
/// sure to take one more. The collection grows by doubling and refuses to
/// grow past 32768 slots; it only tries to grow from there when it is three
/// quarters full or, under suspicion of a collision attack, one fifth full.
pub const HEADER_MAP_ROOM: usize = 6553;

/// The longest header name, in characters.
pub const MAX_HEADER_NAME_LEN: usize = 65535;

/// A character that may stand in a header name: an ASCII letter or digit, or
/// one of ``! # $ % & ' * + - . ^ _ ` | ~``.
pub open spec fn is_token_char(c: char) -> bool {
    ||| 'a' <= c <= 'z'
    ||| 'A' <= c <= 'Z'
    ||| '0' <= c <= '9'
    ||| c == '!'
    ||| c == '#'
    ||| c == '$'
    ||| c == '%'
    ||| c == '&'
    ||| c == '\''
    ||| c == '*'
    ||| c == '+'
    ||| c == '-'
    ||| c == '.'
    ||| c == '^'
    ||| c == '_'
    ||| c == '`'
    ||| c == '|'
    ||| c == '~'
}

/// Valid header-name syntax: between 1 and 65535 token characters.
pub open spec fn is_header_name(s: Seq<char>) -> bool {
    &&& 1 <= s.len() <= MAX_HEADER_NAME_LEN
    &&& forall|i: int| 0 <= i < s.len() ==> is_token_char(#[trigger] s[i])
}

/// A character that may stand in a header value: a tab, or anything from the
/// space upwards except DEL.
pub open spec fn is_value_char(c: char) -> bool {
    c == '\t' || (' ' <= c && c != '\x7f')
}

/// Valid header-value syntax: no control character but the tab.
pub open spec fn is_header_value(s: Seq<char>) -> bool {
    forall|i: int| 0 <= i < s.len() ==> is_value_char(#[trigger] s[i])
}

/// An ASCII capital as its small letter, any other character as itself.
pub open spec fn lower_char(c: char) -> char {
    if 'A' <= c <= 'Z' {
        ((c as u8) + 32) as char
    } else {
        c
    }
}

/// `s` with its ASCII capitals made small: the form under which a header
/// name is stored.
pub open spec fn lower_text(s: Seq<char>) -> Seq<char> {
    Seq::new(s.len(), |i: int| lower_char(s[i]))
}

/// Every pair is a header name with a header value.
pub open spec fn all_header_syntax(pairs: HeaderPairs) -> bool {
    forall|i: int|
        0 <= i < pairs.len() ==> is_header_name((#[trigger] pairs[i]).0) && is_header_value(
            pairs[i].1,
        )
}

/// The pair at `at` is the first that is not valid header syntax.
pub open spec fn first_bad_pair(pairs: HeaderPairs, at: int) -> bool {
    &&& 0 <= at < pairs.len()
    &&& all_header_syntax(pairs.take(at))
    &&& !(is_header_name(pairs[at].0) && is_header_value(pairs[at].1))
}

/// `entries` after the pairs have been set one after the other: a later pair
/// replaces an earlier one of the same name, whatever the case of its
/// letters.
pub open spec fn with_headers(entries: HeaderEntries, pairs: HeaderPairs) -> HeaderEntries
    decreases pairs.len(),
{
    if pairs.len() == 0 {
        entries
    } else {
        with_headers(entries, pairs.drop_last()).insert(
            lower_text(pairs.last().0),
            pairs.last().1,
        )
    }
}

/// The headers that every request carries, made to look like a desktop
/// browser's.
pub open spec fn base_headers() -> HeaderPairs {
    seq![
        ("user-agent"@, DEFAULT_USER_AGENT@),
        ("accept"@, "application/json, text/javascript, */*; q=0.01"@),
        ("accept-language"@, "zh-CN,zh;q=0.8,zh-TW;q=0.7,zh-HK;q=0.5,en-US;q=0.3,en;q=0.2"@),
        ("x-requested-with"@, "XMLHttpRequest"@),
        ("host"@, TARGET_URL@),
        ("connection"@, "keep-alive"@),
        ("sec-fetch-dest"@, "empty"@),
        ("sec-fetch-mode"@, "cors"@),
        ("sec-fetch-site"@, "same-origin"@),
        ("priority"@, "u=0"@),
        ("pragma"@, "no-cache"@),
        ("cache-control"@, "no-cache"@),
        ("origin"@, origin_text()),
    ]
}

/// The number of [`base_headers`].
pub const BASE_HEADER_COUNT: usize = 13;

/// The entries of a collection that holds the base headers and nothing else.
pub open spec fn base_entries() -> HeaderEntries {
    with_headers(HeaderEntries::empty(), base_headers())
}

/// Calls `HeaderMap::new`: a collection with nothing in it.
#[verifier::external_body]
pub(crate) fn new_header_map() -> (headers: HeaderMap)
    ensures
        header_entries(headers) == HeaderEntries::empty(),
{
    HeaderMap::new()
}

/// Calls `HeaderName::from_str` and says whether it took the text. It takes
/// exactly the texts of 1 to 65535 bytes made of token characters only.
#[verifier::external_body]
pub(crate) fn header_name_accepted(name: &str) -> (ok: bool)
    ensures
        ok == is_header_name(name@),
{
    HeaderName::from_str(name).is_ok()
}

/// Calls `HeaderValue::from_str` and says whether it took the text. It
/// refuses exactly the texts with a byte below 32 other than the tab, or
/// with the byte 127.
#[verifier::external_body]
pub(crate) fn header_value_accepted(value: &str) -> (ok: bool)
    ensures
        ok == is_header_value(value@),
{
    HeaderValue::from_str(value).is_ok()
}

/// Calls `HeaderMap::insert` with the name and the value parsed from text.
/// The name is stored in lower case; a value already held under that name is
/// replaced. The call panics where the collection would have to grow past
/// its ceiling, which cannot happen below [`HEADER_MAP_ROOM`] names.
#[verifier::external_body]
pub(crate) fn insert_header(headers: &mut HeaderMap, name: &str, value: &str)
    requires
        is_header_name(name@),
        is_header_value(value@),
        header_entries(*old(headers)).dom().finite(),
        header_entries(*old(headers)).dom().len() <= HEADER_MAP_ROOM,
    ensures
        header_entries(*final(headers)) == header_entries(*old(headers)).insert(
            lower_text(name@),
            value@,
        ),
{
    headers.insert(HeaderName::from_str(name).unwrap(), HeaderValue::from_str(value).unwrap());
}

/// Header syntax is kept by putting one valid value after another.
pub proof fn lemma_header_value_concat(a: Seq<char>, b: Seq<char>)
    requires
        is_header_value(a),
        is_header_value(b),
    ensures
        is_header_value(a + b),
{
    assert forall|i: int| 0 <= i < (a + b).len() implies is_value_char(#[trigger] (a + b)[i]) by {
        if i < a.len() {
            assert((a + b)[i] == a[i]);
        } else {
            assert((a + b)[i] == b[i - a.len()]);
        }
    }
}

/// Setting pairs on a finite collection leaves it finite and adds at most
/// one name per pair.
pub proof fn lemma_with_headers_len(entries: HeaderEntries, pairs: HeaderPairs)
    requires
        entries.dom().finite(),
    ensures
        with_headers(entries, pairs).dom().finite(),
        with_headers(entries, pairs).dom().len() <= entries.dom().len() + pairs.len(),
    decreases pairs.len(),
{
    if pairs.len() > 0 {
        lemma_with_headers_len(entries, pairs.drop_last());
    }
}

/// Every base header is valid header syntax.
pub proof fn lemma_base_headers_valid()
    ensures
        base_headers().len() == BASE_HEADER_COUNT,
        all_header_syntax(base_headers()),
{
    reveal_strlit("user-agent");
    reveal_strlit(
        "Mozilla/5.0 (Windows NT 10.0; Win64; x64; rv:145.0) Gecko/20100101 Firefox/145.0",
    );
    reveal_strlit("accept");
    reveal_strlit("application/json, text/javascript, */*; q=0.01");
    reveal_strlit("accept-language");
    reveal_strlit("zh-CN,zh;q=0.8,zh-TW;q=0.7,zh-HK;q=0.5,en-US;q=0.3,en;q=0.2");
    reveal_strlit("x-requested-with");
    reveal_strlit("XMLHttpRequest");
    reveal_strlit("host");
    reveal_strlit("okti.xyz");
    reveal_strlit("connection");
    reveal_strlit("keep-alive");
    reveal_strlit("sec-fetch-dest");
    reveal_strlit("empty");
    reveal_strlit("sec-fetch-mode");
    reveal_strlit("cors");
    reveal_strlit("sec-fetch-site");
    reveal_strlit("same-origin");
    reveal_strlit("priority");
    reveal_strlit("u=0");
    reveal_strlit("pragma");
    reveal_strlit("no-cache");
    reveal_strlit("cache-control");
    reveal_strlit("origin");
    reveal_strlit("https://");
    reveal_strlit("/");
    assert(is_header_value(origin_text())) by {
        lemma_header_value_concat("https://"@, TARGET_URL@);
        lemma_header_value_concat("https://"@ + TARGET_URL@, "/"@);
    }
}

/// A header pair as strings.
pub(crate) fn header_pair(name: &str, value: &str) -> (p: (String, String))
    ensures
        p.deep_view() == (name@, value@),
{
    (name.to_owned(), value.to_owned())
}

/// The base headers as strings, in the order of [`base_headers`].
pub fn base_header_table() -> (table: Vec<(String, String)>)
    ensures
        table.deep_view() == base_headers(),
{
    let mut table: Vec<(String, String)> = Vec::new();
    table.push(header_pair("user-agent", DEFAULT_USER_AGENT));
    table.push(header_pair("accept", "application/json, text/javascript, */*; q=0.01"));
    table.push(
        header_pair("accept-language", "zh-CN,zh;q=0.8,zh-TW;q=0.7,zh-HK;q=0.5,en-US;q=0.3,en;q=0.2"),
    );
    table.push(header_pair("x-requested-with", "XMLHttpRequest"));
    table.push(header_pair("host", TARGET_URL));
    table.push(header_pair("connection", "keep-alive"));
    table.push(header_pair("sec-fetch-dest", "empty"));
    table.push(header_pair("sec-fetch-mode", "cors"));
    table.push(header_pair("sec-fetch-site", "same-origin"));
    table.push(header_pair("priority", "u=0"));
    table.push(header_pair("pragma", "no-cache"));
    table.push(header_pair("cache-control", "no-cache"));
    let origin = origin();
    table.push(header_pair("origin", origin.as_str()));
    assert(table.deep_view() =~= base_headers());
    table
}

/// Sets every pair of a table whose syntax is known to be valid.
fn set_valid_headers(headers: &mut HeaderMap, table: &Vec<(String, String)>)
    requires
        all_header_syntax(table.deep_view()),
        header_entries(*old(headers)).dom().finite(),
        header_entries(*old(headers)).dom().len() + table.len() <= HEADER_MAP_ROOM + 1,
    ensures
        header_entries(*final(headers)) == with_headers(
            header_entries(*old(headers)),
            table.deep_view(),
        ),
{
    let ghost start = header_entries(*headers);
    let ghost pairs = table.deep_view();
    let mut i: usize = 0;
    while i < table.len()
        invariant
            i <= table.len(),
            pairs == table.deep_view(),
            all_header_syntax(pairs),
            start.dom().finite(),
            start.dom().len() + table.len() <= HEADER_MAP_ROOM + 1,
            header_entries(*headers) == with_headers(start, pairs.take(i as int)),
        decreases table.len() - i,
    {
        proof {
            lemma_with_headers_len(start, pairs.take(i as int));
            assert(pairs.take(i + 1).drop_last() =~= pairs.take(i as int));
            assert(pairs[i as int] == (table[i as int].0@, table[i as int].1@));
        }
        insert_header(headers, table[i].0.as_str(), table[i].1.as_str());
        i = i + 1;
    }
    assert(pairs.take(i as int) =~= pairs);
}

/// Sets the pairs one after the other, and stops before the first whose name
/// or value is not valid header syntax.
fn set_headers(headers: &mut HeaderMap, pairs: &Vec<(String, String)>) -> (r: Result<
    (),
    CheckinError,
>)
    requires
        header_entries(*old(headers)).dom().finite(),
        header_entries(*old(headers)).dom().len() + pairs.len() <= HEADER_MAP_ROOM + 1,
    ensures
        r is Ok <==> all_header_syntax(pairs.deep_view()),
        r is Ok ==> header_entries(*final(headers)) == with_headers(
            header_entries(*old(headers)),
            pairs.deep_view(),
        ),
        r matches Err(e) ==> e == CheckinError::InvalidHeaderValue,
        r is Err ==> exists|at: int| #[trigger]
            first_bad_pair(pairs.deep_view(), at) && header_entries(*final(headers))
                == with_headers(header_entries(*old(headers)), pairs.deep_view().take(at)),
{
    let ghost start = header_entries(*headers);
    let ghost all = pairs.deep_view();
    let mut i: usize = 0;
    while i < pairs.len()
        invariant
            i <= pairs.len(),
            all == pairs.deep_view(),
            all_header_syntax(all.take(i as int)),
            start == header_entries(*old(headers)),
            start.dom().finite(),
            start.dom().len() + pairs.len() <= HEADER_MAP_ROOM + 1,
            header_entries(*headers) == with_headers(start, all.take(i as int)),
        decreases pairs.len() - i,
    {
        proof {
            lemma_with_headers_len(start, all.take(i as int));
            assert(all.take(i + 1).drop_last() =~= all.take(i as int));
            assert(all[i as int] == (pairs[i as int].0@, pairs[i as int].1@));
        }
        if !header_name_accepted(pairs[i].0.as_str()) {
            assert(first_bad_pair(all, i as int));
            return Err(CheckinError::InvalidHeaderValue);
        }
        if !header_value_accepted(pairs[i].1.as_str()) {
            assert(first_bad_pair(all, i as int));
            return Err(CheckinError::InvalidHeaderValue);
        }
        insert_header(headers, pairs[i].0.as_str(), pairs[i].1.as_str());
        proof {
            assert forall|j: int| 0 <= j < i + 1 implies is_header_name(
                (#[trigger] all.take(i + 1)[j]).0,
            ) && is_header_value(all.take(i + 1)[j].1) by {
                if j < i {
                    assert(all.take(i + 1)[j] == all.take(i as int)[j]);
                }
            }
        }
        i = i + 1;
    }
    assert(all.take(i as int) =~= all);
    Ok(())
}

/// The pairs that a caller supplies on top of the base headers.
pub open spec fn extra_pairs(extra: Option<Vec<(String, String)>>) -> HeaderPairs {
    match extra {
        Some(pairs) => pairs.deep_view(),
        None => Seq::empty(),
    }
}

/// A collection with the base headers, then the caller's own set on top in
/// the order given.
pub fn build_headers(extra: &Option<Vec<(String, String)>>) -> (r: Result<HeaderMap, CheckinError>)
    requires
        extra_pairs(*extra).len() + BASE_HEADER_COUNT <= HEADER_MAP_ROOM,
    ensures
        r is Ok <==> all_header_syntax(extra_pairs(*extra)),
        r matches Ok(headers) ==> {
            &&& header_entries(headers) == with_headers(base_entries(), extra_pairs(*extra))
            &&& header_entries(headers).dom().finite()
            &&& header_entries(headers).dom().len() <= BASE_HEADER_COUNT + extra_pairs(*extra).len()
        },
        r matches Err(e) ==> e == CheckinError::InvalidHeaderValue,
{
    let mut headers = new_header_map();
    let table = base_header_table();
    proof {
        lemma_base_headers_valid();
        lemma_with_headers_len(HeaderEntries::empty(), base_headers());
    }
    set_valid_headers(&mut headers, &table);
    match extra {
        Some(pairs) => {
            proof {
                lemma_with_headers_len(base_entries(), pairs.deep_view());
            }
            match set_headers(&mut headers, pairs) {
                Ok(()) => Ok(headers),
                Err(e) => Err(e),
            }
        },
        None => Ok(headers),
    }
}

} // verus!
