use checkin_okxyz::headers::{
    base_header_table, build_headers, BASE_HEADER_COUNT, HEADER_MAP_ROOM, MAX_HEADER_NAME_LEN,
};
use checkin_okxyz::site::DEFAULT_USER_AGENT;
use checkin_okxyz::{CheckinError, OktiXyz};
use reqwest::header::HeaderMap;

fn any_account() -> OktiXyz {
    OktiXyz::new("me@example.com".to_string(), "secret".to_string())
}

fn pair(name: &str, value: &str) -> (String, String) {
    (name.to_string(), value.to_string())
}

fn text_of(headers: &HeaderMap, name: &str) -> String {
    String::from_utf8(headers.get(name).expect("header is set").as_bytes().to_vec())
        .expect("value is text")
}

fn token_char(c: char) -> bool {
    c.is_ascii_alphanumeric() || "!#$%&'*+-.^_`|~".contains(c)
}

fn value_char(c: char) -> bool {
    c == '\t' || (c >= ' ' && c != '\u{7f}')
}

#[test]
fn base_headers_are_the_browser_like_set() {
    let headers = any_account().build_base_request_headers(None).unwrap();
    assert_eq!(headers.len(), BASE_HEADER_COUNT);
    assert_eq!(headers.len(), 13);
    assert_eq!(text_of(&headers, "user-agent"), DEFAULT_USER_AGENT);
    assert_eq!(
        text_of(&headers, "user-agent"),
        "Mozilla/5.0 (Windows NT 10.0; Win64; x64; rv:145.0) Gecko/20100101 Firefox/145.0"
    );
    assert_eq!(text_of(&headers, "accept"), "application/json, text/javascript, */*; q=0.01");
    assert_eq!(
        text_of(&headers, "accept-language"),
        "zh-CN,zh;q=0.8,zh-TW;q=0.7,zh-HK;q=0.5,en-US;q=0.3,en;q=0.2"
    );
    assert_eq!(text_of(&headers, "x-requested-with"), "XMLHttpRequest");
    assert_eq!(text_of(&headers, "host"), "okti.xyz");
    assert_eq!(text_of(&headers, "connection"), "keep-alive");
    assert_eq!(text_of(&headers, "sec-fetch-dest"), "empty");
    assert_eq!(text_of(&headers, "sec-fetch-mode"), "cors");
    assert_eq!(text_of(&headers, "sec-fetch-site"), "same-origin");
    assert_eq!(text_of(&headers, "priority"), "u=0");
    assert_eq!(text_of(&headers, "pragma"), "no-cache");
    assert_eq!(text_of(&headers, "cache-control"), "no-cache");
    assert_eq!(text_of(&headers, "origin"), "https://okti.xyz/");
}

#[test]
fn base_header_table_matches_what_is_built() {
    let table = base_header_table();
    let headers = build_headers(&None).unwrap();
    assert_eq!(table.len(), 13);
    assert_eq!(table[0].0, "user-agent");
    assert_eq!(table[12], pair("origin", "https://okti.xyz/"));
    for (name, value) in table.iter() {
        assert_eq!(&text_of(&headers, name), value);
    }
}

#[test]
fn no_extra_and_empty_extra_give_the_same() {
    let none = build_headers(&None).unwrap();
    let empty = build_headers(&Some(Vec::new())).unwrap();
    assert_eq!(none, empty);
}

#[test]
fn extra_headers_are_added() {
    let extra = vec![pair("Referer", "https://okti.xyz/user"), pair("TE", "trailers")];
    let headers = any_account().build_base_request_headers(Some(extra)).unwrap();
    assert_eq!(headers.len(), 15);
    assert_eq!(text_of(&headers, "referer"), "https://okti.xyz/user");
    assert_eq!(text_of(&headers, "te"), "trailers");
    assert_eq!(text_of(&headers, "host"), "okti.xyz");
}

#[test]
fn extra_header_replaces_base_header_whatever_its_case() {
    let extra = vec![pair("User-Agent", "curl/8"), pair("PRAGMA", "x")];
    let headers = build_headers(&Some(extra)).unwrap();
    assert_eq!(headers.len(), 13);
    assert_eq!(text_of(&headers, "user-agent"), "curl/8");
    assert_eq!(text_of(&headers, "pragma"), "x");
    assert_eq!(headers.get_all("user-agent").iter().count(), 1);
}

#[test]
fn later_extra_header_wins() {
    let extra = vec![pair("x-test", "one"), pair("X-Test", "two"), pair("x-TEST", "three")];
    let headers = build_headers(&Some(extra)).unwrap();
    assert_eq!(headers.len(), 14);
    assert_eq!(text_of(&headers, "x-test"), "three");
}

#[test]
fn invalid_header_value_is_refused() {
    let extra = vec![pair("x-test", "line\nbreak")];
    assert_eq!(
        any_account().build_base_request_headers(Some(extra)),
        Err(CheckinError::InvalidHeaderValue)
    );
    assert_eq!(
        build_headers(&Some(vec![pair("x-test", "del\u{7f}")])),
        Err(CheckinError::InvalidHeaderValue)
    );
    assert_eq!(
        build_headers(&Some(vec![pair("x-test", "nul\u{0}")])),
        Err(CheckinError::InvalidHeaderValue)
    );
}

#[test]
fn invalid_header_name_is_refused() {
    assert_eq!(
        build_headers(&Some(vec![pair("bad name", "v")])),
        Err(CheckinError::InvalidHeaderValue)
    );
    assert_eq!(build_headers(&Some(vec![pair("", "v")])), Err(CheckinError::InvalidHeaderValue));
    assert_eq!(
        build_headers(&Some(vec![pair("caf\u{e9}", "v")])),
        Err(CheckinError::InvalidHeaderValue)
    );
    assert_eq!(
        build_headers(&Some(vec![pair("good", "v"), pair("a:b", "v")])),
        Err(CheckinError::InvalidHeaderValue)
    );
}

#[test]
fn unusual_but_valid_values_are_taken() {
    let extra = vec![pair("x-empty", ""), pair("x-tab", "a\tb"), pair("x-wide", "caf\u{e9} \u{4f60}")];
    let headers = build_headers(&Some(extra)).unwrap();
    assert_eq!(text_of(&headers, "x-empty"), "");
    assert_eq!(text_of(&headers, "x-tab"), "a\tb");
    assert_eq!(text_of(&headers, "x-wide"), "caf\u{e9} \u{4f60}");
}

#[test]
fn every_character_is_judged_as_a_header_name() {
    let mut code: u32 = 0;
    while code < 0x3000 {
        if let Some(c) = char::from_u32(code) {
            let got = build_headers(&Some(vec![(c.to_string(), "v".to_string())]));
            assert_eq!(got.is_ok(), token_char(c), "character {:?}", c);
            if let Ok(headers) = got {
                assert_eq!(headers.len(), 14);
                assert_eq!(text_of(&headers, &c.to_ascii_lowercase().to_string()), "v");
                let stored = headers.keys().any(|k| k.as_str() == c.to_ascii_lowercase().to_string());
                assert!(stored);
            }
        }
        code += 1;
    }
}

#[test]
fn every_character_is_judged_as_a_header_value() {
    let mut code: u32 = 0;
    while code < 0x3000 {
        if let Some(c) = char::from_u32(code) {
            let got = build_headers(&Some(vec![("x".to_string(), c.to_string())]));
            assert_eq!(got.is_ok(), value_char(c), "character {:?}", c);
            if let Ok(headers) = got {
                assert_eq!(text_of(&headers, "x"), c.to_string());
            }
        }
        code += 1;
    }
    for c in ['\u{d7ff}', '\u{e000}', '\u{ffff}', '\u{10000}', '\u{10ffff}'] {
        let headers = build_headers(&Some(vec![("x".to_string(), c.to_string())])).unwrap();
        assert_eq!(text_of(&headers, "x"), c.to_string());
        assert_eq!(
            build_headers(&Some(vec![(c.to_string(), "v".to_string())])),
            Err(CheckinError::InvalidHeaderValue)
        );
    }
}

#[test]
fn header_name_length_is_bounded() {
    assert_eq!(MAX_HEADER_NAME_LEN, 65535);
    for len in [1usize, 63, 64, 65, 1000, 65535] {
        let name = "a".repeat(len);
        let headers = build_headers(&Some(vec![(name.clone(), "v".to_string())])).unwrap();
        assert_eq!(text_of(&headers, &name), "v");
    }
    assert_eq!(
        build_headers(&Some(vec![("a".repeat(65536), "v".to_string())])),
        Err(CheckinError::InvalidHeaderValue)
    );
}

#[test]
fn long_mixed_case_name_is_stored_in_lower_case() {
    let name = "X-Long-Header-Name-".repeat(8);
    let headers = build_headers(&Some(vec![(name.clone(), "v".to_string())])).unwrap();
    assert!(headers.keys().any(|k| k.as_str() == name.to_ascii_lowercase()));
    assert!(!headers.keys().any(|k| k.as_str() == name));
    assert_eq!(text_of(&headers, &name), "v");
}

#[test]
fn the_first_bad_pair_decides() {
    let pairs = vec![pair("a", "1"), pair("b", "\r"), pair("c", "3")];
    assert_eq!(build_headers(&Some(pairs)), Err(CheckinError::InvalidHeaderValue));
    let pairs = vec![pair("a", "1"), pair("b", "2"), pair("", "3")];
    assert_eq!(build_headers(&Some(pairs)), Err(CheckinError::InvalidHeaderValue));
}

#[test]
fn as_many_headers_as_there_is_room_for() {
    assert_eq!(HEADER_MAP_ROOM, 6553);
    let mut extra: Vec<(String, String)> = Vec::new();
    let mut i: usize = 0;
    while i + BASE_HEADER_COUNT < HEADER_MAP_ROOM {
        extra.push((format!("x-{}", i), format!("{}", i)));
        i += 1;
    }
    let mut headers = build_headers(&Some(extra)).unwrap();
    assert_eq!(headers.len(), HEADER_MAP_ROOM);
    assert_eq!(text_of(&headers, "x-6539"), "6539");
    headers.insert("cookie", "a=b".parse().unwrap());
    assert_eq!(headers.len(), HEADER_MAP_ROOM + 1);
}
