use checkin_okxyz::store::{load, save};
use checkin_okxyz::CheckinError;

#[test]
fn missing_file_is_reported() {
    assert_eq!(load(None), Err(CheckinError::CookieFileMissing));
}

#[test]
fn blank_file_is_reported() {
    assert_eq!(load(Some("")), Err(CheckinError::CookieFileEmpty));
    assert_eq!(load(Some("  \n\t")), Err(CheckinError::CookieFileEmpty));
}

#[test]
fn content_is_trimmed_on_load() {
    assert_eq!(load(Some("sess=abc123")), Ok("sess=abc123".to_string()));
    assert_eq!(load(Some("sess=abc123\n")), Ok("sess=abc123".to_string()));
    assert_eq!(load(Some("  a=1;b=2; c=3 \r\n")), Ok("a=1;b=2; c=3".to_string()));
}

#[test]
fn cookie_is_trimmed_on_save() {
    assert_eq!(save("sess=abc123"), "sess=abc123");
    assert_eq!(save(" sess=abc123\n"), "sess=abc123");
    assert_eq!(save("   "), "");
}

#[test]
fn saved_cookie_loads_back_trimmed() {
    for cookie in ["sess=abc123", "  a=1;b=2 ", "x\n", "uid=7;key=k;cf_clearance=t; ip=p; expire_in=1"] {
        let contents = save(cookie);
        assert_eq!(load(Some(&contents)), Ok(cookie.trim().to_string()));
    }
}

#[test]
fn blank_cookie_does_not_load_back() {
    let contents = save(" \n ");
    assert_eq!(load(Some(&contents)), Err(CheckinError::CookieFileEmpty));
}
