use neobrowser::profile_cookies::{profile_cookie_row, CookieFields, CHROME_EPOCH_OFFSET, THIRTY_DAYS};

fn fields(name: Option<&str>, secure: Option<bool>, expires: Option<i64>, session: Option<bool>) -> CookieFields {
    CookieFields {
        name: name.map(|s| s.to_string()),
        value: Some("v".to_string()),
        domain: Some(".example.com".to_string()),
        path: None,
        secure,
        http_only: Some(true),
        expires_secs: expires,
        session,
    }
}

#[test]
fn row_with_expiry() {
    let now = 1_700_000_000_000_000;
    let row = profile_cookie_row(&fields(Some("sid"), Some(true), Some(1_800_000_000), None), now, false).unwrap();
    assert_eq!(row.name, "sid");
    assert_eq!(row.host_key, ".example.com");
    assert_eq!(row.path, "/");
    assert_eq!(row.expires_utc, 1_800_000_000 * 1_000_000 + CHROME_EPOCH_OFFSET);
    assert_eq!(row.creation_utc, now + CHROME_EPOCH_OFFSET);
    assert_eq!(row.last_access_utc, row.creation_utc);
    assert!(row.is_secure && row.is_httponly);
    assert_eq!(row.source_scheme, 2);
}

#[test]
fn row_without_expiry_lasts_thirty_days() {
    let now = 5;
    let row = profile_cookie_row(&fields(Some("a"), None, None, None), now, false).unwrap();
    assert_eq!(row.expires_utc, now + CHROME_EPOCH_OFFSET + THIRTY_DAYS);
    assert_eq!(row.source_scheme, 1);
    assert!(!row.is_secure);
}

#[test]
fn nameless_and_session_cookies() {
    assert!(profile_cookie_row(&fields(None, None, None, None), 0, false).is_none());
    assert!(profile_cookie_row(&fields(Some("s"), None, None, Some(true)), 0, true).is_none());
    assert!(profile_cookie_row(&fields(Some("s"), None, None, Some(true)), 0, false).is_some());
}
