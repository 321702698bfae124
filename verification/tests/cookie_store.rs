use neobrowser::cookie_store::{
    cookie_applies, cookie_header_for, domain_matches, js_cookie_string, parse_http_date, plan_js_cookie,
    plan_set_cookie, CookieRow, CookieWrite,
};
use neobrowser::cookie_store::{file_cookie_row, FileCookie};

fn row(domain: &str, path: &str, name: &str, value: &str, secure: i32, http_only: i32, expires: Option<i64>) -> CookieRow {
    CookieRow {
        domain: domain.to_string(),
        path: path.to_string(),
        name: name.to_string(),
        value: value.to_string(),
        secure,
        http_only,
        same_site: "Lax".to_string(),
        expires,
    }
}

#[test]
fn set_cookie_with_all_attributes() {
    let w = plan_set_cookie(
        "https://www.example.com/a",
        "sid=1; Domain=.example.com; Path=/; Secure; HttpOnly; SameSite=Strict; Max-Age=3600",
        1000,
    );
    match w {
        CookieWrite::Upsert(r) => {
            assert_eq!(r.domain, "example.com");
            assert_eq!(r.path, "/");
            assert_eq!(r.name, "sid");
            assert_eq!(r.value, "1");
            assert_eq!(r.secure, 1);
            assert_eq!(r.http_only, 1);
            assert_eq!(r.same_site, "Strict");
            assert_eq!(r.expires, Some(4600));
        }
        other => panic!("unexpected {:?}", other),
    }
}

#[test]
fn set_cookie_defaults_come_from_the_url() {
    match plan_set_cookie("http://shop.example.com/cart", "cart=7", 0) {
        CookieWrite::Upsert(r) => {
            assert_eq!(r.domain, "shop.example.com");
            assert_eq!(r.path, "/");
            assert_eq!(r.secure, 0);
            assert_eq!(r.http_only, 0);
            assert_eq!(r.same_site, "Lax");
            assert_eq!(r.expires, None);
        }
        other => panic!("unexpected {:?}", other),
    }
    match plan_set_cookie("https://shop.example.com/cart", "cart=7", 0) {
        CookieWrite::Upsert(r) => assert_eq!(r.secure, 1),
        other => panic!("unexpected {:?}", other),
    }
}

#[test]
fn zero_max_age_deletes() {
    match plan_set_cookie("https://www.example.com/", "sid=; Max-Age=0", 1000) {
        CookieWrite::Delete { domain, path, name } => {
            assert_eq!(domain, "www.example.com");
            assert_eq!(path, "/");
            assert_eq!(name, "sid");
        }
        other => panic!("unexpected {:?}", other),
    }
}

#[test]
fn past_expires_deletes() {
    match plan_set_cookie("https://a.com/", "a=1; Expires=Thu, 01 Jan 1970 00:00:00 GMT", 1000) {
        CookieWrite::Delete { name, .. } => assert_eq!(name, "a"),
        other => panic!("unexpected {:?}", other),
    }
}

#[test]
fn header_without_name_is_ignored() {
    assert!(matches!(plan_set_cookie("https://a.com/", "no-equals-sign", 0), CookieWrite::Ignore));
    assert!(matches!(plan_set_cookie("https://a.com/", "=value", 0), CookieWrite::Ignore));
}

#[test]
fn script_cookies_cannot_be_secure_or_http_only() {
    match plan_js_cookie("example.com", "theme=dark; path=/docs; Secure; HttpOnly; domain=evil.com", 0) {
        CookieWrite::Upsert(r) => {
            assert_eq!(r.domain, "example.com");
            assert_eq!(r.path, "/docs");
            assert_eq!(r.secure, 0);
            assert_eq!(r.http_only, 0);
            assert_eq!(r.same_site, "Lax");
        }
        other => panic!("unexpected {:?}", other),
    }
}

#[test]
fn domain_matching_goes_both_ways() {
    assert!(domain_matches("www.google.es", "google.es"));
    assert!(domain_matches("google.es", "www.google.es"));
    assert!(domain_matches("google.es", "google.es"));
    assert!(!domain_matches("evilgoogle.es", "google.es"));
    assert!(domain_matches("www.google.es", ".google.es"));
    assert!(domain_matches("google.es", ".google.es"));
    assert!(!domain_matches("evilgoogle.es", ".google.es"));
}

#[test]
fn cookie_header_picks_matching_rows() {
    let rows = vec![
        row("example.com", "/", "a", "1", 0, 0, None),
        row("example.com", "/other", "b", "2", 0, 0, None),
        row("example.com", "/", "c", "3", 1, 0, None),
        row("example.com", "/", "d", "4", 0, 0, Some(10)),
        row("other.org", "/", "e", "5", 0, 0, None),
    ];
    assert_eq!(cookie_header_for("https://www.example.com/app/page", &rows, 100), Some("a=1; c=3".to_string()));
    assert_eq!(cookie_header_for("http://www.example.com/app/page", &rows, 100), Some("a=1".to_string()));
    assert_eq!(cookie_header_for("https://nothing.net/", &rows, 100), None);
    assert!(cookie_applies("www.example.com", "/other/x", false, 100, &rows[1]));
    assert!(!cookie_applies("www.example.com", "/", false, 100, &rows[1]));
}

#[test]
fn script_never_sees_http_only_cookies() {
    let rows = vec![
        row("example.com", "/", "a", "1", 0, 1, None),
        row("example.com", "/", "b", "2", 0, 0, None),
        row("example.com", "/", "c", "3", 0, 0, Some(5)),
    ];
    assert_eq!(js_cookie_string("www.example.com", &rows, 100), "b=2");
}

#[test]
fn http_dates() {
    assert_eq!(parse_http_date("Tue, 01 Jan 2030 00:00:00 GMT"), Some(1893456000));
    assert_eq!(parse_http_date("not a date"), None);
}

#[test]
fn file_cookies_become_rows() {
    let c = FileCookie {
        name: Some("sid".to_string()),
        value: None,
        domain: Some("..a.com".to_string()),
        path: None,
        secure: Some(true),
        http_only: None,
        same_site: None,
        expires: Some(1_900_000_000),
    };
    let r = file_cookie_row(&c).unwrap();
    assert_eq!(r.domain, "a.com");
    assert_eq!(r.path, "/");
    assert_eq!(r.value, "");
    assert_eq!(r.secure, 1);
    assert_eq!(r.http_only, 0);
    assert_eq!(r.same_site, "Lax");
    assert_eq!(r.expires, Some(1_900_000_000));
    let mut no_domain = c.clone();
    no_domain.domain = Some("...".to_string());
    assert!(file_cookie_row(&no_domain).is_none());
    let mut no_name = c.clone();
    no_name.name = Some(String::new());
    assert!(file_cookie_row(&no_name).is_none());
}
