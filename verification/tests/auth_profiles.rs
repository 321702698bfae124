use neobrowser::auth::{create_challenge, create_session_from_cookies, find_profile_for_domain, AuthProfile, ChallengeStatus, ChallengeType, HealthStatus, SessionBackend, UtcTime};
use neobrowser::browser::{chrome136_headers, light_headers};
use neobrowser::auth::{read_outcome, totp_at_reading, utc_of_reading, write_outcome, KeychainRead};
use neobrowser::dom_tree::{dom_tree_expression, script_result};
use neobrowser::json::JsonValue;
use neobrowser::ghost::{CookieEntry, CookieJar};
use std::collections::HashMap;

fn profile(id: &str, domains: &[&str]) -> AuthProfile {
    let t = UtcTime { secs: 0, nanos: 0 };
    AuthProfile {
        profile_id: id.to_string(),
        display_name: id.to_string(),
        domains: domains.iter().map(|d| d.to_string()).collect(),
        login_url: None,
        username_field: None,
        password_field: None,
        totp_enabled: false,
        preferred_backend: SessionBackend::ManagedCookies,
        created_at: t,
        updated_at: t,
    }
}

#[test]
fn profile_for_domain_and_subdomains() {
    let ps = vec![profile("work", &["linkedin.com"]), profile("home", &["google.com", "mail.example.org"])];
    assert_eq!(find_profile_for_domain(&ps, "www.linkedin.com"), Some(0));
    assert_eq!(find_profile_for_domain(&ps, "mail.example.org"), Some(1));
    assert_eq!(find_profile_for_domain(&ps, "example.org"), None);
    assert_eq!(find_profile_for_domain(&ps, "notlinkedin.com"), None);
}

#[test]
fn fresh_session_is_valid() {
    let s = create_session_from_cookies("p1", "x.com", vec![serde_json::from_str::<serde_json::Value>("{\"name\":\"a\"}").unwrap()], HashMap::new(), vec!["/home".to_string()]);
    assert_eq!(s.profile_id, "p1");
    assert_eq!(s.domain, "x.com");
    assert_eq!(s.cookies.len(), 1);
    assert_eq!(s.health.status, HealthStatus::Valid);
    assert_eq!(s.health.reason.as_deref(), Some("Fresh login"));
    assert_eq!(s.last_verified_at, Some(s.created_at));
    assert!(s.logout_markers.is_empty());
    assert_eq!(s.session_id.len(), 36);
}

#[test]
fn challenge_is_pending_for_five_minutes() {
    let c = create_challenge("p1", "x.com", ChallengeType::Totp, "Enter the code", None);
    assert_eq!(c.status, ChallengeStatus::Pending);
    assert_eq!(c.challenge_type, ChallengeType::Totp);
    let e = c.expires_at.unwrap();
    assert!(e.secs >= c.created_at.secs + 300);
    assert!(e.secs <= c.created_at.secs + 302);
}

#[test]
fn cookie_jar_count_is_distinct_domain_name_pairs() {
    let entry = |name: &str, domain: &str, value: &str| CookieEntry {
        name: Some(name.to_string()),
        value: Some(value.to_string()),
        domain: Some(domain.to_string()),
        path: None,
        expires: None,
        http_only: None,
        secure: None,
    };
    let mut jar = CookieJar::new();
    jar.store_from_header("shop.com", "a=1");
    jar.store_from_header("shop.com", "b=1");
    jar.load_entries(&vec![entry("a", "shop.com", "2"), entry("a", "news.org", "1"), entry("c", "news.org", "1")]);
    jar.store_from_header("news.org", "c=9");
    jar.store_from_header("shop.com", "a=3");
    // distinct pairs: (shop.com, a), (shop.com, b), (news.org, a), (news.org, c)
    assert_eq!(jar.count(), 4);
    assert_eq!(jar.header_for("shop.com"), Some("b=1; a=3".to_string()));
    assert_eq!(jar.header_for("news.org"), Some("a=1; c=9".to_string()));
}

#[test]
fn cookie_entries_into_jar() {
    let entry = |name: &str, domain: &str, value: &str| CookieEntry {
        name: Some(name.to_string()),
        value: Some(value.to_string()),
        domain: Some(domain.to_string()),
        path: None,
        expires: None,
        http_only: None,
        secure: None,
    };
    let es = vec![entry("a", ".shop.com", "1"), entry("", "shop.com", "x"), entry("b", "...", "2"), entry("a", "shop.com", "3")];
    let mut jar = CookieJar::new();
    assert_eq!(jar.load_entries(&es), 2);
    assert_eq!(jar.count(), 1);
    assert_eq!(jar.header_for("shop.com"), Some("a=3".to_string()));
}

#[test]
fn client_header_sets() {
    let h = chrome136_headers();
    assert_eq!(h.len(), 6);
    assert_eq!(h[1], ("accept-language".to_string(), "es-ES,es;q=0.9,en;q=0.8".to_string()));
    assert_eq!(light_headers()[1].1, "gzip, deflate, br");
}

#[test]
fn dom_tree_calls() {
    assert_eq!(dom_tree_expression(None), "__neo_dom_tree(50)");
    assert_eq!(dom_tree_expression(Some(3)), "__neo_dom_tree(3)");
    assert!(matches!(script_result(None, "{}", "DOM tree").unwrap(), JsonValue::Object(ms) if ms.is_empty()));
    match script_result(Some("[1]".to_string()), "[]", "Mutations").unwrap() {
        JsonValue::Array(items) => {
            assert_eq!(items.len(), 1);
            assert!(matches!(&items[0], JsonValue::Number(n) if n == "1"));
        },
        _ => panic!("not an array"),
    }
    assert!(script_result(Some("{".to_string()), "{}", "Diff").unwrap_err().starts_with("Diff JSON parse error: "));
}

#[test]
fn keychain_outcomes() {
    assert_eq!(write_outcome(Ok(())), Ok(()));
    assert_eq!(write_outcome(Err("locked".to_string())), Err("keyring set: locked".to_string()));
    assert_eq!(read_outcome(KeychainRead::Found("pw".to_string())), Ok(Some("pw".to_string())));
    assert_eq!(read_outcome(KeychainRead::Missing), Ok(None));
    assert_eq!(read_outcome(KeychainRead::Failed("x".to_string())), Err("keyring get: x".to_string()));
}

#[test]
fn utc_instants_from_wall_clock() {
    let t = utc_of_reading(Ok(1_700_000_000_250_000_000));
    assert_eq!((t.secs, t.nanos), (1_700_000_000, 250_000_000));
    let t = utc_of_reading(Err(1_500_000_000));
    assert_eq!((t.secs, t.nanos), (-2, 500_000_000));
    let t = utc_of_reading(Err(3_000_000_000));
    assert_eq!((t.secs, t.nanos), (-3, 0));
}

#[test]
fn totp_codes_at_a_reading() {
    // RFC 6238's SHA-1 seed "12345678901234567890" in Base32; at 59 s the
    // eight-digit code is 94287082, so the six-digit one is 287082.
    let seed = "GEZDGNBVGY3TQOJQGEZDGNBVGY3TQOJQ";
    assert_eq!(totp_at_reading(seed, Ok(59_000_000_000)), Ok("287082".to_string()));
    assert_eq!(
        totp_at_reading(seed, Err(1)),
        Err("TOTP gen: second time provided was later than self".to_string())
    );
    assert!(totp_at_reading("not base32!", Ok(0)).unwrap_err().starts_with("TOTP decode: "));
}
