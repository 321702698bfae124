use neobrowser::referrer::{compute_referrer, is_https_exec, origin_of, same_origin_exec, ReferrerPolicy};

#[test]
fn test_no_referrer() {
    assert_eq!(
        compute_referrer("https://a.com/page", "https://b.com/", &ReferrerPolicy::NoReferrer),
        None
    );
}

#[test]
fn test_origin_policy() {
    assert_eq!(
        compute_referrer("https://a.com/page?q=1", "https://b.com/", &ReferrerPolicy::Origin),
        Some("https://a.com".to_string())
    );
}

#[test]
fn test_same_origin_policy_same() {
    assert_eq!(
        compute_referrer("https://a.com/page", "https://a.com/other", &ReferrerPolicy::SameOrigin),
        Some("https://a.com/page".to_string())
    );
}

#[test]
fn test_same_origin_policy_cross() {
    assert_eq!(
        compute_referrer("https://a.com/page", "https://b.com/other", &ReferrerPolicy::SameOrigin),
        None
    );
}

#[test]
fn test_strict_same_origin() {
    assert_eq!(
        compute_referrer(
            "https://a.com/page?q=1",
            "https://a.com/other",
            &ReferrerPolicy::StrictOriginWhenCrossOrigin
        ),
        Some("https://a.com/page?q=1".to_string())
    );
}

#[test]
fn test_strict_cross_origin_https() {
    assert_eq!(
        compute_referrer(
            "https://a.com/page?q=1",
            "https://b.com/other",
            &ReferrerPolicy::StrictOriginWhenCrossOrigin
        ),
        Some("https://a.com".to_string())
    );
}

#[test]
fn test_strict_downgrade() {
    assert_eq!(
        compute_referrer(
            "https://a.com/page",
            "http://b.com/other",
            &ReferrerPolicy::StrictOriginWhenCrossOrigin
        ),
        None
    );
}

// ── further scenarios ──

#[test]
fn referrer_origin_keeps_non_default_port() {
    assert_eq!(origin_of("http://a.com:8080/x"), "http://a.com:8080");
    assert_eq!(origin_of("https://a.com:443/x"), "https://a.com");
    assert_eq!(origin_of("not a url"), "");
}

#[test]
fn referrer_same_origin_checks_scheme_and_port() {
    assert!(same_origin_exec("https://a.com/1", "https://a.com/2"));
    assert!(!same_origin_exec("http://a.com/1", "https://a.com/1"));
    assert!(!same_origin_exec("https://a.com:444/", "https://a.com/"));
    assert!(!same_origin_exec("garbage", "garbage"));
}

#[test]
fn referrer_https_detection() {
    assert!(is_https_exec("https://x"));
    assert!(is_https_exec("https:x"));
    assert!(!is_https_exec("http://x"));
}

#[test]
fn referrer_strict_cross_origin_without_downgrade_sends_origin() {
    assert_eq!(
        compute_referrer("http://a.com/p", "http://b.com/", &ReferrerPolicy::StrictOriginWhenCrossOrigin),
        Some("http://a.com".to_string())
    );
    assert_eq!(
        compute_referrer("http://a.com/p", "https://b.com/", &ReferrerPolicy::StrictOriginWhenCrossOrigin),
        Some("http://a.com".to_string())
    );
    assert_eq!(
        compute_referrer("https://a.com/p", "http://b.com/", &ReferrerPolicy::StrictOriginWhenCrossOrigin),
        None
    );
    assert_eq!(
        compute_referrer("http://a.com/p", "http://a.com/q", &ReferrerPolicy::StrictOriginWhenCrossOrigin),
        Some("http://a.com/p".to_string())
    );
}
