use neobrowser::auth::{profile_domain_matches, profile_index_for_domain, secret_key, SecretStore, SessionBackend};
use neobrowser::network_log::network_log_script;
use neobrowser::pool::NeoSessionPool;
use neobrowser::stealth::StealthConfig;

#[test]
fn default_fingerprint_script() {
    let js = StealthConfig::default_desktop().to_js();
    assert_eq!(
        js,
        "\nObject.defineProperty(navigator, 'languages', { get: () => ['es-ES', 'es', 'en'] });\n\
Object.defineProperty(navigator, 'platform', { get: () => 'MacIntel' });\n\
Object.defineProperty(screen, 'width', { get: () => 1920 });\n\
Object.defineProperty(screen, 'height', { get: () => 1080 });\n\
Object.defineProperty(screen, 'availWidth', { get: () => 1920 });\n\
Object.defineProperty(screen, 'availHeight', { get: () => 1040 });\n"
    );
}

#[test]
fn small_screen_has_no_negative_available_height() {
    let c = StealthConfig { screen_width: 300, screen_height: 10, languages: vec![], platform: "Linux".to_string() };
    let js = c.to_js();
    assert!(js.contains("get: () => [] }"));
    assert!(js.contains("'availHeight', { get: () => 0 }"));
}

#[test]
fn pool_creates_once_and_keeps_sessions_apart() {
    let mut pool: NeoSessionPool<u32> = NeoSessionPool::new(2);
    {
        let s = pool.get_or_create("a", || Ok(1)).unwrap();
        *s = 5;
    }
    assert_eq!(pool.get_or_create("a", || Ok(99)).map(|s| *s), Ok(5));
    assert_eq!(pool.get_or_create("b", || Ok(2)).map(|s| *s), Ok(2));
    assert_eq!(pool.get("a").map(|s| *s), Some(5));
    assert_eq!(pool.count(), 2);
    assert_eq!(
        pool.get_or_create("c", || Ok(3)).map(|s| *s),
        Err("Session pool full (2/2). Close a session first.".to_string())
    );
    pool.close("a");
    assert_eq!(pool.count(), 1);
    assert_eq!(pool.list(), vec!["b".to_string()]);
    assert!(pool.get("a").is_none());
    assert_eq!(pool.get_or_create("c", || Err("boom".to_string())).map(|s| *s), Err("boom".to_string()));
    assert_eq!(pool.count(), 1);
    pool.close("missing");
    assert_eq!(pool.count(), 1);
}

#[test]
fn secret_keys() {
    assert_eq!(secret_key("work", "password"), "profile/work/password");
    assert_eq!(secret_key("", "totp_seed"), "profile//totp_seed");
}

#[test]
fn keychain_errors_are_labelled() {
    match SecretStore::get("neobrowser-test-profile", "username") {
        Ok(_) => {}
        Err(e) => assert!(e.starts_with("keyring init: ") || e.starts_with("keyring get: "), "{e}"),
    }
}

#[test]
fn backend_defaults_to_managed_cookies() {
    assert_eq!(SessionBackend::default(), SessionBackend::ManagedCookies);
}

#[test]
fn profiles_serve_their_subdomains() {
    assert!(profile_domain_matches("linkedin.com", "linkedin.com"));
    assert!(profile_domain_matches("linkedin.com", "www.linkedin.com"));
    assert!(!profile_domain_matches("linkedin.com", "notlinkedin.com"));
    let profiles = vec![
        vec!["google.com".to_string()],
        vec!["x.com".to_string(), "linkedin.com".to_string()],
        vec!["linkedin.com".to_string()],
    ];
    assert_eq!(profile_index_for_domain(&profiles, "uk.linkedin.com"), Some(1));
    assert_eq!(profile_index_for_domain(&profiles, "bing.com"), None);
}

#[test]
fn network_log_scripts() {
    assert_eq!(network_log_script(None), "globalThis.__neo_get_network_log()");
    assert_eq!(network_log_script(Some("a\"b\\c")), "globalThis.__neo_get_network_log(\"a\\\"b\\\\c\")");
}
