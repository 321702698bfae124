use neobrowser::http_cache::{freshness_lifetime, is_cacheable, parse_expires, parse_max_age, HttpCache};
use neobrowser::string_map::StringMap;

fn make_headers(pairs: &[(&str, &str)]) -> StringMap {
    let mut m = StringMap::new();
    for (k, v) in pairs {
        m.insert(k, v);
    }
    m
}

#[test]
fn test_store_and_get() {
    let mut cache = HttpCache::new(1); // 1MB
    let headers = make_headers(&[("cache-control", "max-age=3600")]);
    cache.store("https://example.com/style.css", 200, &headers, "body{color:red}");
    assert_eq!(cache.len(), 1);

    let resp = cache.get("https://example.com/style.css").unwrap();
    assert_eq!(resp.status, 200);
    assert_eq!(resp.body, "body{color:red}");
}

#[test]
fn test_no_store_not_cached() {
    let mut cache = HttpCache::new(1);
    let headers = make_headers(&[("cache-control", "no-store")]);
    cache.store("https://example.com/api", 200, &headers, "data");
    assert!(cache.is_empty());
}

#[test]
fn test_no_cache_not_cached() {
    let mut cache = HttpCache::new(1);
    let headers = make_headers(&[("cache-control", "no-cache")]);
    cache.store("https://example.com/api", 200, &headers, "data");
    assert!(cache.is_empty());
}

#[test]
fn test_set_cookie_not_cached() {
    let mut cache = HttpCache::new(1);
    let headers = make_headers(&[
        ("cache-control", "max-age=3600"),
        ("set-cookie", "session=abc"),
    ]);
    cache.store("https://example.com/login", 200, &headers, "ok");
    assert!(cache.is_empty());
}

#[test]
fn test_non_200_not_cached() {
    let mut cache = HttpCache::new(1);
    let headers = make_headers(&[("cache-control", "max-age=3600")]);
    cache.store("https://example.com/404", 404, &headers, "not found");
    assert!(cache.is_empty());
}

#[test]
fn test_conditional_headers() {
    let mut cache = HttpCache::new(1);
    let headers = make_headers(&[
        ("cache-control", "max-age=3600"),
        ("etag", "\"abc123\""),
        ("last-modified", "Wed, 21 Oct 2025 07:28:00 GMT"),
    ]);
    cache.store("https://example.com/page", 200, &headers, "content");

    let cond = cache.conditional_headers("https://example.com/page");
    assert_eq!(cond.get("If-None-Match").unwrap(), "\"abc123\"");
    assert_eq!(cond.get("If-Modified-Since").unwrap(), "Wed, 21 Oct 2025 07:28:00 GMT");
}

#[test]
fn test_conditional_headers_empty_for_unknown() {
    let cache = HttpCache::new(1);
    let cond = cache.conditional_headers("https://example.com/unknown");
    assert!(cond.is_empty());
}

#[test]
fn test_eviction_by_size() {
    // 100 bytes max — forces eviction on the second store
    let mut cache = HttpCache::with_max_bytes(100);
    let headers = make_headers(&[("cache-control", "max-age=3600")]);

    cache.store("https://a.com/1", 200, &headers, &"x".repeat(60));
    assert_eq!(cache.len(), 1);

    cache.store("https://a.com/2", 200, &headers, &"y".repeat(60));
    // Should have evicted the first to fit the second
    assert_eq!(cache.len(), 1);
    assert!(cache.get("https://a.com/2").is_some());
}

#[test]
fn http_cache_test_clear() {
    let mut cache = HttpCache::new(1);
    let headers = make_headers(&[("cache-control", "max-age=3600")]);
    cache.store("https://example.com/a", 200, &headers, "a");
    cache.store("https://example.com/b", 200, &headers, "b");
    assert_eq!(cache.len(), 2);

    cache.clear();
    assert!(cache.is_empty());
    assert_eq!(cache.size(), 0);
}

#[test]
fn test_miss_returns_none() {
    let mut cache = HttpCache::new(1);
    assert!(cache.get("https://example.com/nothing").is_none());
}

#[test]
fn test_private_not_cached() {
    let mut cache = HttpCache::new(1);
    let headers = make_headers(&[("cache-control", "private, max-age=3600")]);
    cache.store("https://example.com/private", 200, &headers, "secret");
    assert!(cache.is_empty());
}

#[test]
fn test_touch_refreshes_entry() {
    let mut cache = HttpCache::new(1);
    let headers = make_headers(&[("cache-control", "max-age=3600")]);
    cache.store("https://example.com/x", 200, &headers, "data");
    cache.touch("https://example.com/x");
    assert!(cache.get("https://example.com/x").is_some());
}

// ── further scenarios ──

#[test]
fn cache_read_after_write_at_given_times() {
    let mut cache = HttpCache::new(1);
    let headers = make_headers(&[("Cache-Control", "public, MAX-AGE=10")]);
    cache.store_at("https://e.com/a", 200, &headers, "hello", 1_000, 0);
    let hit = cache.get_at("https://e.com/a", 1_000 + 10_000_000_000).unwrap();
    assert_eq!(hit.body, "hello");
    assert_eq!(hit.status, 200);
    assert_eq!(hit.headers.get("Cache-Control").unwrap(), "public, MAX-AGE=10");
    // one nanosecond past its lifetime the entry is stale
    assert!(cache.get_at("https://e.com/a", 1_000 + 10_000_000_001).is_none());
    // stale entries stay for conditional requests
    assert_eq!(cache.len(), 1);
}

#[test]
fn cache_default_lifetime_is_five_minutes() {
    let mut cache = HttpCache::new(1);
    let headers = make_headers(&[("content-type", "text/css")]);
    cache.store_at("https://e.com/s.css", 200, &headers, "x", 0, 0);
    assert!(cache.get_at("https://e.com/s.css", 300_000_000_000).is_some());
    assert!(cache.get_at("https://e.com/s.css", 300_000_000_001).is_none());
}

#[test]
fn cache_expires_header_gives_lifetime() {
    let mut cache = HttpCache::new(1);
    // 1 Jan 2030 00:00:00 GMT = 1893456000 s
    let headers = make_headers(&[("Expires", "Tue, 01 Jan 2030 00:00:00 GMT")]);
    let wall = 1_893_455_990i128 * 1_000_000_000; // ten seconds before
    cache.store_at("https://e.com/e", 200, &headers, "x", 0, wall);
    assert!(cache.get_at("https://e.com/e", 10_000_000_000).is_some());
    assert!(cache.get_at("https://e.com/e", 10_000_000_001).is_none());
    let past = make_headers(&[("expires", "0")]);
    cache.store_at("https://e.com/z", 200, &past, "y", 0, wall);
    // "0" falls back to the default lifetime
    assert!(cache.get_at("https://e.com/z", 300_000_000_000).is_some());
}

#[test]
fn cache_lru_eviction_keeps_recently_read() {
    let mut cache = HttpCache::with_max_bytes(10);
    let headers = make_headers(&[("cache-control", "max-age=3600")]);
    cache.store_at("a", 200, &headers, "aaaa", 1, 0);
    cache.store_at("b", 200, &headers, "bbbb", 2, 0);
    assert!(cache.get_at("a", 3).is_some()); // a is now the more recent
    cache.store_at("c", 200, &headers, "cccc", 4, 0);
    assert!(cache.get_at("a", 5).is_some());
    assert!(cache.get_at("b", 5).is_none());
    assert!(cache.get_at("c", 5).is_some());
    assert_eq!(cache.size(), 8);
}

#[test]
fn cache_replaces_entry_and_rejects_oversized() {
    let mut cache = HttpCache::with_max_bytes(5);
    let headers = make_headers(&[("cache-control", "max-age=60")]);
    cache.store_at("u", 200, &headers, "abc", 0, 0);
    cache.store_at("u", 200, &headers, "de", 0, 0);
    assert_eq!(cache.len(), 1);
    assert_eq!(cache.size(), 2);
    assert_eq!(cache.get_at("u", 0).unwrap().body, "de");
    cache.store_at("v", 200, &headers, "toolong", 0, 0);
    assert!(cache.get_at("v", 0).is_none());
    // the size counts bytes: "é" takes two
    cache.store_at("w", 200, &headers, "éé", 0, 0);
    assert_eq!(cache.size(), 4);
}

#[test]
fn cache_touch_extends_lifetime() {
    let mut cache = HttpCache::new(1);
    let headers = make_headers(&[("cache-control", "max-age=1")]);
    cache.store_at("t", 200, &headers, "x", 0, 0);
    assert!(cache.get_at("t", 2_000_000_000).is_none());
    cache.touch_at("t", 2_000_000_000);
    assert!(cache.get_at("t", 2_500_000_000).is_some());
}

#[test]
fn cache_parsers() {
    let h = make_headers(&[("cache-control", "no-transform, max-age=abc, max-age= 42 ")]);
    assert_eq!(parse_max_age(&h), Some(42));
    assert!(is_cacheable(200, &h));
    assert!(!is_cacheable(201, &h));
    assert!(!is_cacheable(200, &make_headers(&[("Set-Cookie", "a=b")])));
    assert!(!is_cacheable(200, &make_headers(&[("Cache-Control", "No-Store")])));
    assert_eq!(freshness_lifetime(&h, 0), 42_000_000_000);
    let e = make_headers(&[("expires", "Thu, 01 Jan 1970 00:01:40 GMT")]);
    assert_eq!(parse_expires(&e, 0), Some(100_000_000_000));
    assert_eq!(parse_expires(&e, 200_000_000_000), None);
    assert_eq!(parse_expires(&make_headers(&[("expires", "soon")]), 0), None);
}
