use neobrowser::api_discovery::{extract_js_imports, is_noise_path, is_noise_url, scan_js_for_apis};
use neobrowser::ghost::{set_cookie_from_header, CookieJar};
use neobrowser::page::{ApiEndpoint, Button, Form, FormField, Input, Link, PageResult};

#[test]
fn cookie_jar_stores_and_sends() {
    let mut jar = CookieJar::new();
    jar.store_from_header("example.com", "sid=abc; Path=/; HttpOnly");
    assert_eq!(jar.count(), 1);
    assert_eq!(jar.header_for("example.com"), Some("sid=abc".to_string()));
    assert_eq!(jar.header_for("www.example.com"), Some("sid=abc".to_string()));
    assert_eq!(jar.header_for("other.org"), None);
}

#[test]
fn cookie_jar_replaces_same_name() {
    let mut jar = CookieJar::new();
    jar.store_from_header("example.com", "a=1");
    jar.store_from_header("example.com", "b=2");
    jar.store_from_header("example.com", "a=3");
    assert_eq!(jar.count(), 2);
    assert_eq!(jar.header_for("example.com"), Some("b=2; a=3".to_string()));
}

#[test]
fn cookie_jar_domain_attribute_moves_cookie() {
    let mut jar = CookieJar::new();
    jar.store_from_header("www.example.com", "a=1; Domain=.Example.com");
    let all = jar.all_headers();
    assert_eq!(all.get("example.com"), Some(&"a=1".to_string()));
    assert_eq!(all.len(), 1);
}

#[test]
fn cookie_jar_ignores_header_without_value() {
    let mut jar = CookieJar::new();
    jar.store_from_header("example.com", "garbage; Path=/");
    assert_eq!(jar.count(), 0);
    assert_eq!(jar.header_for("example.com"), None);
}

#[test]
fn set_cookie_attributes_are_lowercased() {
    let c = set_cookie_from_header("example.com", " token = xyz ; Path=/Api ; Secure").unwrap();
    assert_eq!(c.name, "token");
    assert_eq!(c.value, "xyz");
    assert_eq!(c.path, "/api");
    assert!(c.secure);
    assert!(!c.http_only);
    assert_eq!(c.domain, "example.com");
}

fn sample_page() -> PageResult {
    PageResult {
        url: "https://example.com/".to_string(),
        status: 200,
        title: "Example".to_string(),
        text: "Hello world".to_string(),
        links: vec![
            Link { text: "Docs".to_string(), href: "https://example.com/docs".to_string() },
            Link { text: String::new(), href: "https://example.com/x".to_string() },
        ],
        forms: vec![Form {
            action: "/login".to_string(),
            method: "POST".to_string(),
            fields: vec![FormField { name: "user".to_string(), field_type: "text".to_string(), value: String::new() }],
        }],
        inputs: vec![Input {
            name: "q".to_string(),
            input_type: "search".to_string(),
            placeholder: "Search".to_string(),
            value: String::new(),
            id: "s".to_string(),
        }],
        buttons: vec![Button { text: "Go".to_string(), button_type: "submit".to_string(), name: String::new() }],
        apis: vec![ApiEndpoint {
            url: "/api/v1/items".to_string(),
            method: "GET".to_string(),
            context: String::new(),
            source: "app.js".to_string(),
        }],
        html_len: 100,
        is_spa: false,
    }
}

#[test]
fn to_see_lists_every_section() {
    let out = sample_page().to_see(2000);
    let expected = "Page: Example\nURL: https://example.com/\nStatus: 200\n\
\n--- Text ---\nHello world\n\
\n--- Links (2) ---\n[0] Docs → https://example.com/docs\n[1] [no text] → https://example.com/x\n\
\n--- Forms (1) ---\nFORM POST /login fields=[\"user(text)\"]\n\
\n--- Inputs (1) ---\nINPUT q(search) id=s placeholder=Search\n\
\n--- Buttons (1) ---\nBTN \"Go\" type=submit\n\
\n--- API Endpoints (1) ---\nGET /api/v1/items [app.js]\n";
    assert_eq!(out, expected);
}

#[test]
fn to_see_cuts_long_text() {
    let mut p = sample_page();
    p.links.clear();
    p.forms.clear();
    p.inputs.clear();
    p.buttons.clear();
    p.apis.clear();
    p.is_spa = true;
    let out = p.to_see(5);
    assert_eq!(
        out,
        "Page: Example\nURL: https://example.com/\nStatus: 200\n\n--- Text ---\nHello...\n\n[SPA] This page is a JS app. Use the API endpoints above to interact.\n"
    );
}

#[test]
fn to_see_shows_at_most_fifty_links() {
    let mut p = sample_page();
    p.links = (0..60).map(|i| Link { text: format!("l{i}"), href: format!("/p{i}") }).collect();
    let out = p.to_see(100);
    assert!(out.contains("--- Links (60) ---"));
    assert!(out.contains("[49] l49 → /p49\n"));
    assert!(!out.contains("[50] "));
}

#[test]
fn noise_filters() {
    assert!(is_noise_path("text/html"));
    assert!(is_noise_path("assets/chunk-123"));
    assert!(!is_noise_path("api/users"));
    assert!(is_noise_url("https://cdn.acme.io/app.js"));
    assert!(is_noise_url("https://api.example.com/v1/users"));
    assert!(!is_noise_url("https://api.acme.io/v1/users"));
}

#[test]
fn scan_finds_bases_calls_and_paths() {
    let js = "const API_URL = \"https://api.acme.io\"; client.get(\"users/list\"); x = \"/api/v2/orders\";";
    let apis = scan_js_for_apis(js, "bundle.js");
    let found: Vec<(String, String)> = apis.iter().map(|a| (a.method.clone(), a.url.clone())).collect();
    assert_eq!(
        found,
        vec![
            ("BASE".to_string(), "https://api.acme.io".to_string()),
            ("GET".to_string(), "https://api.acme.io/users/list".to_string()),
            ("GET".to_string(), "/api/v2/orders".to_string()),
        ]
    );
    assert!(apis.iter().all(|a| a.source == "bundle.js"));
}

#[test]
fn imports_are_resolved_against_the_script() {
    let js = "import\"./chunk-a.js\";import(\"./chunk-b.js\");import\"./chunk-a.js\";";
    let imports = extract_js_imports(js, "https://cdn.example.com/assets/main.js");
    assert_eq!(
        imports,
        vec![
            "https://cdn.example.com/assets/chunk-a.js".to_string(),
            "https://cdn.example.com/assets/chunk-b.js".to_string()
        ]
    );
}
