use base64::Engine;
use neobrowser::capture::{entries_json, CaptureLog, CapturedRequest, RequestExtra};
use neobrowser::intercept::{
    continue_message, find_rule, fulfil_headers, fulfil_message, new_rule, paused_reply, request_pattern,
    url_matches_pattern,
};
use neobrowser::keys::{key_combo_events, press_combo_events, DispatchKeyEventParams};
use neobrowser::launch::{chrome_args_pipe, chrome_args_port, chrome_paths, parse_devtools_active_port, pick_chrome, ready_step, version_url, ReadyStep};
use neobrowser::json::JsonValue;
use neobrowser::mouse::{click, double_click, right_click, MouseButton, MouseEventKind};

#[test]
fn chrome_flags() {
    assert_eq!(
        chrome_args_pipe("/p", true),
        vec![
            "--remote-debugging-pipe",
            "--user-data-dir=/p",
            "--no-first-run",
            "--no-default-browser-check",
            "--disable-dev-shm-usage",
            "--window-size=1440,900",
            "--headless=new"
        ]
    );
    assert_eq!(
        chrome_args_port(9222, "/p", false),
        vec![
            "--remote-debugging-port=9222",
            "--user-data-dir=/p",
            "--disable-dev-shm-usage",
            "--no-first-run",
            "--no-default-browser-check",
            "--window-size=1440,900"
        ]
    );
    assert_eq!(version_url(9222), "http://127.0.0.1:9222/json/version");
}

#[test]
fn chrome_is_the_first_existing_candidate() {
    let paths = chrome_paths();
    assert_eq!(paths.len(), 5);
    assert_eq!(pick_chrome(&paths, &vec![false, false, true, true, false]), Ok("/usr/bin/chromium"));
    assert_eq!(pick_chrome(&paths, &vec![false; 5]), Err("Chrome/Chromium not found"));
}

#[test]
fn devtools_port_file() {
    assert_eq!(
        parse_devtools_active_port("9222\r\n/devtools/browser/abc\r\n"),
        Some((9222, "/devtools/browser/abc".to_string()))
    );
    assert_eq!(parse_devtools_active_port("9333\n"), Some((9333, "/devtools/browser".to_string())));
    assert_eq!(parse_devtools_active_port("70000\n/x"), None);
    assert_eq!(parse_devtools_active_port(""), None);
    assert_eq!(parse_devtools_active_port("port\n/x"), None);
}

fn strokes(evs: &[DispatchKeyEventParams]) -> Vec<(String, String, Option<String>, i32)> {
    evs.iter()
        .map(|e| (e.type_.clone(), e.key.clone().unwrap(), e.code.clone(), e.modifiers.unwrap()))
        .collect()
}

#[test]
fn key_combination_holds_modifiers() {
    let keys = vec!["Control".to_string(), "Shift".to_string(), "t".to_string()];
    let evs = key_combo_events(&keys);
    let s = |t: &str, k: &str, m: i32| (t.to_string(), k.to_string(), None, m);
    assert_eq!(
        strokes(&evs),
        vec![
            s("keyDown", "Control", 10),
            s("keyDown", "Shift", 10),
            s("keyDown", "t", 10),
            s("keyUp", "t", 10),
            s("keyUp", "Shift", 0),
            s("keyUp", "Control", 0),
        ]
    );
    assert!(key_combo_events(&vec![]).is_empty());
    assert!(evs.iter().all(|e| e.text.is_none() && e.location.is_none()));
}

#[test]
fn written_combinations() {
    let evs = press_combo_events("Ctrl+Shift+A");
    assert_eq!(
        strokes(&evs),
        vec![
            ("keyDown".to_string(), "a".to_string(), Some("KeyA".to_string()), 10),
            ("keyUp".to_string(), "a".to_string(), Some("KeyA".to_string()), 10),
        ]
    );
    let evs = press_combo_events("cmd+enter");
    assert_eq!(evs[0].key.as_deref(), Some("Enter"));
    assert_eq!(evs[0].modifiers, Some(4));
    let evs = press_combo_events("F5");
    assert_eq!(evs[0].key.as_deref(), Some("F5"));
    assert_eq!(evs[0].code.as_deref(), Some("F5"));
    assert_eq!(evs[0].modifiers, Some(0));
    assert_eq!(DispatchKeyEventParams::default().type_, "");
}

#[test]
fn mouse_sequences() {
    let c = click(3, 4);
    assert_eq!(c.len(), 3);
    assert_eq!(c[0].kind, MouseEventKind::Moved);
    assert_eq!(c[1].button, Some(MouseButton::Left));
    let d = double_click(1.5f64, 2.5f64);
    assert_eq!(d.len(), 5);
    assert_eq!(d[3].kind, MouseEventKind::Pressed);
    assert_eq!(d[3].click_count, Some(2));
    assert_eq!(d[4].kind, MouseEventKind::Released);
    assert_eq!(d[4].x, 1.5);
    let r = right_click(0u32, 0u32);
    assert_eq!(r[2].button, Some(MouseButton::Right));
}

#[test]
fn glob_patterns() {
    assert!(url_matches_pattern("*", "https://a.com/x"));
    assert!(url_matches_pattern("*/api/*/users", "https://a.com/api/v2/users"));
    assert!(!url_matches_pattern("*/users*/api/*", "https://a.com/api/v2/users"));
    assert!(url_matches_pattern("api.com", "https://api.com/x"));
    assert!(!url_matches_pattern("api.com", "https://a.com/x"));
    assert!(url_matches_pattern("https://*.com/*x", "https://a.com/xx"));
}

#[test]
fn interception_messages() {
    let rules = vec![new_rule("*/other*", "{}", None, None), new_rule("*/api/*", "hi", Some(201), Some("text/plain"))];
    assert_eq!(find_rule(&rules, "https://a.com/api/x"), Some(1));
    assert_eq!(find_rule(&rules, "https://a.com/nothing"), None);
    assert_eq!(rules[0].status_code, 200);
    assert_eq!(rules[0].content_type, "application/json");
    assert_eq!(
        fulfil_message(7, "S1", "R1", &rules[1]),
        "{\"id\":7,\"method\":\"Fetch.fulfillRequest\",\"params\":{\"body\":\"aGk=\",\"requestId\":\"R1\",\"responseCode\":201,\"responseHeaders\":[{\"name\":\"Content-Type\",\"value\":\"text/plain\"},{\"name\":\"Access-Control-Allow-Origin\",\"value\":\"*\"}]},\"sessionId\":\"S1\"}"
    );
    assert_eq!(
        continue_message(8, "S1", "R2"),
        "{\"id\":8,\"method\":\"Fetch.continueRequest\",\"params\":{\"requestId\":\"R2\"},\"sessionId\":\"S1\"}"
    );
    assert_eq!(paused_reply(8, "S1", "R2", "https://a.com/nothing", &rules), continue_message(8, "S1", "R2"));
    assert_eq!(paused_reply(7, "S1", "R1", "https://a.com/api/q", &rules), fulfil_message(7, "S1", "R1", &rules[1]));
    let h = fulfil_headers(&rules[1]);
    assert_eq!(h[0].value, "text/plain");
    assert_eq!(request_pattern("*").url_pattern.as_deref(), Some("*"));
}

#[test]
fn capture_log_pairs_responses_with_requests() {
    let mut log: CaptureLog<u8, u8> = CaptureLog::new();
    log.on_request(true, Some("1".into()), None, Some("https://a.com/api/x".into()), None, None, None, 0);
    log.on_request(true, Some("2".into()), Some("POST".into()), Some("https://a.com/img.png".into()), Some("d".into()), Some("Image".into()), Some("f".into()), 1);
    log.on_request(false, Some("3".into()), None, None, None, None, None, 2);
    log.on_response(true, Some("1".into()), Some(200), Some("application/json".into()), 9);
    log.on_response(true, Some("zz".into()), Some(500), None, 9);
    assert_eq!(log.entries.len(), 2);
    assert_eq!(log.entries[0].method, "GET");
    assert_eq!(log.entries[0].resource_type, "Other");
    assert_eq!(log.entries[0].response_status, Some(200));
    assert_eq!(log.entries[1].response_status, None);
    let api = log.drain(Some("/api/"));
    assert_eq!(api.len(), 1);
    assert_eq!(api[0].request_id, "1");
    assert!(log.entries.is_empty());
}

#[test]
fn captured_entries_as_json() {
    let e = CapturedRequest {
        request_id: "7".to_string(),
        method: "GET".to_string(),
        url: "https://a.com/x".to_string(),
        post_data: None,
        resource_type: "XHR".to_string(),
        frame_id: "F".to_string(),
        request_extra: RequestExtra { headers: "{\"a\":\"1\"}".to_string(), timestamp: "12.5".to_string() },
        response_status: Some(200),
        response_mime: Some("text/html".to_string()),
        response_extra: None,
    };
    assert_eq!(
        e.to_json(),
        "{\"frameId\":\"F\",\"method\":\"GET\",\"mimeType\":\"text/html\",\"requestHeaders\":{\"a\":\"1\"},\"requestId\":\"7\",\"resourceType\":\"XHR\",\"status\":200,\"timestamp\":12.5,\"url\":\"https://a.com/x\"}"
    );
    let all = entries_json(&vec![e]);
    assert_eq!(all.len(), 1);
}

#[test]
fn fulfilled_bodies_are_standard_base64() {
    for body in ["", "a", "ab", "abc", "abcd", "é漢!\n", "{\"k\":[1,2,3]}"] {
        let m = fulfil_message(1, "S", "R", &new_rule("*", body, None, None));
        let want = base64::engine::general_purpose::STANDARD.encode(body);
        assert!(m.contains(&format!("\"body\":\"{}\"", want)), "{m}");
    }
}

#[test]
fn chrome_readiness_polls_then_connects_or_gives_up() {
    let reply = JsonValue::Object(vec![
        ("Browser".to_string(), JsonValue::Text("Chrome/136".to_string())),
        ("webSocketDebuggerUrl".to_string(), JsonValue::Text("ws://127.0.0.1:9222/devtools/browser/x".to_string())),
    ]);
    match ready_step(3, Some(&reply)) {
        ReadyStep::Connect(u) => assert_eq!(u, "ws://127.0.0.1:9222/devtools/browser/x"),
        _ => panic!("expected to connect"),
    }
    let empty = JsonValue::Object(vec![]);
    assert!(matches!(ready_step(1, Some(&empty)), ReadyStep::Poll));
    assert!(matches!(ready_step(29, None), ReadyStep::Poll));
    match ready_step(30, None) {
        ReadyStep::GiveUp(e) => assert_eq!(e, "Chrome didn't start in time"),
        _ => panic!("expected to give up"),
    }
}
