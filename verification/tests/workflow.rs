use neobrowser::browser::{api_call_plan, is_valid_header_value, on_fetch_error, ApiMethod, BrowserState, FetchFailure};
use neobrowser::capture::CapturedRequest;
use neobrowser::discovery::{dedup_by_url, next_batch, scan_script, script_source_name, Discovery};
use neobrowser::frames::{
    find_frame_url, first_page_target, iframe_target, list_frames, tab_target, Frame, FrameTree, TargetInfo,
};
use neobrowser::page::ApiEndpoint;
use neobrowser::workflow::{
    act_action, action_count, unsupported_detail, api_request, api_requests, parse_action, replay_check, saved_message,
    scroll_direction, url_without_query, Replay, ReplayCheck, ReplayDecision, StepOutcome, Workflow,
    WorkflowAction,
};

fn req(url: &str, rtype: &str, method: &str) -> CapturedRequest<(), ()> {
    CapturedRequest {
        request_id: String::new(),
        method: method.to_string(),
        url: url.to_string(),
        post_data: None,
        resource_type: rtype.to_string(),
        frame_id: String::new(),
        request_extra: (),
        response_status: None,
        response_mime: None,
        response_extra: None,
    }
}

#[test]
fn actions() {
    assert_eq!(parse_action("goto"), WorkflowAction::Navigate);
    assert_eq!(parse_action("navigate"), WorkflowAction::Navigate);
    assert_eq!(parse_action("dance"), WorkflowAction::Unknown);
    assert_eq!(act_action("click"), Ok(WorkflowAction::Click));
    assert_eq!(act_action("dance"), Err("Unknown workflow action: dance".to_string()));
    assert_eq!(act_action("observe"), Err("Unknown workflow action: observe".to_string()));
    assert_eq!(scroll_direction(""), "down");
    assert_eq!(scroll_direction("up"), "up");
}

#[test]
fn api_request_filter() {
    assert!(api_request("https://a.com/x.png", "XHR", "GET"));
    assert!(api_request("https://a.com/api/v1", "Image", "GET"));
    assert!(api_request("https://a.com/graphql", "Script", "GET"));
    assert!(api_request("https://a.com/save", "Image", "POST"));
    assert!(!api_request("https://a.com/app.js", "Script", "POST"));
    assert!(!api_request("https://a.com/logo.png", "Image", "GET"));
    let kept = api_requests(vec![req("https://a.com/a.css", "Stylesheet", "GET"), req("https://a.com/x", "Fetch", "GET")]);
    assert_eq!(kept.len(), 1);
    assert_eq!(kept[0].url, "https://a.com/x");
}

#[test]
fn recording_numbers_steps_and_dedups_endpoints() {
    let mut wf: Workflow<u32> = Workflow::new("login", "https://a.com/");
    wf.record_observe("https://a.com/", 0, "1".to_string());
    wf.map_field("Email", "#email", "email", 1);
    wf.map_field("", "#x", "x", 2);
    wf.map_field("Email", "#mail2", "email", 3);
    let calls = vec![
        ("POST".to_string(), "https://a.com/api/login".to_string(), 10),
        ("GET".to_string(), "https://a.com/api/me".to_string(), 11),
        ("POST".to_string(), "https://a.com/api/login".to_string(), 12),
    ];
    wf.record_act("type", "Email", "", "https://a.com/", 5, calls, vec![10, 11], "2".to_string(), "n");
    assert_eq!(wf.steps.len(), 2);
    assert_eq!(wf.steps[0].step_number, 1);
    assert_eq!(wf.steps[1].step_number, 2);
    assert_eq!(wf.steps[1].value, None);
    assert_eq!(wf.steps[1].target.as_deref(), Some("Email"));
    assert_eq!(wf.api_endpoints_discovered.len(), 2);
    assert_eq!(wf.api_endpoints_discovered[0].discovered_at_step, 2);
    assert_eq!(wf.api_endpoints_discovered[0].details, 10);
    assert_eq!(wf.field_map.len(), 1);
    assert_eq!(wf.selector_of("Email"), Some("#mail2".to_string()));
    assert_eq!(wf.selector_of("Other"), None);
    assert_eq!(action_count(&wf.steps), 1);
    assert_eq!(
        saved_message(&wf, "/tmp/w.json"),
        "Saved workflow 'login' (2 steps, 2 API endpoints, 1 field mappings) to /tmp/w.json"
    );
}

#[test]
fn replay_checks() {
    assert_eq!(url_without_query("https://a.com/p?q=1#top"), "https://a.com/p");
    assert_eq!(url_without_query("https://a.com/p#x?y"), "https://a.com/p");
    assert!(matches!(replay_check("observe", "x", "y"), ReplayCheck::Skip));
    assert!(matches!(replay_check("click", "https://a.com/p?a=1", "https://a.com/p#z"), ReplayCheck::Run(WorkflowAction::Click)));
    assert!(matches!(replay_check("click", "https://a.com/p", "https://a.com/q"), ReplayCheck::UrlMismatch));
    assert!(matches!(replay_check("goto", "https://a.com/p", "https://b.com/"), ReplayCheck::Run(WorkflowAction::Navigate)));
    assert!(matches!(replay_check("hover", "https://a.com/p", "https://a.com/p"), ReplayCheck::Unsupported));
    assert!(matches!(replay_check("dance", "https://a.com/p", "https://a.com/p"), ReplayCheck::Unsupported));
    assert!(matches!(replay_check("hover", "https://a.com/p", "https://a.com/q"), ReplayCheck::UrlMismatch));
    assert_eq!(unsupported_detail("hover"), "unknown action: hover");
}

#[test]
fn replay_stops_at_first_failure() {
    let mut wf: Workflow<u8> = Workflow::new("w", "https://a.com/");
    wf.record_observe("https://a.com/", 0, String::new());
    wf.record_act("click", "Go", "", "https://a.com/", 0, vec![], vec![], String::new(), "");
    wf.record_act("click", "Next", "", "https://a.com/", 0, vec![], vec![], String::new(), "");
    let mut r = Replay::new();
    match r.decide(&wf.steps, "https://a.com/") {
        ReplayDecision::Step(0, ReplayCheck::Skip) => assert_eq!(r.finish_step(&wf.steps, "https://a.com/", false), StepOutcome::Skipped),
        _ => panic!("expected the observation first"),
    }
    match r.decide(&wf.steps, "https://a.com/") {
        ReplayDecision::Step(1, ReplayCheck::Run(WorkflowAction::Click)) => assert_eq!(r.finish_step(&wf.steps, "https://a.com/", true), StepOutcome::Succeeded),
        _ => panic!("expected the first click"),
    }
    match r.decide(&wf.steps, "https://a.com/") {
        ReplayDecision::Step(2, _) => assert_eq!(r.finish_step(&wf.steps, "https://a.com/", false), StepOutcome::Failed),
        _ => panic!("expected the second click"),
    }
    assert!(matches!(r.decide(&wf.steps, "https://a.com/"), ReplayDecision::Finished));
    assert!(r.paused());
    assert_eq!(r.stopped_at, Some(3));
    assert_eq!(r.completed(), 1);
}

#[test]
fn replay_fails_a_hover_step_without_running_it() {
    let mut wf: Workflow<u8> = Workflow::new("w", "https://a.com/");
    wf.record_act("hover", "Menu", "", "https://a.com/", 0, vec![], vec![], String::new(), "");
    wf.record_act("click", "Go", "", "https://a.com/", 0, vec![], vec![], String::new(), "");
    let mut r = Replay::new();
    assert!(matches!(r.decide(&wf.steps, "https://a.com/"), ReplayDecision::Step(0, ReplayCheck::Unsupported)));
    assert_eq!(r.finish_step(&wf.steps, "https://a.com/", true), StepOutcome::Failed);
    assert!(matches!(r.decide(&wf.steps, "https://a.com/"), ReplayDecision::Finished));
    assert!(r.paused());
    assert_eq!(r.stopped_at, Some(1));
    assert_eq!(r.completed(), 0);
}

#[test]
fn replay_mismatch_stops_and_completed_replay_counts_every_action() {
    let mut wf: Workflow<u8> = Workflow::new("w", "https://a.com/");
    wf.record_act("click", "Go", "", "https://a.com/p", 0, vec![], vec![], String::new(), "");
    let mut r = Replay::new();
    assert_eq!(r.finish_step(&wf.steps, "https://b.com/", true), StepOutcome::UrlMismatch);
    assert!(r.paused());
    let mut r = Replay::new();
    assert_eq!(r.finish_step(&wf.steps, "https://a.com/p?x=1", true), StepOutcome::Succeeded);
    assert!(!r.paused());
    assert_eq!(r.completed(), 1);
}

fn api(url: &str, method: &str) -> ApiEndpoint {
    ApiEndpoint { url: url.to_string(), method: method.to_string(), context: String::new(), source: "s".to_string() }
}

#[test]
fn endpoints_once_per_url_in_url_order() {
    let out = dedup_by_url(vec![api("/b", "GET"), api("/a", "POST"), api("/b", "DELETE"), api("/a/x", "GET"), api("/a", "GET")]);
    let got: Vec<(String, String)> = out.iter().map(|a| (a.url.clone(), a.method.clone())).collect();
    assert_eq!(
        got,
        vec![
            ("/a".to_string(), "POST".to_string()),
            ("/a/x".to_string(), "GET".to_string()),
            ("/b".to_string(), "GET".to_string()),
        ]
    );
}

#[test]
fn discovery_rounds() {
    assert_eq!(script_source_name("https://cdn.x.io/js/app.min.js"), "app.min.js");
    assert_eq!(script_source_name("bundle"), "bundle");
    let mut fetched = vec!["https://x.io/a.js".to_string()];
    let cands: Vec<String> = (0..12).map(|i| format!("https://x.io/{}.js", if i == 3 { "a".to_string() } else { (i % 5).to_string() })).collect();
    let batch = next_batch(&cands, &mut fetched);
    assert_eq!(
        batch,
        vec!["https://x.io/0.js", "https://x.io/1.js", "https://x.io/2.js", "https://x.io/4.js", "https://x.io/3.js"]
    );
    assert_eq!(fetched.len(), 6);
    let mut d = Discovery::new(vec![api("/z", "GET")], vec!["https://x.io/m.js".to_string()]);
    let b = d.next_round().unwrap();
    assert_eq!(b, vec!["https://x.io/m.js".to_string()]);
    let (found, imports) = scan_script("https://x.io/m.js", "import\"./c.js\"; x = \"/api/v1/users\";");
    assert_eq!(imports, vec!["https://x.io/c.js".to_string()]);
    assert_eq!(found[0].source, "m.js");
    d.absorb(vec![(found, imports)]);
    assert_eq!(d.to_fetch, vec!["https://x.io/c.js".to_string()]);
    let b = d.next_round().unwrap();
    d.absorb(vec![(vec![api("/a", "GET")], vec!["https://x.io/deeper.js".to_string()])]);
    assert_eq!(b.len(), 1);
    assert!(d.to_fetch.is_empty());
    assert!(d.next_round().is_none());
    let apis = d.finish();
    let urls: Vec<&str> = apis.iter().map(|a| a.url.as_str()).collect();
    assert_eq!(urls, vec!["/a", "/api/v1/users", "/z"]);
}

fn frame(id: &str, url: &str, name: Option<&str>) -> Frame {
    Frame {
        id: id.to_string(),
        parent_id: None,
        loader_id: "L".to_string(),
        name: name.map(|n| n.to_string()),
        url: url.to_string(),
        security_origin: None,
        mime_type: None,
    }
}

fn target(id: &str, kind: &str, url: &str) -> TargetInfo {
    TargetInfo {
        target_id: id.to_string(),
        type_: kind.to_string(),
        title: format!("t{id}"),
        url: url.to_string(),
        attached: None,
        opener_id: None,
        can_access_opener: None,
        browser_context_id: None,
    }
}

#[test]
fn frame_trees_and_targets() {
    let tree = FrameTree {
        frame: frame("main", "https://a.com/", None),
        child_frames: Some(vec![
            FrameTree {
                frame: frame("f1", "https://ads.com/", Some("ad")),
                child_frames: Some(vec![FrameTree { frame: frame("f3", "https://deep.com/", None), child_frames: None }]),
            },
            FrameTree { frame: frame("f2", "https://pay.com/", None), child_frames: None },
        ]),
    };
    let ids: Vec<String> = list_frames(&tree).iter().map(|f| f.id.clone()).collect();
    assert_eq!(ids, vec!["main", "f1", "f3", "f2"]);
    assert_eq!(list_frames(&tree)[1].name, "ad");
    assert_eq!(find_frame_url(&tree, "f3"), Some("https://deep.com/".to_string()));
    assert_eq!(find_frame_url(&tree, "nope"), None);
    let ts = vec![target("w", "worker", ""), target("p1", "page", "https://a.com/"), target("i1", "iframe", "https://pay.com/"), target("p2", "page", "https://b.com/")];
    assert_eq!(first_page_target(&ts), Some(1));
    assert_eq!(tab_target(&ts, 1), Ok(3));
    assert_eq!(tab_target(&ts, 2), Err("Tab 2 not found (have 2)".to_string()));
    assert_eq!(iframe_target(&ts, "f2", "https://pay.com/"), Some(2));
    assert_eq!(iframe_target(&ts, "f2", ""), None);
}

#[test]
fn browser_headers() {
    let mut b = BrowserState::new();
    let h = b.request_headers("https://a.com/x");
    assert_eq!(h.len(), 13);
    assert_eq!(h[0].0, "user-agent");
    assert!(h[0].1.contains("Chrome/136"));
    b.store_cookies("a.com", &vec!["sid=1".to_string(), "bad".to_string()]);
    b.arrive("https://a.com/x".to_string(), "<html></html>".to_string());
    let h = b.request_headers("https://www.a.com/y");
    assert_eq!(h.len(), 15);
    assert_eq!(h[13], ("referer".to_string(), "https://a.com/x".to_string()));
    assert_eq!(h[14], ("cookie".to_string(), "sid=1".to_string()));
    assert_eq!(b.history, vec!["https://a.com/x".to_string()]);
    assert!(is_valid_header_value("a\tb é"));
    assert!(!is_valid_header_value("a\nb"));
    assert_eq!(api_call_plan("post", None), (ApiMethod::Post, Some("{}".to_string())));
    assert_eq!(api_call_plan("Delete", Some("x")), (ApiMethod::Delete, None));
    assert_eq!(api_call_plan("OPTIONS", Some("x")), (ApiMethod::Get, None));
}

#[test]
fn navigation_retries_a_connection_failure_once() {
    assert!(matches!(on_fetch_error("error trying to connect: refused", false), FetchFailure::Retry));
    assert!(matches!(on_fetch_error("Connect timeout", false), FetchFailure::Retry));
    match on_fetch_error("error trying to connect: refused", true) {
        FetchFailure::Fail(e) => assert_eq!(e, "HTTP error (retry): error trying to connect: refused"),
        _ => panic!("expected to give up"),
    }
    match on_fetch_error("invalid URL", false) {
        FetchFailure::Fail(e) => assert_eq!(e, "HTTP error: invalid URL"),
        _ => panic!("expected to give up"),
    }
}
