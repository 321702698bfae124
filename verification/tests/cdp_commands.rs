use neobrowser::cdp::fetch::{HeaderEntry, RequestPattern};
use neobrowser::cdp::{accessibility, browser_domain, dom, dom_storage, emulation, fetch, indexed_db, input, network, page, runtime, target};

#[test]
fn accessibility_test_enable() {
    let c = accessibility::enable();
    assert_eq!(c.method, "Accessibility.enable");
    assert_eq!(c.params, "{}");
}

#[test]
fn optional_parameters_only_when_given() {
    let c = accessibility::get_full_ax_tree(Some(2), Some("F1"));
    assert_eq!(c.method, "Accessibility.getFullAXTree");
    assert_eq!(c.params, "{\"depth\":2,\"frameId\":\"F1\"}");
    let c = accessibility::get_full_ax_tree(None, None);
    assert_eq!(c.params, "{}");
}

#[test]
fn members_in_name_order() {
    let c = dom::describe_node(Some(7), Some(-3), Some("obj"), Some(1), Some(true));
    assert_eq!(c.method, "DOM.describeNode");
    assert_eq!(
        c.params,
        "{\"backendNodeId\":-3,\"depth\":1,\"nodeId\":7,\"objectId\":\"obj\",\"pierce\":true}"
    );
}

#[test]
fn strings_are_json_escaped() {
    let c = dom::set_outer_html(5, "<a href=\"x\">\n</a>");
    assert_eq!(c.params, "{\"nodeId\":5,\"outerHTML\":\"<a href=\\\"x\\\">\\n</a>\"}");
}

#[test]
fn string_arrays() {
    let c = dom::set_file_input_files(&["/tmp/a.txt", "/tmp/b.txt"], Some(3), None, None);
    assert_eq!(c.params, "{\"files\":[\"/tmp/a.txt\",\"/tmp/b.txt\"],\"nodeId\":3}");
    let c = browser_domain::grant_permissions(&[], None, Some("ctx"));
    assert_eq!(c.params, "{\"browserContextId\":\"ctx\",\"permissions\":[]}");
}

#[test]
fn window_bounds_nested_object() {
    let b = browser_domain::WindowBounds { left: Some(10), top: None, width: Some(800), height: None, window_state: Some("normal".to_string()) };
    let c = browser_domain::set_window_bounds(4, &b);
    assert_eq!(c.method, "Browser.setWindowBounds");
    assert_eq!(c.params, "{\"bounds\":{\"left\":10,\"width\":800,\"windowState\":\"normal\"},\"windowId\":4}");
}

#[test]
fn storage_id_nested() {
    let id = dom_storage::StorageId { security_origin: Some("https://a.com".to_string()), storage_key: None, is_local_storage: true };
    let c = dom_storage::set_dom_storage_item(&id, "k", "v");
    assert_eq!(
        c.params,
        "{\"key\":\"k\",\"storageId\":{\"isLocalStorage\":true,\"securityOrigin\":\"https://a.com\"},\"value\":\"v\"}"
    );
}

#[test]
fn fetch_fulfill_with_headers() {
    let hs = vec![HeaderEntry { name: "Content-Type".to_string(), value: "text/plain".to_string() }];
    let c = fetch::fulfill_request("r1", 404, Some(hs), Some("Tm8="), None);
    assert_eq!(c.method, "Fetch.fulfillRequest");
    assert_eq!(
        c.params,
        "{\"body\":\"Tm8=\",\"requestId\":\"r1\",\"responseCode\":404,\"responseHeaders\":[{\"name\":\"Content-Type\",\"value\":\"text/plain\"}]}"
    );
}

#[test]
fn fetch_enable_with_patterns() {
    let ps = vec![RequestPattern { url_pattern: Some("*api*".to_string()), resource_type: None, request_stage: Some("Request".to_string()) }];
    let c = fetch::enable(Some(ps), None);
    assert_eq!(c.params, "{\"patterns\":[{\"requestStage\":\"Request\",\"urlPattern\":\"*api*\"}]}");
    assert_eq!(fetch::enable(None, Some(true)).params, "{\"handleAuthRequests\":true}");
}

#[test]
fn fetch_continue_with_auth_nested() {
    let c = fetch::continue_with_auth("r9", "ProvideCredentials", Some("ana"), Some("pw"));
    assert_eq!(
        c.params,
        "{\"authChallengeResponse\":{\"password\":\"pw\",\"response\":\"ProvideCredentials\",\"username\":\"ana\"},\"requestId\":\"r9\"}"
    );
}

#[test]
fn indexed_db_origin_and_range() {
    let kr = indexed_db::KeyRange { lower: Some("1".to_string()), upper: None, lower_open: false, upper_open: true };
    let c = indexed_db::request_data(Some("https://a.com"), None, "db", "store", "", 0, 25, Some(&kr));
    assert_eq!(c.method, "IndexedDB.requestData");
    assert_eq!(
        c.params,
        "{\"databaseName\":\"db\",\"indexName\":\"\",\"keyRange\":{\"lower\":1,\"lowerOpen\":false,\"upperOpen\":true},\"objectStoreName\":\"store\",\"pageSize\":25,\"securityOrigin\":\"https://a.com\",\"skipCount\":0}"
    );
}

#[test]
fn device_preset_commands() {
    let cs = emulation::apply_device_preset(&emulation::iphone_15_pro());
    assert_eq!(cs.len(), 3);
    assert_eq!(cs[0].method, "Emulation.setDeviceMetricsOverride");
    assert_eq!(cs[0].params, "{\"deviceScaleFactor\":3.0,\"height\":852,\"mobile\":true,\"width\":393}");
    assert_eq!(cs[1].method, "Emulation.setUserAgentOverride");
    assert_eq!(cs[2].params, "{\"enabled\":true,\"maxTouchPoints\":5}");
    let cs = emulation::apply_device_preset(&emulation::desktop_1080p());
    assert_eq!(cs.len(), 1);
}

#[test]
fn screen_orientation_member() {
    let so = emulation::ScreenOrientation { type_: "portraitPrimary".to_string(), angle: 0 };
    let c = emulation::set_device_metrics_override(390, 844, "3", true, Some(&so), None);
    assert_eq!(
        c.params,
        "{\"deviceScaleFactor\":3,\"height\":844,\"mobile\":true,\"screenOrientation\":{\"angle\":0,\"type\":\"portraitPrimary\"},\"width\":390}"
    );
}

#[test]
fn navigation_commands() {
    let p = page::NavigateParams { url: "https://a.com/".to_string(), referrer: None, transition_type: Some("link".to_string()), frame_id: None };
    let c = page::navigate(&p);
    assert_eq!(c.method, "Page.navigate");
    assert_eq!(c.params, "{\"transitionType\":\"link\",\"url\":\"https://a.com/\"}");
    assert_eq!(page::navigation_error(&Some("net::ERR_NAME_NOT_RESOLVED".to_string())), Some("Navigation error: net::ERR_NAME_NOT_RESOLVED".to_string()));
    assert_eq!(page::navigation_error(&None), None);
    assert_eq!(page::reload(Some(true), &None).params, "{\"ignoreCache\":true}");
}

#[test]
fn runtime_evaluate_and_call() {
    let e = runtime::EvaluateParams::new("1+1").return_by_value().await_promise();
    let c = runtime::evaluate(&e);
    assert_eq!(c.method, "Runtime.evaluate");
    assert_eq!(c.params, "{\"awaitPromise\":true,\"expression\":\"1+1\",\"returnByValue\":true}");
    let f = runtime::CallFunctionOnParams::new("function(a){return a}").object_id("o1").arg_value("[1,2]".to_string());
    let c = runtime::call_function_on(&f);
    assert_eq!(
        c.params,
        "{\"arguments\":[{\"value\":[1,2]}],\"functionDeclaration\":\"function(a){return a}\",\"objectId\":\"o1\"}"
    );
}

#[test]
fn extra_headers_object() {
    let hs = vec![("X-B".to_string(), "2".to_string()), ("X-A".to_string(), "1".to_string())];
    let c = network::set_extra_http_headers(&hs).unwrap();
    assert_eq!(c.method, "Network.setExtraHTTPHeaders");
    assert_eq!(c.params, "{\"headers\":{\"X-A\":\"1\",\"X-B\":\"2\"}}");
}

#[test]
fn key_and_mouse_input() {
    let evs = input::press_key("Enter", Some("Enter"), Some(2));
    assert_eq!(evs.len(), 2);
    let c = input::dispatch_key_event(&evs[0]);
    assert_eq!(c.params, "{\"code\":\"Enter\",\"key\":\"Enter\",\"modifiers\":2,\"type\":\"keyDown\"}");
    let clicks = input::double_click("10.5", "20");
    assert_eq!(clicks.len(), 5);
    let c = input::dispatch_mouse_event(&clicks[3]);
    assert_eq!(c.params, "{\"button\":\"left\",\"clickCount\":2,\"type\":\"mousePressed\",\"x\":10.5,\"y\":20}");
    assert_eq!(input::type_text("hi").method, "Input.insertText");
    let combo = input::key_combo(&["Control", "a"]);
    assert_eq!(combo.len(), 4);
    assert_eq!(combo[0].modifiers, Some(2));
    assert_eq!(combo[3].modifiers, Some(0));
}

#[test]
fn target_enable_discovers() {
    let c = target::enable();
    assert_eq!(c.method, "Target.setDiscoverTargets");
    assert_eq!(c.params, "{\"discover\":true}");
}

#[test]
fn string_literals_match_serde_json() {
    for s in ["plain", "q\"b\\s/", "\u{1}\u{8}\u{c}\n\r\t\u{1f}\u{7f}", "é漢字"] {
        let c = dom::set_outer_html(1, s);
        let want = format!("{{\"nodeId\":1,\"outerHTML\":{}}}", serde_json::to_string(s).unwrap());
        assert_eq!(c.params, want);
    }
}

#[test]
fn scoped_transport_routes_to_its_session() {
    let t = neobrowser::cdp::ScopedTransport::new("S1");
    let m = t.message(4, &page::enable());
    assert_eq!(m, "{\"id\":4,\"method\":\"Page.enable\",\"params\":{},\"sessionId\":\"S1\"}");
}
