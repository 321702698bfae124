use neobrowser::cdp::browser_domain::{BrowserVersion, Bucket};
use neobrowser::cdp::network::{emulate_network_conditions, NetworkConditions};
use neobrowser::cdp::page::{JavascriptDialogOpeningEvent, NavigateResult};
use neobrowser::cdp::security::CertificateErrorEvent;
use neobrowser::cdp::target::RemoteLocation;
use neobrowser::dom_tree::script_result;
use neobrowser::json::JsonValue;

fn doc(t: &str) -> JsonValue {
    script_result(Some(t.to_string()), "{}", "test").unwrap()
}

#[test]
fn browser_version_reply() {
    let v = doc("{\"protocolVersion\":\"1.3\",\"product\":\"Chrome/136\",\"revision\":\"@x\",\"userAgent\":\"UA\",\"jsVersion\":\"13.6\"}");
    let b = BrowserVersion::from_json(&v).unwrap();
    assert_eq!(b.product, "Chrome/136");
    assert_eq!(b.js_version, "13.6");
    assert!(BrowserVersion::from_json(&doc("{\"product\":\"x\"}")).is_none());
}

#[test]
fn optional_members_and_types() {
    let n = NavigateResult::from_json(&doc("{\"frameId\":\"F\",\"errorText\":null}")).unwrap();
    assert_eq!(n.frame_id, "F");
    assert_eq!(n.loader_id, None);
    assert_eq!(n.error_text, None);
    assert!(NavigateResult::from_json(&doc("{\"frameId\":\"F\",\"loaderId\":5}")).is_none());
    let d = JavascriptDialogOpeningEvent::from_json(&doc("{\"url\":\"u\",\"message\":\"m\",\"type\":\"alert\",\"hasBrowserHandler\":true}")).unwrap();
    assert_eq!(d.type_, "alert");
    assert_eq!(d.has_browser_handler, Some(true));
}

#[test]
fn integer_members() {
    let b = Bucket::from_json(&doc("{\"low\":1,\"high\":-2,\"count\":3}")).unwrap();
    assert_eq!((b.low, b.high, b.count), (1, -2, 3));
    assert!(Bucket::from_json(&doc("{\"low\":1.5,\"high\":2,\"count\":3}")).is_none());
    assert!(Bucket::from_json(&doc("{\"low\":3000000000,\"high\":2,\"count\":3}")).is_none());
    let e = CertificateErrorEvent::from_json(&doc("{\"eventId\":3000000000,\"errorType\":\"t\",\"requestURL\":\"https://x/\"}")).unwrap();
    assert_eq!(e.event_id, 3000000000);
    assert_eq!(RemoteLocation::from_json(&doc("{\"host\":\"h\",\"port\":9222}")).unwrap().port, 9222);
}

#[test]
fn network_condition_presets() {
    let c = emulate_network_conditions(&NetworkConditions::slow_3g());
    let p: serde_json::Value = serde_json::from_str(&c.params).unwrap();
    assert_eq!(p["latency"], 2000.0);
    assert_eq!(p["downloadThroughput"], 50000.0);
    assert_eq!(p["offline"], false);
    assert!(NetworkConditions::offline().offline);
    assert_eq!(NetworkConditions::no_throttle().download_throughput, "-1.0");
}
