use neobrowser::har::{har_entry, har_log, har_source, read_script_hook, HarRecord, HarSource};

fn empty_record() -> HarRecord {
    HarRecord {
        method: None,
        url: None,
        status: None,
        started: None,
        request_headers: None,
        post_data: None,
        response_headers: None,
        body: None,
        mime_type: None,
        frame_id: None,
    }
}

#[test]
fn har_entry_defaults() {
    let t = har_entry(&empty_record());
    let mut want = String::from("{\"frameId\":null,");
    want.push_str("\"request\":{\"headers\":null,\"method\":\"GET\",\"postData\":null,\"url\":\"\"},");
    want.push_str("\"response\":{\"content\":{\"mimeType\":null,\"text\":null},\"headers\":null,\"status\":0},");
    want.push_str("\"startedDateTime\":null}");
    assert_eq!(t, want);
}

#[test]
fn har_entry_filled() {
    let mut r = empty_record();
    r.method = Some("POST".to_string());
    r.url = Some("https://a.test/api".to_string());
    r.status = Some(201);
    r.started = Some("1700000000.5".to_string());
    r.request_headers = Some("{\"x\":\"1\"}".to_string());
    r.post_data = Some("\"q=1\"".to_string());
    r.mime_type = Some("\"application/json\"".to_string());
    r.body = Some("\"{}\"".to_string());
    r.frame_id = Some("\"F1\"".to_string());
    let t = har_entry(&r);
    let v: serde_json::Value = serde_json::from_str(&t).unwrap();
    assert_eq!(v["request"]["method"], "POST");
    assert_eq!(v["request"]["url"], "https://a.test/api");
    assert_eq!(v["request"]["headers"]["x"], "1");
    assert_eq!(v["request"]["postData"], "q=1");
    assert_eq!(v["response"]["status"], 201);
    assert_eq!(v["response"]["content"]["mimeType"], "application/json");
    assert_eq!(v["response"]["content"]["text"], "{}");
    assert_eq!(v["frameId"], "F1");
    assert_eq!(v["startedDateTime"], 1700000000.5);
}

#[test]
fn har_log_keeps_order() {
    let mut a = empty_record();
    a.url = Some("https://a.test/1".to_string());
    let mut b = empty_record();
    b.url = Some("https://a.test/2".to_string());
    let t = har_log(&vec![a, b]);
    let v: serde_json::Value = serde_json::from_str(&t).unwrap();
    assert_eq!(v["log"]["version"], "1.2");
    assert_eq!(v["log"]["entries"].as_array().unwrap().len(), 2);
    assert_eq!(v["log"]["entries"][0]["request"]["url"], "https://a.test/1");
    assert_eq!(v["log"]["entries"][1]["request"]["url"], "https://a.test/2");
    assert_eq!(har_log(&vec![]), "{\"log\":{\"entries\":[],\"version\":\"1.2\"}}");
}

#[test]
fn har_sources() {
    assert_eq!(har_source(Some("cdp")), HarSource::Cdp);
    assert_eq!(har_source(Some("js")), HarSource::Js);
    assert_eq!(har_source(Some("other")), HarSource::Auto);
    assert_eq!(har_source(None), HarSource::Auto);
    assert!(!read_script_hook(HarSource::Cdp, 0));
    assert!(read_script_hook(HarSource::Js, 5));
    assert!(read_script_hook(HarSource::Auto, 0));
    assert!(!read_script_hook(HarSource::Auto, 3));
}
