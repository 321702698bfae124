use neobrowser::cdp::mock::MockTransport;

#[test]
fn mock_responds_to_expected_method() {
    let mut mock = MockTransport::new();
    mock.expect("Page.navigate", "{\"frameId\":\"abc123\"}".to_string());
    let result = mock.resolve("Page.navigate", "{\"url\":\"https://example.com\"}".to_string(), None);
    assert_eq!(result, Ok("{\"frameId\":\"abc123\"}".to_string()));
}

#[test]
fn mock_fails_on_unexpected_method() {
    let mut mock = MockTransport::new();
    let result = mock.resolve("Page.navigate", "{}".to_string(), None);
    assert_eq!(result, Err("MockTransport: unexpected call to Page.navigate".to_string()));
}

#[test]
fn mock_error_response() {
    let mut mock = MockTransport::new();
    mock.expect_error("Page.navigate", "Page not found");
    let result = mock.resolve("Page.navigate", "{}".to_string(), None);
    assert!(result.unwrap_err().contains("Page not found"));
}

#[test]
fn mock_records_calls() {
    let mut mock = MockTransport::new();
    mock.set_default_response("{}".to_string());
    mock.resolve("Page.enable", "null".to_string(), None).unwrap();
    mock.resolve("Runtime.enable", "null".to_string(), None).unwrap();
    mock.resolve("Page.navigate", "{\"url\":\"https://x.com\"}".to_string(), None).unwrap();
    assert_eq!(mock.call_count("Page.enable"), 1);
    assert_eq!(mock.call_count("Runtime.enable"), 1);
    assert_eq!(mock.call_count("Page.navigate"), 1);
    assert_eq!(mock.call_count("DOM.enable"), 0);
}

#[test]
fn mock_call_params_accessible() {
    let mut mock = MockTransport::new();
    mock.expect("Page.navigate", "{\"frameId\":\"f1\"}".to_string());
    mock.resolve("Page.navigate", "{\"url\":\"https://test.com\"}".to_string(), None).unwrap();
    let params = mock.call_params("Page.navigate", 0).unwrap();
    assert_eq!(params, "{\"url\":\"https://test.com\"}");
    assert_eq!(mock.call_params("Page.navigate", 1), None);
}

#[test]
fn mock_fifo_expectations() {
    let mut mock = MockTransport::new();
    mock.expect("Runtime.evaluate", "{\"result\":{\"value\":1}}".to_string());
    mock.expect("Runtime.evaluate", "{\"result\":{\"value\":2}}".to_string());
    let r1 = mock.resolve("Runtime.evaluate", "{}".to_string(), None).unwrap();
    let r2 = mock.resolve("Runtime.evaluate", "{}".to_string(), None).unwrap();
    assert_eq!(r1, "{\"result\":{\"value\":1}}");
    assert_eq!(r2, "{\"result\":{\"value\":2}}");
}

#[test]
fn mock_dead_connection() {
    let mut mock = MockTransport::new();
    mock.set_alive(false);
    let result = mock.resolve("Page.enable", "null".to_string(), None);
    assert!(result.unwrap_err().contains("dead"));
    assert_eq!(mock.call_count("Page.enable"), 1);
}

#[test]
fn mock_send_to_with_session() {
    let mut mock = MockTransport::new();
    mock.expect("Page.navigate", "{\"frameId\":\"f1\"}".to_string());
    let result = mock
        .resolve("Page.navigate", "{\"url\":\"https://x.com\"}".to_string(), Some("session-abc".to_string()))
        .unwrap();
    assert_eq!(result, "{\"frameId\":\"f1\"}");
    let calls = mock.calls();
    assert_eq!(calls[0].session_id, Some("session-abc".to_string()));
    assert_eq!(calls[0].method, "Page.navigate");
}

#[test]
fn mock_default_response() {
    let mut mock = MockTransport::new();
    mock.set_default_response("{}".to_string());
    let r = mock.resolve("SomeRandom.method", "{}".to_string(), None);
    assert!(r.is_ok());
}

#[test]
fn mock_reset_clears_state() {
    let mut mock = MockTransport::new();
    mock.set_default_response("{}".to_string());
    mock.expect("Page.enable", "{\"x\":1}".to_string());
    mock.resolve("Page.enable", "null".to_string(), None).unwrap();
    mock.expect("Page.enable", "{\"x\":2}".to_string());
    mock.reset();
    assert_eq!(mock.call_count("Page.enable"), 0);
    // the default response stays; the programmed answers are gone
    assert_eq!(mock.resolve("Page.enable", "null".to_string(), None), Ok("{}".to_string()));
}

#[test]
fn mock_answers_each_method_from_its_own_queue() {
    let mut mock = MockTransport::new();
    mock.expect("A.x", "1".to_string());
    mock.expect("B.y", "2".to_string());
    mock.expect("A.x", "3".to_string());
    assert_eq!(mock.resolve("B.y", "{}".to_string(), None), Ok("2".to_string()));
    assert_eq!(mock.resolve("A.x", "{}".to_string(), None), Ok("1".to_string()));
    assert_eq!(mock.resolve("A.x", "{}".to_string(), None), Ok("3".to_string()));
    assert!(mock.resolve("A.x", "{}".to_string(), None).is_err());
}
