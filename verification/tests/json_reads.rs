use neobrowser::dom_tree::script_result;
use neobrowser::json::{json_bool, json_member, json_object_members, json_str, json_u64, JsonValue};

fn doc(t: &str) -> JsonValue {
    script_result(Some(t.to_string()), "{}", "test").unwrap()
}

#[test]
fn json_member_reads() {
    let d = doc("{\"ok\":true,\"n\":7,\"f\":1.5,\"neg\":-2,\"s\":\"x\",\"o\":{\"b\":\"2\",\"a\":1}}");
    assert_eq!(json_bool(&d, "ok"), Some(true));
    assert_eq!(json_bool(&d, "s"), None);
    assert_eq!(json_u64(&d, "n"), Some(7));
    assert_eq!(json_u64(&d, "f"), None);
    assert_eq!(json_u64(&d, "neg"), None);
    assert_eq!(json_str(&d, "s"), Some("x".to_string()));
    assert_eq!(json_str(&d, "missing"), None);
    assert!(json_member(&d, "o").is_some());
    assert_eq!(
        json_object_members(&d, "o"),
        Some(vec![("a".to_string(), None), ("b".to_string(), Some("2".to_string()))])
    );
    assert_eq!(json_object_members(&d, "s"), None);
    let a = doc("[1]");
    assert_eq!(json_str(&a, "s"), None);
}
