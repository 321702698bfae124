use neobrowser::cookie_file::{cookie_entry_of, cookie_fields_of, cookie_file_objects, cookie_param, cookie_params, load_cookies_command, THIRTY_DAYS_SECS};
use neobrowser::profile_cookies::CookieFields;

fn fields(name: Option<&str>, value: Option<&str>) -> CookieFields {
    CookieFields {
        name: name.map(|s| s.to_string()),
        value: value.map(|s| s.to_string()),
        domain: None,
        path: None,
        secure: None,
        http_only: None,
        expires_secs: None,
        session: None,
    }
}

#[test]
fn cookie_param_fills_defaults() {
    let mut c = fields(Some("sid"), Some("abc"));
    c.domain = Some(".example.com".to_string());
    let p = cookie_param(&c, 1000).unwrap();
    assert_eq!(p.name, "sid");
    assert_eq!(p.value, "abc");
    assert_eq!(p.domain.as_deref(), Some(".example.com"));
    assert_eq!(p.path.as_deref(), Some("/"));
    assert_eq!(p.url.as_deref(), Some("http://example.com/"));
    assert_eq!(p.secure, Some(false));
    assert_eq!(p.http_only, Some(false));
    assert_eq!(p.expires.as_deref(), Some("1000"));
}

#[test]
fn cookie_param_keeps_given_values() {
    let mut c = fields(Some("a"), Some("b"));
    c.domain = Some("..shop.test".to_string());
    c.path = Some("/cart".to_string());
    c.secure = Some(true);
    c.http_only = Some(true);
    c.expires_secs = Some(1_900_000_000);
    let p = cookie_param(&c, 5).unwrap();
    assert_eq!(p.url.as_deref(), Some("https://shop.test/"));
    assert_eq!(p.path.as_deref(), Some("/cart"));
    assert_eq!(p.secure, Some(true));
    assert_eq!(p.http_only, Some(true));
    assert_eq!(p.expires.as_deref(), Some("1900000000"));
}

#[test]
fn cookies_without_name_or_value_are_skipped() {
    assert!(cookie_param(&fields(None, Some("v")), 0).is_none());
    assert!(cookie_param(&fields(Some("n"), None), 0).is_none());
    let cs = vec![fields(Some("a"), Some("1")), fields(None, Some("2")), fields(Some("c"), Some("3"))];
    let ps = cookie_params(&cs, 7);
    assert_eq!(ps.len(), 2);
    assert_eq!(ps[0].name, "a");
    assert_eq!(ps[1].name, "c");
}

#[test]
fn load_command_defaults_to_thirty_days() {
    let cs = vec![fields(Some("a"), Some("1"))];
    let c = load_cookies_command(&cs, 1_700_000_000);
    assert_eq!(c.method, "Network.setCookies");
    let v: serde_json::Value = serde_json::from_str(&c.params).unwrap();
    assert_eq!(v["cookies"][0]["expires"], 1_700_000_000i64 + THIRTY_DAYS_SECS);
    assert_eq!(v["cookies"][0]["url"], "http:///");
    assert_eq!(v["cookies"][0]["domain"], "");
}

#[test]
fn cookie_file_shapes() {
    let a = cookie_file_objects("[{\"name\":\"a\"},{\"name\":\"b\"}]", "bad shape").unwrap();
    assert_eq!(a.len(), 2);
    let b = cookie_file_objects("{\"url\":\"x\",\"cookies\":[{\"name\":\"a\"}]}", "bad shape").unwrap();
    assert_eq!(b.len(), 1);
    assert_eq!(cookie_file_objects("{\"cookies\":{}}", "bad shape").unwrap_err(), "bad shape");
    assert_eq!(cookie_file_objects("{\"other\":[]}", "bad shape").unwrap_err(), "bad shape");
    assert_eq!(cookie_file_objects("7", "bad shape").unwrap_err(), "bad shape");
    assert_ne!(cookie_file_objects("[", "bad shape").unwrap_err(), "bad shape");
}

#[test]
fn cookie_objects_read_field_by_field() {
    let cs = cookie_file_objects(
        "[{\"name\":\"sid\",\"value\":\"1\",\"domain\":\".a.com\",\"httpOnly\":true,\"secure\":false,\"session\":true,\"path\":3}]",
        "x",
    )
    .unwrap();
    let e = cookie_entry_of(&cs[0], Some(9));
    assert_eq!(e.name.as_deref(), Some("sid"));
    assert_eq!(e.value.as_deref(), Some("1"));
    assert_eq!(e.domain.as_deref(), Some(".a.com"));
    assert_eq!(e.path, None);
    assert_eq!(e.http_only, Some(true));
    assert_eq!(e.secure, Some(false));
    assert_eq!(e.expires, Some(9));
    let f = cookie_fields_of(&cs[0], None);
    assert_eq!(f.session, Some(true));
    assert_eq!(f.expires_secs, None);
}
