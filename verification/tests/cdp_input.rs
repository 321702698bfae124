use neobrowser::cdp::input::{
    click, dispatch_key_event, dispatch_mouse_event, dispatch_touch_event, double_click, insert_text, key_combo,
    mouse_move, press_key, right_click, scroll, send_key_events, set_ignore_input_events, synthesize_scroll_gesture, type_text,
    DispatchMouseEventParams, TouchPoint,
};
use neobrowser::cdp::Command;
use neobrowser::keys::{DispatchKeyEventParams, MODIFIER_ALT, MODIFIER_CTRL, MODIFIER_META, MODIFIER_SHIFT};

fn params(c: &Command) -> serde_json::Value {
    serde_json::from_str(&c.params).unwrap()
}

fn mouse(e: &DispatchMouseEventParams) -> serde_json::Value {
    let c = dispatch_mouse_event(e);
    assert_eq!(c.method, "Input.dispatchMouseEvent");
    params(&c)
}

fn key(e: &DispatchKeyEventParams) -> serde_json::Value {
    let c = dispatch_key_event(e);
    assert_eq!(c.method, "Input.dispatchKeyEvent");
    params(&c)
}

#[test]
fn input_dispatch_mouse_event() {
    let e = DispatchMouseEventParams {
        type_: "mousePressed".to_string(),
        x: "100.0".to_string(),
        y: "200.0".to_string(),
        button: Some("left".to_string()),
        click_count: Some(1),
        modifiers: None,
        delta_x: None,
        delta_y: None,
        pointer_type: None,
        timestamp: None,
    };
    let p = mouse(&e);
    assert_eq!(p["type"], "mousePressed");
    assert_eq!(p["x"], 100.0);
    assert_eq!(p["y"], 200.0);
    assert_eq!(p["button"], "left");
    assert_eq!(p["clickCount"], 1);
}

#[test]
fn input_click() {
    let es = click("50.0", "75.0");
    assert_eq!(es.len(), 3);
    let (p0, p1, p2) = (mouse(&es[0]), mouse(&es[1]), mouse(&es[2]));
    assert_eq!(p0["type"], "mouseMoved");
    assert_eq!(p1["type"], "mousePressed");
    assert_eq!(p1["button"], "left");
    assert_eq!(p2["type"], "mouseReleased");
    assert_eq!(p2["button"], "left");
}

#[test]
fn input_double_click() {
    let es = double_click("10.0", "20.0");
    assert_eq!(es.len(), 5);
    let (p3, p4) = (mouse(&es[3]), mouse(&es[4]));
    assert_eq!(p3["type"], "mousePressed");
    assert_eq!(p3["clickCount"], 2);
    assert_eq!(p4["type"], "mouseReleased");
    assert_eq!(p4["clickCount"], 2);
}

#[test]
fn input_right_click() {
    let es = right_click("30.0", "40.0");
    assert_eq!(es.len(), 3);
    assert_eq!(mouse(&es[1])["button"], "right");
    assert_eq!(mouse(&es[2])["button"], "right");
}

#[test]
fn input_dispatch_key_event() {
    let e = DispatchKeyEventParams {
        type_: "keyDown".to_string(),
        modifiers: Some(MODIFIER_CTRL),
        key: Some("Enter".to_string()),
        code: Some("Enter".to_string()),
        text: None,
        unmodified_text: None,
        key_identifier: None,
        windows_virtual_key_code: None,
        native_virtual_key_code: None,
        auto_repeat: None,
        is_keypad: None,
        is_system_key: None,
        location: None,
    };
    let p = key(&e);
    assert_eq!(p["type"], "keyDown");
    assert_eq!(p["key"], "Enter");
    assert_eq!(p["code"], "Enter");
    assert_eq!(p["modifiers"], MODIFIER_CTRL);
}

#[test]
fn input_press_key() {
    let es = press_key("Enter", Some("Enter"), None);
    assert_eq!(es.len(), 2);
    let (p0, p1) = (key(&es[0]), key(&es[1]));
    assert_eq!(p0["type"], "keyDown");
    assert_eq!(p0["key"], "Enter");
    assert_eq!(p1["type"], "keyUp");
    assert_eq!(p1["key"], "Enter");
}

#[test]
fn input_type_text() {
    let c = type_text("Hello, world!");
    assert_eq!(c.method, "Input.insertText");
    assert_eq!(params(&c)["text"], "Hello, world!");
}

#[test]
fn input_insert_text() {
    let c = insert_text("abc");
    assert_eq!(c.method, "Input.insertText");
    assert_eq!(params(&c)["text"], "abc");
}

#[test]
fn input_scroll() {
    let p = mouse(&scroll("400.0".to_string(), "300.0".to_string(), "0.0".to_string(), "-100.0".to_string()));
    assert_eq!(p["type"], "mouseWheel");
    assert_eq!(p["x"], 400.0);
    assert_eq!(p["y"], 300.0);
    assert_eq!(p["deltaX"], 0.0);
    assert_eq!(p["deltaY"], -100.0);
}

#[test]
fn input_mouse_move() {
    let p = mouse(&mouse_move("250.0".to_string(), "350.0".to_string()));
    assert_eq!(p["type"], "mouseMoved");
    assert_eq!(p["x"], 250.0);
    assert_eq!(p["y"], 350.0);
}

#[test]
fn input_touch_event() {
    let points = vec![TouchPoint {
        x: "100.0".to_string(),
        y: "200.0".to_string(),
        radius_x: Some("5.0".to_string()),
        radius_y: Some("5.0".to_string()),
        rotation_angle: None,
        force: Some("1.0".to_string()),
        tangential_pressure: None,
        tilt_x: None,
        tilt_y: None,
        twist: None,
        id: Some("0.0".to_string()),
    }];
    let c = dispatch_touch_event("touchStart", &points, None, None);
    assert_eq!(c.method, "Input.dispatchTouchEvent");
    let p = params(&c);
    assert_eq!(p["type"], "touchStart");
    assert_eq!(p["touchPoints"][0]["x"], 100.0);
    assert_eq!(p["touchPoints"][0]["y"], 200.0);
}

#[test]
fn input_key_combo() {
    let es = key_combo(&["Control", "a"]);
    assert_eq!(es.len(), 4);
    let (p0, p1, p2, p3) = (key(&es[0]), key(&es[1]), key(&es[2]), key(&es[3]));
    assert_eq!(p0["type"], "keyDown");
    assert_eq!(p0["key"], "Control");
    assert_eq!(p0["modifiers"], MODIFIER_CTRL);
    assert_eq!(p1["type"], "keyDown");
    assert_eq!(p1["key"], "a");
    assert_eq!(p1["modifiers"], MODIFIER_CTRL);
    assert_eq!(p2["type"], "keyUp");
    assert_eq!(p2["key"], "a");
    assert_eq!(p3["type"], "keyUp");
    assert_eq!(p3["key"], "Control");
}

#[test]
fn input_set_ignore_input_events() {
    let c = set_ignore_input_events(true);
    assert_eq!(c.method, "Input.setIgnoreInputEvents");
    assert_eq!(params(&c)["ignore"], true);
}

#[test]
fn input_synthesize_scroll_gesture() {
    let c = synthesize_scroll_gesture("100.0", "200.0", None, Some("-300.0"), None, None, Some(true), Some(800), None, None, None);
    assert_eq!(c.method, "Input.synthesizeScrollGesture");
    let p = params(&c);
    assert_eq!(p["x"], 100.0);
    assert_eq!(p["y"], 200.0);
    assert_eq!(p["yDistance"], -300.0);
    assert_eq!(p["preventFling"], true);
    assert_eq!(p["speed"], 800);
    assert!(p.get("xDistance").is_none());
}

#[test]
fn input_modifier_constants() {
    assert_eq!(MODIFIER_ALT, 1);
    assert_eq!(MODIFIER_CTRL, 2);
    assert_eq!(MODIFIER_META, 4);
    assert_eq!(MODIFIER_SHIFT, 8);
    assert_eq!(MODIFIER_CTRL | MODIFIER_SHIFT, 10);
}

#[test]
fn key_combo_stops_at_first_failed_call() {
    let evs = key_combo(&["Control", "a"]);
    let ok: Vec<Result<(), String>> = vec![Ok(()); 4];
    let (sent, out) = send_key_events(&evs, &ok);
    assert_eq!(sent.len(), 4);
    assert_eq!(out, Ok(()));
    let replies = vec![Ok(()), Err("closed".to_string()), Ok(()), Ok(())];
    let (sent, out) = send_key_events(&evs, &replies);
    assert_eq!(sent.len(), 2);
    assert_eq!(params(&sent[1])["key"], "a");
    assert_eq!(out, Err("closed".to_string()));
    let (sent, out) = send_key_events(&key_combo(&[]), &vec![]);
    assert!(sent.is_empty());
    assert_eq!(out, Ok(()));
}
