//! The `Input` domain: mouse, keyboard, touch and gesture events.
use vstd::prelude::*;
use crate::cdp::{sends_until_failure, send_until_failure, Command, Params, opt_string_m, opt_string_raw_m, objs_m, object, int_m, bool_m, str_m, raw_m, opt_i32_m, opt_bool_m, opt_str_m, opt_raw_m, str_views};
use crate::keys::{DispatchKeyEventParams, plain, well_formed_event, stroke_of, combo_strokes, key_texts, key_combo_events};
use crate::mouse;
use crate::mouse::{MouseEvent, MouseEventKind, MouseButton, click_events, double_click_events, right_click_events};

verus! {

/// A mouse event: its type, position, and each given detail; numbers with a fraction as their JSON text.
#[derive(Debug, Clone)]
pub struct DispatchMouseEventParams {
    pub type_: String,
    pub x: String,
    pub y: String,
    pub button: Option<String>,
    pub click_count: Option<i32>,
    pub modifiers: Option<i32>,
    pub delta_x: Option<String>,
    pub delta_y: Option<String>,
    pub pointer_type: Option<String>,
    pub timestamp: Option<String>,
}

/// The members of a `DispatchMouseEventParams`: those it has, in name order.
pub open spec fn dispatch_mouse_event_params_members(v: DispatchMouseEventParams) -> Seq<Seq<char>> {
    opt_string_m("button"@, v.button) + opt_i32_m("clickCount"@, v.click_count)
        + opt_string_raw_m("deltaX"@, v.delta_x) + opt_string_raw_m("deltaY"@, v.delta_y)
        + opt_i32_m("modifiers"@, v.modifiers) + opt_string_m("pointerType"@, v.pointer_type)
        + opt_string_raw_m("timestamp"@, v.timestamp) + str_m("type"@, v.type_@) + raw_m("x"@, v.x@)
        + raw_m("y"@, v.y@)
}

fn dispatch_mouse_event_params_params(v: &DispatchMouseEventParams) -> (p: Params)
    ensures
        p.members() == dispatch_mouse_event_params_members(*v),
{
    let mut p = Params::new();
    p.opt_string("button", &v.button);
    p.opt_i32("clickCount", v.click_count);
    p.opt_raw_string("deltaX", &v.delta_x);
    p.opt_raw_string("deltaY", &v.delta_y);
    p.opt_i32("modifiers", v.modifiers);
    p.opt_string("pointerType", &v.pointer_type);
    p.opt_raw_string("timestamp", &v.timestamp);
    p.text("type", v.type_.as_str());
    p.raw("x", v.x.as_str());
    p.raw("y", v.y.as_str());
    assert(p.members() =~= dispatch_mouse_event_params_members(*v));
    p
}

/// The members of a `DispatchKeyEventParams`: those it has, in name order.
pub open spec fn dispatch_key_event_params_members(v: DispatchKeyEventParams) -> Seq<Seq<char>> {
    opt_bool_m("autoRepeat"@, v.auto_repeat) + opt_string_m("code"@, v.code)
        + opt_bool_m("isKeypad"@, v.is_keypad) + opt_bool_m("isSystemKey"@, v.is_system_key)
        + opt_string_m("key"@, v.key) + opt_string_m("keyIdentifier"@, v.key_identifier)
        + opt_i32_m("location"@, v.location) + opt_i32_m("modifiers"@, v.modifiers)
        + opt_i32_m("nativeVirtualKeyCode"@, v.native_virtual_key_code)
        + opt_string_m("text"@, v.text) + str_m("type"@, v.type_@)
        + opt_string_m("unmodifiedText"@, v.unmodified_text)
        + opt_i32_m("windowsVirtualKeyCode"@, v.windows_virtual_key_code)
}

fn dispatch_key_event_params_params(v: &DispatchKeyEventParams) -> (p: Params)
    ensures
        p.members() == dispatch_key_event_params_members(*v),
{
    let mut p = Params::new();
    p.opt_flag("autoRepeat", v.auto_repeat);
    p.opt_string("code", &v.code);
    p.opt_flag("isKeypad", v.is_keypad);
    p.opt_flag("isSystemKey", v.is_system_key);
    p.opt_string("key", &v.key);
    p.opt_string("keyIdentifier", &v.key_identifier);
    p.opt_i32("location", v.location);
    p.opt_i32("modifiers", v.modifiers);
    p.opt_i32("nativeVirtualKeyCode", v.native_virtual_key_code);
    p.opt_string("text", &v.text);
    p.text("type", v.type_.as_str());
    p.opt_string("unmodifiedText", &v.unmodified_text);
    p.opt_i32("windowsVirtualKeyCode", v.windows_virtual_key_code);
    assert(p.members() =~= dispatch_key_event_params_members(*v));
    p
}

/// A point of contact of a touch event; numbers with a fraction as their JSON text.
#[derive(Debug, Clone)]
pub struct TouchPoint {
    pub x: String,
    pub y: String,
    pub radius_x: Option<String>,
    pub radius_y: Option<String>,
    pub rotation_angle: Option<String>,
    pub force: Option<String>,
    pub tangential_pressure: Option<String>,
    pub tilt_x: Option<String>,
    pub tilt_y: Option<String>,
    pub twist: Option<i32>,
    pub id: Option<String>,
}

/// The members of a `TouchPoint`: those it has, in name order.
pub open spec fn touch_point_members(v: TouchPoint) -> Seq<Seq<char>> {
    opt_string_raw_m("force"@, v.force) + opt_string_raw_m("id"@, v.id)
        + opt_string_raw_m("radiusX"@, v.radius_x) + opt_string_raw_m("radiusY"@, v.radius_y)
        + opt_string_raw_m("rotationAngle"@, v.rotation_angle)
        + opt_string_raw_m("tangentialPressure"@, v.tangential_pressure)
        + opt_string_raw_m("tiltX"@, v.tilt_x) + opt_string_raw_m("tiltY"@, v.tilt_y)
        + opt_i32_m("twist"@, v.twist) + raw_m("x"@, v.x@) + raw_m("y"@, v.y@)
}

fn touch_point_params(v: &TouchPoint) -> (p: Params)
    ensures
        p.members() == touch_point_members(*v),
{
    let mut p = Params::new();
    p.opt_raw_string("force", &v.force);
    p.opt_raw_string("id", &v.id);
    p.opt_raw_string("radiusX", &v.radius_x);
    p.opt_raw_string("radiusY", &v.radius_y);
    p.opt_raw_string("rotationAngle", &v.rotation_angle);
    p.opt_raw_string("tangentialPressure", &v.tangential_pressure);
    p.opt_raw_string("tiltX", &v.tilt_x);
    p.opt_raw_string("tiltY", &v.tilt_y);
    p.opt_i32("twist", v.twist);
    p.raw("x", v.x.as_str());
    p.raw("y", v.y.as_str());
    assert(p.members() =~= touch_point_members(*v));
    p
}

fn touch_point_list(items: &Vec<TouchPoint>) -> (r: Vec<Params>)
    ensures
        r@.map_values(|p: Params| p.members()) == items@.map_values(|v: TouchPoint| touch_point_members(v)),
{
    let mut r: Vec<Params> = Vec::new();
    let mut i: usize = 0;
    while i < items.len()
        invariant
            i <= items@.len(),
            r@.len() == i,
            forall|j: int| 0 <= j < i ==> #[trigger] r@[j].members() == touch_point_members(items@[j]),
        decreases items@.len() - i,
    {
        r.push(touch_point_params(&items[i]));
        i = i + 1;
    }
    assert(r@.map_values(|p: Params| p.members()) =~= items@.map_values(|v: TouchPoint| touch_point_members(v)));
    r
}

/// The `Input.dispatchMouseEvent` command.
pub fn dispatch_mouse_event(params: &DispatchMouseEventParams) -> (c: Command)
    ensures
        c.method@ == "Input.dispatchMouseEvent"@,
        c.params@ == object(dispatch_mouse_event_params_members(*params)),
{
    let p = dispatch_mouse_event_params_params(params);
    p.command("Input.dispatchMouseEvent")
}

/// The `Input.dispatchKeyEvent` command.
pub fn dispatch_key_event(params: &DispatchKeyEventParams) -> (c: Command)
    ensures
        c.method@ == "Input.dispatchKeyEvent"@,
        c.params@ == object(dispatch_key_event_params_members(*params)),
{
    let p = dispatch_key_event_params_params(params);
    p.command("Input.dispatchKeyEvent")
}

/// The `Input.dispatchTouchEvent` command: a touch event of the given type
/// with its points, and the modifiers and time stamp (as a JSON number) when
/// given.
pub fn dispatch_touch_event(type_: &str, touch_points: &Vec<TouchPoint>, modifiers: Option<i32>, timestamp: Option<&str>) -> (c: Command)
    ensures
        c.method@ == "Input.dispatchTouchEvent"@,
        c.params@ == object(opt_i32_m("modifiers"@, modifiers) + opt_raw_m("timestamp"@, timestamp)
            + objs_m("touchPoints"@, touch_points@.map_values(|x: TouchPoint| touch_point_members(x))) + str_m("type"@, type_@)),
{
    let mut p = Params::new();
    p.opt_i32("modifiers", modifiers);
    p.opt_raw("timestamp", timestamp);
    p.nested_list("touchPoints", touch_point_list(touch_points));
    p.text("type", type_);
    assert(p.members() =~= opt_i32_m("modifiers"@, modifiers) + opt_raw_m("timestamp"@, timestamp)
        + objs_m("touchPoints"@, touch_points@.map_values(|x: TouchPoint| touch_point_members(x))) + str_m("type"@, type_@));
    p.command("Input.dispatchTouchEvent")
}

/// The event that moves the mouse to a position, numbers given as their
/// JSON text.
pub fn mouse_move(x: String, y: String) -> (e: DispatchMouseEventParams)
    ensures
        e.type_@ == "mouseMoved"@ && e.x == x && e.y == y,
        e.button is None && e.click_count is None && e.modifiers is None && e.delta_x is None,
        e.delta_y is None && e.pointer_type is None && e.timestamp is None,
{
    DispatchMouseEventParams {
        type_: "mouseMoved".to_owned(),
        x,
        y,
        button: None,
        click_count: None,
        modifiers: None,
        delta_x: None,
        delta_y: None,
        pointer_type: None,
        timestamp: None,
    }
}

/// The wheel event that scrolls by the given amounts at a position, numbers
/// given as their JSON text.
pub fn scroll(x: String, y: String, delta_x: String, delta_y: String) -> (e: DispatchMouseEventParams)
    ensures
        e.type_@ == "mouseWheel"@ && e.x == x && e.y == y,
        e.delta_x == Some(delta_x) && e.delta_y == Some(delta_y),
        e.button is None && e.click_count is None && e.modifiers is None,
        e.pointer_type is None && e.timestamp is None,
{
    DispatchMouseEventParams {
        type_: "mouseWheel".to_owned(),
        x,
        y,
        button: None,
        click_count: None,
        modifiers: None,
        delta_x: Some(delta_x),
        delta_y: Some(delta_y),
        pointer_type: None,
        timestamp: None,
    }
}

/// The name of a mouse event kind in the protocol.
pub open spec fn kind_text(k: MouseEventKind) -> Seq<char> {
    match k {
        MouseEventKind::Moved => "mouseMoved"@,
        MouseEventKind::Pressed => "mousePressed"@,
        MouseEventKind::Released => "mouseReleased"@,
    }
}

/// The name of a mouse button in the protocol.
pub open spec fn button_text(b: MouseButton) -> Seq<char> {
    match b {
        MouseButton::Left => "left"@,
        MouseButton::Right => "right"@,
    }
}

/// The parameters stand for the event: its kind, point, button and click
/// count, and nothing else.
pub open spec fn stands_for(p: DispatchMouseEventParams, e: MouseEvent<&str>) -> bool {
    &&& p.type_@ == kind_text(e.kind)
    &&& p.x@ == e.x@
    &&& p.y@ == e.y@
    &&& match e.button {
        Some(b) => p.button matches Some(t) && t@ == button_text(b),
        None => p.button is None,
    }
    &&& p.click_count == e.click_count
    &&& p.modifiers is None && p.delta_x is None && p.delta_y is None
    &&& p.pointer_type is None && p.timestamp is None
}

/// The parameters of a mouse event at a point given as JSON numbers.
pub fn mouse_event_params(e: &MouseEvent<&str>) -> (p: DispatchMouseEventParams)
    ensures
        stands_for(p, *e),
{
    let type_ = match e.kind {
        MouseEventKind::Moved => "mouseMoved",
        MouseEventKind::Pressed => "mousePressed",
        MouseEventKind::Released => "mouseReleased",
    };
    let button = match e.button {
        Some(MouseButton::Left) => Some("left".to_owned()),
        Some(MouseButton::Right) => Some("right".to_owned()),
        None => None,
    };
    DispatchMouseEventParams {
        type_: type_.to_owned(),
        x: e.x.to_owned(),
        y: e.y.to_owned(),
        button,
        click_count: e.click_count,
        modifiers: None,
        delta_x: None,
        delta_y: None,
        pointer_type: None,
        timestamp: None,
    }
}

fn all_params(es: &Vec<MouseEvent<&str>>) -> (r: Vec<DispatchMouseEventParams>)
    ensures
        r@.len() == es@.len(),
        forall|i: int| 0 <= i < es@.len() ==> stands_for(#[trigger] r@[i], es@[i]),
{
    let mut r: Vec<DispatchMouseEventParams> = Vec::new();
    let mut i: usize = 0;
    while i < es.len()
        invariant
            i <= es@.len(),
            r@.len() == i,
            forall|j: int| 0 <= j < i ==> stands_for(#[trigger] r@[j], es@[j]),
        decreases es@.len() - i,
    {
        r.push(mouse_event_params(&es[i]));
        i = i + 1;
    }
    r
}

/// The mouse events of a left click at a point given as JSON numbers.
pub fn click<'a>(x: &'a str, y: &'a str) -> (r: Vec<DispatchMouseEventParams>)
    ensures
        r@.len() == click_events(x, y).len(),
        forall|i: int| 0 <= i < r@.len() ==> stands_for(#[trigger] r@[i], click_events(x, y)[i]),
{
    all_params(&mouse::click(x, y))
}

/// The mouse events of a double click at a point given as JSON numbers.
pub fn double_click<'a>(x: &'a str, y: &'a str) -> (r: Vec<DispatchMouseEventParams>)
    ensures
        r@.len() == double_click_events(x, y).len(),
        forall|i: int| 0 <= i < r@.len() ==> stands_for(#[trigger] r@[i], double_click_events(x, y)[i]),
{
    all_params(&mouse::double_click(x, y))
}

/// The mouse events of a right click at a point given as JSON numbers.
pub fn right_click<'a>(x: &'a str, y: &'a str) -> (r: Vec<DispatchMouseEventParams>)
    ensures
        r@.len() == right_click_events(x, y).len(),
        forall|i: int| 0 <= i < r@.len() ==> stands_for(#[trigger] r@[i], right_click_events(x, y)[i]),
{
    all_params(&mouse::right_click(x, y))
}

/// The command that types text: `Input.insertText`.
pub fn type_text(text: &str) -> (c: Command)
    ensures
        c.method@ == "Input.insertText"@,
        c.params@ == object(str_m("text"@, text@)),
{
    insert_text(text)
}

/// The key events that press a key and release it, both with the given
/// code and modifiers.
pub fn press_key(key: &str, code: Option<&str>, modifiers: Option<i32>) -> (r: Vec<DispatchKeyEventParams>)
    ensures
        r@.len() == 2,
        r@[0].type_@ == "keyDown"@ && r@[1].type_@ == "keyUp"@,
        forall|i: int| 0 <= i < 2 ==> {
            &&& plain(#[trigger] r@[i])
            &&& (r@[i].key matches Some(k) && k@ == key@)
            &&& r@[i].modifiers == modifiers
            &&& match code {
                Some(c) => r@[i].code matches Some(d) && d@ == c@,
                None => r@[i].code is None,
            }
        },
{
    let mut r: Vec<DispatchKeyEventParams> = Vec::new();
    let mut down = DispatchKeyEventParams::default();
    down.type_ = "keyDown".to_owned();
    down.key = Some(key.to_owned());
    down.code = match code { Some(c) => Some(c.to_owned()), None => None };
    down.modifiers = modifiers;
    let mut up = DispatchKeyEventParams::default();
    up.type_ = "keyUp".to_owned();
    up.key = Some(key.to_owned());
    up.code = match code { Some(c) => Some(c.to_owned()), None => None };
    up.modifiers = modifiers;
    r.push(down);
    r.push(up);
    r
}

/// The key events of a combination such as `Control`, `Shift`, `t`: every
/// key but the last is held while the last is pressed.
pub fn key_combo(keys: &[&str]) -> (r: Vec<DispatchKeyEventParams>)
    ensures
        forall|i: int| 0 <= i < r@.len() ==> well_formed_event(#[trigger] r@[i]),
        r@.map_values(|p: DispatchKeyEventParams| stroke_of(p)) == combo_strokes(str_views(keys@)),
{
    let mut owned: Vec<String> = Vec::new();
    let mut i: usize = 0;
    while i < keys.len()
        invariant
            i <= keys@.len(),
            owned@.len() == i,
            forall|j: int| 0 <= j < i ==> #[trigger] owned@[j]@ == keys@[j]@,
        decreases keys@.len() - i,
    {
        owned.push(keys[i].to_owned());
        i = i + 1;
    }
    assert(key_texts(owned@) =~= str_views(keys@));
    key_combo_events(&owned)
}

/// Sends key events one at a time, as a key combination is sent: the
/// commands sent, in order, and the outcome, stopping at the first call that
/// fails; `replies` holds the reply each call gets.
pub fn send_key_events(events: &Vec<DispatchKeyEventParams>, replies: &Vec<Result<(), String>>) -> (r: (Vec<Command>, Result<(), String>))
    requires
        events@.len() <= replies@.len(),
    ensures
        sends_until_failure(events@.len() as int, replies@, r.0@.len() as int, r.1),
        forall|i: int| 0 <= i < r.0@.len() ==> (#[trigger] r.0@[i]).method@ == "Input.dispatchKeyEvent"@
            && r.0@[i].params@ == object(dispatch_key_event_params_members(events@[i])),
{
    let (calls, outcome) = send_until_failure(events.len(), replies);
    let mut sent: Vec<Command> = Vec::new();
    let mut i: usize = 0;
    while i < calls
        invariant
            i <= calls <= events@.len(),
            sent@.len() == i,
            forall|k: int| 0 <= k < i ==> (#[trigger] sent@[k]).method@ == "Input.dispatchKeyEvent"@
                && sent@[k].params@ == object(dispatch_key_event_params_members(events@[k])),
        decreases calls - i,
    {
        sent.push(dispatch_key_event(&events[i]));
        i = i + 1;
    }
    (sent, outcome)
}

/// The `Input.insertText` command.
pub fn insert_text(text: &str) -> (c: Command)
    ensures
        c.method@ == "Input.insertText"@,
        c.params@ == object(str_m("text"@, text@)),
{
    let mut p = Params::new();
    p.text("text", text);
    assert(p.members() =~= str_m("text"@, text@));
    p.command("Input.insertText")
}

/// The `Input.imeSetComposition` command. Each optional parameter is sent only
/// when given.
pub fn ime_set_composition(
    text: &str,
    selection_start: i32,
    selection_end: i32,
    replacement_start: Option<i32>,
    replacement_end: Option<i32>,
) -> (c: Command)
    ensures
        c.method@ == "Input.imeSetComposition"@,
        c.params@ == object(opt_i32_m("replacementEnd"@, replacement_end)
            + opt_i32_m("replacementStart"@, replacement_start)
            + int_m("selectionEnd"@, selection_end as int)
            + int_m("selectionStart"@, selection_start as int)
            + str_m("text"@, text@)),
{
    let mut p = Params::new();
    p.opt_i32("replacementEnd", replacement_end);
    p.opt_i32("replacementStart", replacement_start);
    p.integer("selectionEnd", selection_end as i64);
    p.integer("selectionStart", selection_start as i64);
    p.text("text", text);
    assert(p.members() =~= opt_i32_m("replacementEnd"@, replacement_end)
        + opt_i32_m("replacementStart"@, replacement_start)
        + int_m("selectionEnd"@, selection_end as int)
        + int_m("selectionStart"@, selection_start as int)
        + str_m("text"@, text@));
    p.command("Input.imeSetComposition")
}

/// The `Input.setIgnoreInputEvents` command.
pub fn set_ignore_input_events(ignore: bool) -> (c: Command)
    ensures
        c.method@ == "Input.setIgnoreInputEvents"@,
        c.params@ == object(bool_m("ignore"@, ignore)),
{
    let mut p = Params::new();
    p.flag("ignore", ignore);
    assert(p.members() =~= bool_m("ignore"@, ignore));
    p.command("Input.setIgnoreInputEvents")
}

/// The `Input.dispatchDragEvent` command. Numbers with a fraction are given as
/// their JSON text. Its optional parameter is sent only when given.
pub fn dispatch_drag_event(
    type_: &str,
    x: &str,
    y: &str,
    data: &str,
    modifiers: Option<i32>,
) -> (c: Command)
    ensures
        c.method@ == "Input.dispatchDragEvent"@,
        c.params@ == object(raw_m("data"@, data@) + opt_i32_m("modifiers"@, modifiers)
            + str_m("type"@, type_@) + raw_m("x"@, x@) + raw_m("y"@, y@)),
{
    let mut p = Params::new();
    p.raw("data", data);
    p.opt_i32("modifiers", modifiers);
    p.text("type", type_);
    p.raw("x", x);
    p.raw("y", y);
    assert(p.members() =~= raw_m("data"@, data@) + opt_i32_m("modifiers"@, modifiers)
        + str_m("type"@, type_@) + raw_m("x"@, x@) + raw_m("y"@, y@));
    p.command("Input.dispatchDragEvent")
}

/// The `Input.setInterceptDrags` command.
pub fn set_intercept_drags(enabled: bool) -> (c: Command)
    ensures
        c.method@ == "Input.setInterceptDrags"@,
        c.params@ == object(bool_m("enabled"@, enabled)),
{
    let mut p = Params::new();
    p.flag("enabled", enabled);
    assert(p.members() =~= bool_m("enabled"@, enabled));
    p.command("Input.setInterceptDrags")
}

/// The `Input.synthesizeScrollGesture` command. Numbers with a fraction are
/// given as their JSON text. Each optional parameter is sent only when given.
pub fn synthesize_scroll_gesture(
    x: &str,
    y: &str,
    x_distance: Option<&str>,
    y_distance: Option<&str>,
    x_overscroll: Option<&str>,
    y_overscroll: Option<&str>,
    prevent_fling: Option<bool>,
    speed: Option<i32>,
    gesture_source_type: Option<&str>,
    repeat_count: Option<i32>,
    repeat_delay_ms: Option<i32>,
) -> (c: Command)
    ensures
        c.method@ == "Input.synthesizeScrollGesture"@,
        c.params@ == object(opt_str_m("gestureSourceType"@, gesture_source_type)
            + opt_bool_m("preventFling"@, prevent_fling)
            + opt_i32_m("repeatCount"@, repeat_count)
            + opt_i32_m("repeatDelayMs"@, repeat_delay_ms)
            + opt_i32_m("speed"@, speed) + raw_m("x"@, x@)
            + opt_raw_m("xDistance"@, x_distance)
            + opt_raw_m("xOverscroll"@, x_overscroll) + raw_m("y"@, y@)
            + opt_raw_m("yDistance"@, y_distance)
            + opt_raw_m("yOverscroll"@, y_overscroll)),
{
    let mut p = Params::new();
    p.opt_text("gestureSourceType", gesture_source_type);
    p.opt_flag("preventFling", prevent_fling);
    p.opt_i32("repeatCount", repeat_count);
    p.opt_i32("repeatDelayMs", repeat_delay_ms);
    p.opt_i32("speed", speed);
    p.raw("x", x);
    p.opt_raw("xDistance", x_distance);
    p.opt_raw("xOverscroll", x_overscroll);
    p.raw("y", y);
    p.opt_raw("yDistance", y_distance);
    p.opt_raw("yOverscroll", y_overscroll);
    assert(p.members() =~= opt_str_m("gestureSourceType"@, gesture_source_type)
        + opt_bool_m("preventFling"@, prevent_fling)
        + opt_i32_m("repeatCount"@, repeat_count)
        + opt_i32_m("repeatDelayMs"@, repeat_delay_ms)
        + opt_i32_m("speed"@, speed) + raw_m("x"@, x@)
        + opt_raw_m("xDistance"@, x_distance)
        + opt_raw_m("xOverscroll"@, x_overscroll) + raw_m("y"@, y@)
        + opt_raw_m("yDistance"@, y_distance)
        + opt_raw_m("yOverscroll"@, y_overscroll));
    p.command("Input.synthesizeScrollGesture")
}

/// The `Input.synthesizeTapGesture` command. Numbers with a fraction are given
/// as their JSON text. Each optional parameter is sent only when given.
pub fn synthesize_tap_gesture(
    x: &str,
    y: &str,
    duration: Option<i32>,
    tap_count: Option<i32>,
    gesture_source_type: Option<&str>,
) -> (c: Command)
    ensures
        c.method@ == "Input.synthesizeTapGesture"@,
        c.params@ == object(opt_i32_m("duration"@, duration)
            + opt_str_m("gestureSourceType"@, gesture_source_type)
            + opt_i32_m("tapCount"@, tap_count) + raw_m("x"@, x@)
            + raw_m("y"@, y@)),
{
    let mut p = Params::new();
    p.opt_i32("duration", duration);
    p.opt_text("gestureSourceType", gesture_source_type);
    p.opt_i32("tapCount", tap_count);
    p.raw("x", x);
    p.raw("y", y);
    assert(p.members() =~= opt_i32_m("duration"@, duration)
        + opt_str_m("gestureSourceType"@, gesture_source_type)
        + opt_i32_m("tapCount"@, tap_count) + raw_m("x"@, x@)
        + raw_m("y"@, y@));
    p.command("Input.synthesizeTapGesture")
}

/// The `Input.synthesizePinchGesture` command. Numbers with a fraction are
/// given as their JSON text. Each optional parameter is sent only when given.
pub fn synthesize_pinch_gesture(
    x: &str,
    y: &str,
    scale_factor: &str,
    relative_speed: Option<i32>,
    gesture_source_type: Option<&str>,
) -> (c: Command)
    ensures
        c.method@ == "Input.synthesizePinchGesture"@,
        c.params@ == object(opt_str_m("gestureSourceType"@, gesture_source_type)
            + opt_i32_m("relativeSpeed"@, relative_speed)
            + raw_m("scaleFactor"@, scale_factor@) + raw_m("x"@, x@)
            + raw_m("y"@, y@)),
{
    let mut p = Params::new();
    p.opt_text("gestureSourceType", gesture_source_type);
    p.opt_i32("relativeSpeed", relative_speed);
    p.raw("scaleFactor", scale_factor);
    p.raw("x", x);
    p.raw("y", y);
    assert(p.members() =~= opt_str_m("gestureSourceType"@, gesture_source_type)
        + opt_i32_m("relativeSpeed"@, relative_speed)
        + raw_m("scaleFactor"@, scale_factor@) + raw_m("x"@, x@)
        + raw_m("y"@, y@));
    p.command("Input.synthesizePinchGesture")
}

} // verus!
