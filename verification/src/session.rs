//! The decisions of a browser session: which key a key name stands for,
//! where a script is evaluated and how its reply reads, and the strategies
//! tried in turn to click an element named by the user.
use vstd::prelude::*;
use crate::text::{starts_with, contains, chars_of, starts_with_str, contains_str, push_str, str_eq};
use crate::json::{json_string_literal, json_quote};
use crate::keys::{DispatchKeyEventParams, plain};
use crate::cdp::runtime::EvaluateParams;

verus! {

// ───────────────────────── keys ─────────────────────────

/// The key, code and Windows virtual key code that a key name stands for:
/// Enter, Tab, Escape, Backspace, Space and the arrows, by their names or
/// short forms; any other name stands for itself, with code 0.
pub open spec fn named_key(key: Seq<char>) -> (Seq<char>, Seq<char>, i32) {
    if key == "Enter"@ || key == "enter"@ {
        ("Enter"@, "Enter"@, 13)
    } else if key == "Tab"@ || key == "tab"@ {
        ("Tab"@, "Tab"@, 9)
    } else if key == "Escape"@ || key == "escape"@ || key == "Esc"@ {
        ("Escape"@, "Escape"@, 27)
    } else if key == "Backspace"@ || key == "backspace"@ {
        ("Backspace"@, "Backspace"@, 8)
    } else if key == "Space"@ || key == "space"@ {
        (" "@, "Space"@, 32)
    } else if key == "ArrowUp"@ || key == "up"@ {
        ("ArrowUp"@, "ArrowUp"@, 38)
    } else if key == "ArrowDown"@ || key == "down"@ {
        ("ArrowDown"@, "ArrowDown"@, 40)
    } else if key == "ArrowLeft"@ || key == "left"@ {
        ("ArrowLeft"@, "ArrowLeft"@, 37)
    } else if key == "ArrowRight"@ || key == "right"@ {
        ("ArrowRight"@, "ArrowRight"@, 39)
    } else {
        (key, key, 0)
    }
}

fn named_key_exec(key: &str) -> (r: (String, String, i32))
    ensures
        (r.0@, r.1@, r.2) == named_key(key@),
{
    let (k, c, v): (&str, &str, i32) = if str_eq(key, "Enter") || str_eq(key, "enter") {
        ("Enter", "Enter", 13)
    } else if str_eq(key, "Tab") || str_eq(key, "tab") {
        ("Tab", "Tab", 9)
    } else if str_eq(key, "Escape") || str_eq(key, "escape") || str_eq(key, "Esc") {
        ("Escape", "Escape", 27)
    } else if str_eq(key, "Backspace") || str_eq(key, "backspace") {
        ("Backspace", "Backspace", 8)
    } else if str_eq(key, "Space") || str_eq(key, "space") {
        (" ", "Space", 32)
    } else if str_eq(key, "ArrowUp") || str_eq(key, "up") {
        ("ArrowUp", "ArrowUp", 38)
    } else if str_eq(key, "ArrowDown") || str_eq(key, "down") {
        ("ArrowDown", "ArrowDown", 40)
    } else if str_eq(key, "ArrowLeft") || str_eq(key, "left") {
        ("ArrowLeft", "ArrowLeft", 37)
    } else if str_eq(key, "ArrowRight") || str_eq(key, "right") {
        ("ArrowRight", "ArrowRight", 39)
    } else {
        (key, key, 0)
    };
    (k.to_owned(), c.to_owned(), v)
}

/// The key events that press and release the key a name stands for, each
/// with its key, code and virtual key code.
pub fn press_events(key: &str) -> (r: Vec<DispatchKeyEventParams>)
    ensures
        r@.len() == 2,
        r@[0].type_@ == "keyDown"@ && r@[1].type_@ == "keyUp"@,
        forall|i: int| 0 <= i < 2 ==> {
            &&& (#[trigger] r@[i]).key matches Some(k) && k@ == named_key(key@).0
            &&& r@[i].code matches Some(c) && c@ == named_key(key@).1
            &&& r@[i].windows_virtual_key_code == Some(named_key(key@).2)
            &&& r@[i].modifiers is None
            &&& r@[i].text is None && r@[i].unmodified_text is None && r@[i].key_identifier is None
            &&& r@[i].native_virtual_key_code is None && r@[i].auto_repeat is None
            &&& r@[i].is_keypad is None && r@[i].is_system_key is None && r@[i].location is None
        },
{
    let (k, c, v) = named_key_exec(key);
    let mut down = DispatchKeyEventParams::default();
    down.type_ = "keyDown".to_owned();
    down.key = Some(k.clone());
    down.code = Some(c.clone());
    down.windows_virtual_key_code = Some(v);
    let mut up = DispatchKeyEventParams::default();
    up.type_ = "keyUp".to_owned();
    up.key = Some(k);
    up.code = Some(c);
    up.windows_virtual_key_code = Some(v);
    let mut r: Vec<DispatchKeyEventParams> = Vec::new();
    r.push(down);
    r.push(up);
    r
}

// ───────────────────────── evaluating script ─────────────────────────

/// Where a script is evaluated: in the session of the active frame, in an
/// isolated world of the active frame, or in the page.
#[derive(Debug, Clone, PartialEq, Eq)]
pub enum EvalTarget {
    FrameSession(String),
    FrameWorld(String),
    Page,
}

/// Evaluate in the active frame's own session when it has one, else in an
/// isolated world of the active frame, else in the page.
pub fn eval_target(frame_session_id: &Option<String>, frame_id: &Option<String>) -> (r: EvalTarget)
    ensures
        match frame_session_id {
            Some(s) => r matches EvalTarget::FrameSession(t) && t@ == s@,
            None => match frame_id {
                Some(f) => r matches EvalTarget::FrameWorld(t) && t@ == f@,
                None => r == EvalTarget::Page,
            },
        },
{
    match frame_session_id {
        Some(s) => EvalTarget::FrameSession(s.clone()),
        None => match frame_id {
            Some(f) => EvalTarget::FrameWorld(f.clone()),
            None => EvalTarget::Page,
        },
    }
}

/// The evaluation of an expression by value, waiting for a promise, in the
/// given context when there is one.
pub fn eval_params(expression: &str, context_id: Option<i64>) -> (p: EvaluateParams)
    ensures
        p.expression@ == expression@,
        p.return_by_value == Some(true),
        p.await_promise == Some(true),
        p.context_id == context_id,
        p.object_group is None && p.include_command_line_api is None && p.silent is None,
        p.generate_preview is None && p.user_gesture is None && p.throw_on_side_effect is None,
        p.timeout is None && p.unique_context_id is None,
{
    let p = EvaluateParams::new(expression).return_by_value().await_promise();
    EvaluateParams { context_id, ..p }
}

/// The value a script gave back, as its reply holds it.
#[derive(Debug, Clone, PartialEq, Eq)]
pub enum ReplyValue {
    /// A string.
    Text(String),
    /// `null`, or no value at all.
    Nothing,
    /// Any other value, as its JSON text.
    Other(String),
}

/// What an evaluation gives: the exception's message when it threw, else
/// the string it gave, the empty text for nothing, or the JSON text of any
/// other value.
pub fn eval_outcome(exception: Option<String>, value: ReplyValue) -> (r: Result<String, String>)
    ensures
        match exception {
            Some(e) => r == Err::<String, String>(e),
            None => match value {
                ReplyValue::Text(s) => r == Ok::<String, String>(s),
                ReplyValue::Nothing => r matches Ok(t) && t@.len() == 0,
                ReplyValue::Other(j) => r == Ok::<String, String>(j),
            },
        },
{
    match exception {
        Some(e) => Err(e),
        None => match value {
            ReplyValue::Text(s) => Ok(s),
            ReplyValue::Nothing => Ok(String::new()),
            ReplyValue::Other(j) => Ok(j),
        },
    }
}

/// The message of an exception: its text, or `JS exception` when it has
/// none.
pub fn exception_message(text: Option<String>) -> (r: String)
    ensures
        match text {
            Some(t) => r == t,
            None => r@ == "JS exception"@,
        },
{
    match text {
        Some(t) => t,
        None => "JS exception".to_owned(),
    }
}

// ───────────────────────── clicking by a name ─────────────────────────

/// A target that reads as a CSS selector: it starts with `.`, `#` or `[`,
/// or holds `::` or `:nth`.
pub open spec fn css_like(target: Seq<char>) -> bool {
    starts_with(target, "."@) || starts_with(target, "#"@) || starts_with(target, "["@)
        || contains(target, "::"@) || contains(target, ":nth"@)
}

/// Whether a click target reads as a CSS selector.
pub fn looks_like_css(target: &str) -> (r: bool)
    ensures
        r == css_like(target@),
{
    let t = chars_of(target);
    starts_with_str(t.as_slice(), ".") || starts_with_str(t.as_slice(), "#") || starts_with_str(t.as_slice(), "[")
        || contains_str(t.as_slice(), "::") || contains_str(t.as_slice(), ":nth")
}

/// A way of finding the element to click.
#[derive(Debug, Clone, Copy, PartialEq, Eq, Structural)]
pub enum ClickStrategy {
    /// The target as a CSS selector.
    Css,
    /// An element whose text is the target.
    Text,
    /// An element whose `aria-label` is the target.
    AriaLabel,
    /// A field whose placeholder contains the target.
    Placeholder,
    /// A button or link whose text contains the target.
    PartialText,
    /// An element with a role whose text contains the target.
    Role,
}

/// The strategies tried in turn: the selector first when the target reads
/// as one, then the text, the label, the placeholder, part of the text, and
/// the role.
pub open spec fn strategies_for(target: Seq<char>) -> Seq<ClickStrategy> {
    (if css_like(target) { seq![ClickStrategy::Css] } else { Seq::empty() }) + seq![
        ClickStrategy::Text,
        ClickStrategy::AriaLabel,
        ClickStrategy::Placeholder,
        ClickStrategy::PartialText,
        ClickStrategy::Role,
    ]
}

/// The strategies to try, in order, for a target.
pub fn click_strategies(target: &str) -> (r: Vec<ClickStrategy>)
    ensures
        r@ == strategies_for(target@),
{
    let mut r: Vec<ClickStrategy> = Vec::new();
    if looks_like_css(target) {
        r.push(ClickStrategy::Css);
    }
    r.push(ClickStrategy::Text);
    r.push(ClickStrategy::AriaLabel);
    r.push(ClickStrategy::Placeholder);
    r.push(ClickStrategy::PartialText);
    r.push(ClickStrategy::Role);
    assert(r@ =~= strategies_for(target@));
    r
}

/// The name a strategy reports when it clicked.
pub open spec fn strategy_label(s: ClickStrategy) -> Seq<char> {
    match s {
        ClickStrategy::Css => "css_selector"@,
        ClickStrategy::Text => "text_match"@,
        ClickStrategy::AriaLabel => "aria_label"@,
        ClickStrategy::Placeholder => "placeholder"@,
        ClickStrategy::PartialText => "partial_text"@,
        ClickStrategy::Role => "role_match"@,
    }
}

/// The name a strategy reports when it clicked.
pub fn strategy_name(s: ClickStrategy) -> (r: &'static str)
    ensures
        r@ == strategy_label(s),
{
    match s {
        ClickStrategy::Css => "css_selector",
        ClickStrategy::Text => "text_match",
        ClickStrategy::AriaLabel => "aria_label",
        ClickStrategy::Placeholder => "placeholder",
        ClickStrategy::PartialText => "partial_text",
        ClickStrategy::Role => "role_match",
    }
}

/// What is reported when no strategy clicked.
pub open spec fn all_failed_label() -> Seq<char> {
    "all_strategies_failed"@
}

/// The script that clicks the element whose `aria-label` is the target; it answers `clicked` or `not_found`.
pub open spec fn aria_script_text(target: Seq<char>) -> Seq<char> {
    "\n            (() => {\n                const el = document.querySelector('[aria-label="@ + json_string_literal(target)
        + "]');\n                if (el) { el.click(); return 'clicked'; }\n                return 'not_found';\n            })()"@
}

/// The script that focuses and clicks the first input, text area or editable element whose placeholder or `aria-label` contains the target, ignoring case; it answers `clicked` or `not_found`.
pub open spec fn placeholder_script_text(target: Seq<char>) -> Seq<char> {
    "\n            (() => {\n                const t = "@ + json_string_literal(target)
        + ".toLowerCase();\n                for (const el of document.querySelectorAll('input, textarea, [contenteditable]')) {\n                    const p = (el.placeholder || el.getAttribute('aria-label') || '').toLowerCase();\n                    if (p.includes(t)) {\n                        el.scrollIntoViewIfNeeded();\n                        el.focus();\n                        el.click();\n                        return 'clicked';\n                    }\n                }\n                return 'not_found';\n            })()"@
}

/// The script that clicks the first button, link or submit input whose text contains the target, ignoring case; it answers `clicked` or `not_found`.
pub open spec fn partial_script_text(target: Seq<char>) -> Seq<char> {
    "\n            (() => {\n                const t = "@ + json_string_literal(target)
        + ";\n                const els = [...document.querySelectorAll('button, a, [role=\"button\"], input[type=\"submit\"]')];\n                const el = els.find(e => e.textContent?.trim().toLowerCase().includes(t.toLowerCase()));\n                if (el) { el.click(); return 'clicked'; }\n                return 'not_found';\n            })()"@
}

/// The script that clicks the first element with a role whose text contains the target, ignoring case; it answers `clicked` or `not_found`.
pub open spec fn role_script_text(target: Seq<char>) -> Seq<char> {
    "\n            (() => {\n                const t = "@ + json_string_literal(target)
        + ";\n                const els = [...document.querySelectorAll('[role]')];\n                const el = els.find(e => e.textContent?.trim().toLowerCase().includes(t.toLowerCase()));\n                if (el) { el.click(); return 'clicked'; }\n                return 'not_found';\n            })()"@
}

/// The script a strategy runs, with the target as a JSON string; none for
/// the selector and the text, which the session clicks by its own means.
pub open spec fn strategy_script_text(s: ClickStrategy, target: Seq<char>) -> Option<Seq<char>> {
    match s {
        ClickStrategy::AriaLabel => Some(aria_script_text(target)),
        ClickStrategy::Placeholder => Some(placeholder_script_text(target)),
        ClickStrategy::PartialText => Some(partial_script_text(target)),
        ClickStrategy::Role => Some(role_script_text(target)),
        _ => None,
    }
}

/// The script a strategy runs for a target.
pub fn strategy_script(s: ClickStrategy, target: &str) -> (r: Option<String>)
    ensures
        match r {
            Some(t) => strategy_script_text(s, target@) == Some(t@),
            None => strategy_script_text(s, target@) is None,
        },
{
    let q = json_quote(target);
    match s {
        ClickStrategy::AriaLabel => {
            let mut s = String::new();
            push_str(&mut s, "\n            (() => {\n                const el = document.querySelector('[aria-label=");
            push_str(&mut s, q.as_str());
            push_str(&mut s, "]');\n                if (el) { el.click(); return 'clicked'; }\n                return 'not_found';\n            })()");
            Some(s)
        },
        ClickStrategy::Placeholder => {
            let mut s = String::new();
            push_str(&mut s, "\n            (() => {\n                const t = ");
            push_str(&mut s, q.as_str());
            push_str(&mut s, ".toLowerCase();\n                for (const el of document.querySelectorAll('input, textarea, [contenteditable]')) {\n                    const p = (el.placeholder || el.getAttribute('aria-label') || '').toLowerCase();\n                    if (p.includes(t)) {\n                        el.scrollIntoViewIfNeeded();\n                        el.focus();\n                        el.click();\n                        return 'clicked';\n                    }\n                }\n                return 'not_found';\n            })()");
            Some(s)
        },
        ClickStrategy::PartialText => {
            let mut s = String::new();
            push_str(&mut s, "\n            (() => {\n                const t = ");
            push_str(&mut s, q.as_str());
            push_str(&mut s, ";\n                const els = [...document.querySelectorAll('button, a, [role=\"button\"], input[type=\"submit\"]')];\n                const el = els.find(e => e.textContent?.trim().toLowerCase().includes(t.toLowerCase()));\n                if (el) { el.click(); return 'clicked'; }\n                return 'not_found';\n            })()");
            Some(s)
        },
        ClickStrategy::Role => {
            let mut s = String::new();
            push_str(&mut s, "\n            (() => {\n                const t = ");
            push_str(&mut s, q.as_str());
            push_str(&mut s, ";\n                const els = [...document.querySelectorAll('[role]')];\n                const el = els.find(e => e.textContent?.trim().toLowerCase().includes(t.toLowerCase()));\n                if (el) { el.click(); return 'clicked'; }\n                return 'not_found';\n            })()");
            Some(s)
        },
        _ => None,
    }
}

/// What a click by name reports: whether some strategy clicked, and the
/// name of the first one that did, given for each strategy tried whether it
/// clicked.
pub open spec fn click_report(tried: Seq<ClickStrategy>, clicked: Seq<bool>) -> (bool, Seq<char>)
    decreases tried.len(),
{
    if tried.len() == 0 || clicked.len() == 0 {
        (false, all_failed_label())
    } else if clicked[0] {
        (true, strategy_label(tried[0]))
    } else {
        click_report(tried.drop_first(), clicked.drop_first())
    }
}

/// The report of a click by name, given whether each strategy tried, in
/// order, clicked; the strategies after the first that clicked are not
/// tried.
pub fn click_outcome(tried: &Vec<ClickStrategy>, clicked: &Vec<bool>) -> (r: (bool, String))
    ensures
        (r.0, r.1@) == click_report(tried@, clicked@),
{
    let mut i: usize = 0;
    assert(tried@.skip(0) =~= tried@);
    assert(clicked@.skip(0) =~= clicked@);
    while i < tried.len() && i < clicked.len()
        invariant
            i <= tried@.len(),
            i <= clicked@.len(),
            click_report(tried@, clicked@) == click_report(tried@.skip(i as int), clicked@.skip(i as int)),
        decreases tried@.len() - i,
    {
        assert(tried@.skip(i as int)[0] == tried@[i as int]);
        assert(clicked@.skip(i as int)[0] == clicked@[i as int]);
        if clicked[i] {
            return (true, strategy_name(tried[i]).to_owned());
        }
        assert(tried@.skip(i as int).drop_first() =~= tried@.skip(i + 1));
        assert(clicked@.skip(i as int).drop_first() =~= clicked@.skip(i + 1));
        i = i + 1;
    }
    proof {
        reveal_strlit("all_strategies_failed");
    }
    (false, "all_strategies_failed".to_owned())
}

// ───────────────────────── scrolling ─────────────────────────

/// How far a scroll goes, in pixels: 400 down (`down`, `d`, or any unknown
/// direction) or up (`up`, `u`), and 99999 to the bottom or the top.
pub open spec fn scroll_delta(direction: Seq<char>) -> int {
    if direction == "down"@ || direction == "d"@ {
        400
    } else if direction == "up"@ || direction == "u"@ {
        -400
    } else if direction == "bottom"@ {
        99999
    } else if direction == "top"@ {
        -99999
    } else {
        400
    }
}

/// The script that scrolls the page in a direction.
pub open spec fn scroll_script_text(direction: Seq<char>) -> Seq<char> {
    "window.scrollBy(0, "@ + crate::cdp::int_text(scroll_delta(direction)) + ")"@
}

/// The script that scrolls the page in a direction.
pub fn scroll_script(direction: &str) -> (r: String)
    ensures
        r@ == scroll_script_text(direction@),
{
    let delta: i64 = if str_eq(direction, "down") || str_eq(direction, "d") {
        400
    } else if str_eq(direction, "up") || str_eq(direction, "u") {
        -400
    } else if str_eq(direction, "bottom") {
        99999
    } else if str_eq(direction, "top") {
        -99999
    } else {
        400
    };
    let mut r = String::new();
    push_str(&mut r, "window.scrollBy(0, ");
    crate::cdp::push_int(&mut r, delta);
    push_str(&mut r, ")");
    r
}

// ───────────────────────── waiting for content ─────────────────────────

/// Waiting for a page's content to settle. After a first pause of half a
/// second the page is polled every 300 ms until the time is up: the count of
/// interactive elements and the length of the text are read, and the wait
/// ends once more than three elements hold still with over 30 chars of
/// text, or once the count has held still twice before.
pub struct ContentWait {
    pub prev_count: i64,
    pub stable: u32,
    pub elapsed_ms: u64,
    pub max_ms: u64,
}

/// How a poll leaves the wait: whether it ends, and the counters after it.
pub open spec fn poll_result(w: ContentWait, reading: Option<(i64, i64)>) -> (bool, ContentWait) {
    match reading {
        Some((count, text_len)) => {
            if count > 3 && count == w.prev_count && text_len > 30 {
                (true, w)
            } else if w.stable >= 2 {
                (true, w)
            } else {
                (false, ContentWait {
                    prev_count: count,
                    stable: if count == w.prev_count { (w.stable + 1) as u32 } else { 0 },
                    elapsed_ms: (w.elapsed_ms + 300) as u64,
                    max_ms: w.max_ms,
                })
            }
        },
        None => (false, ContentWait { elapsed_ms: (w.elapsed_ms + 300) as u64, ..w }),
    }
}

impl ContentWait {
    /// The held-still count never passes two.
    pub open spec fn wf(&self) -> bool {
        self.stable <= 2
    }

    /// A wait of at most `max_ms`, after the first pause.
    pub fn new(max_ms: u64) -> (w: Self)
        ensures
            w.wf(),
            w.prev_count == -1,
            w.stable == 0,
            w.elapsed_ms == 500,
            w.max_ms == max_ms,
    {
        ContentWait { prev_count: -1, stable: 0, elapsed_ms: 500, max_ms }
    }

    /// Whether there is time for another poll.
    pub fn keep_polling(&self) -> (r: bool)
        ensures
            r == (self.elapsed_ms < self.max_ms),
    {
        self.elapsed_ms < self.max_ms
    }

    /// Takes a poll's reading (none when the page gave no readable
    /// answer): `true` when the wait ends here; else the counters move on
    /// and 300 ms more have passed.
    pub fn poll(&mut self, reading: Option<(i64, i64)>) -> (done: bool)
        requires
            old(self).wf(),
            old(self).elapsed_ms + 300 <= u64::MAX,
        ensures
            final(self).wf(),
            (done, *final(self)) == poll_result(*old(self), reading),
    {
        match reading {
            Some((count, text_len)) => {
                if count > 3 && count == self.prev_count && text_len > 30 {
                    return true;
                }
                if self.stable >= 2 {
                    return true;
                }
                if count == self.prev_count {
                    self.stable = self.stable + 1;
                } else {
                    self.stable = 0;
                }
                self.prev_count = count;
            },
            None => {},
        }
        self.elapsed_ms = self.elapsed_ms + 300;
        false
    }
}

/// A poll that does not end the wait moves the clock on by 300 ms, so a
/// wait ends once the time is up.
pub proof fn law_wait_moves_on(w: ContentWait, reading: Option<(i64, i64)>)
    requires
        w.elapsed_ms + 300 <= u64::MAX,
    ensures
        !poll_result(w, reading).0 ==> poll_result(w, reading).1.elapsed_ms == w.elapsed_ms + 300,
        poll_result(w, reading).1.max_ms == w.max_ms,
{
}

/// A page that gives the same reading four polls running ends the wait by
/// the fourth of them.
pub proof fn law_still_page_ends_wait(w: ContentWait, count: i64, text_len: i64)
    requires
        w.wf(),
        w.elapsed_ms + 1200 <= u64::MAX,
    ensures
        ({
            let r = Some((count, text_len));
            let (d1, w1) = poll_result(w, r);
            let (d2, w2) = poll_result(w1, r);
            let (d3, w3) = poll_result(w2, r);
            d1 || d2 || d3 || poll_result(w3, r).0
        }),
{
}

} // verus!
