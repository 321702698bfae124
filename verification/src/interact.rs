//! Interaction with a rendered page: the scripts that click, type, select,
//! find and submit, and what each reply of the page leads to.
//!
//! The page answers each script with a JSON object; its members are read
//! into plain reply values, and the functions here decide from those values
//! alone what happens next (a navigation, a form submission, a result or an
//! error).
use vstd::prelude::*;
use crate::text::{text_or, contains, uppercase, has_char, decimal, push_str, push_char, push_decimal,
    chars_of, contains_str, has_char_exec, to_uppercase, str_eq};
use crate::json::{json_string_literal, parse_json, json_member, json_bool, json_str, json_u64,
    json_object_members, json_quote, JsonValue, JsonView, json_view, json_document, member_view, member_bool,
    member_str, member_u64, member_pairs, opt_view, pairs_view};
use crate::urls::{form_urlencoded_text, form_urlencode};

verus! {

/// Result of a click.
#[derive(Debug, Clone)]
pub enum ClickResult {
    /// The element was clicked and nothing navigated.
    Clicked { tag: String, text: String },
    /// The click followed a link; the page has been loaded.
    Navigated { url: String },
    /// The click submitted a form; the response has been loaded.
    Submitted { url: String, method: String },
}

/// Result of a form submission.
#[derive(Debug, Clone)]
pub enum SubmitResult {
    /// The form was submitted and the response loaded.
    Submitted { url: String, method: String },
    /// Nothing was submitted.
    Failed { error: String },
}

// ───────────────────────── script arguments ─────────────────────────

/// How one char is written inside a single-quoted script argument.
pub open spec fn arg_char(c: char) -> Seq<char> {
    if c == '\\' {
        "\\\\"@
    } else if c == '\'' {
        "\\'"@
    } else if c == '\n' {
        "\\n"@
    } else {
        seq![c]
    }
}

/// A text escaped for a single-quoted script argument: backslash, single
/// quote and newline get a backslash escape.
pub open spec fn escape_arg(s: Seq<char>) -> Seq<char>
    decreases s.len(),
{
    if s.len() == 0 {
        Seq::empty()
    } else {
        escape_arg(s.drop_last()) + arg_char(s.last())
    }
}

/// A text as a single-quoted script argument.
pub open spec fn quoted_arg(s: Seq<char>) -> Seq<char> {
    "'"@ + escape_arg(s) + "'"@
}

/// Escapes a text for a single-quoted script argument.
pub fn escape_js_arg(s: &str) -> (r: String)
    ensures
        r@ == escape_arg(s@),
{
    let cs = chars_of(s);
    let mut r = String::new();
    let mut i: usize = 0;
    while i < cs.len()
        invariant
            i <= cs@.len(),
            cs@ == s@,
            r@ == escape_arg(cs@.take(i as int)),
        decreases cs@.len() - i,
    {
        let c = cs[i];
        if c == '\\' {
            push_str(&mut r, "\\\\");
        } else if c == '\'' {
            push_str(&mut r, "\\'");
        } else if c == '\n' {
            push_str(&mut r, "\\n");
        } else {
            push_char(&mut r, c);
        }
        assert(cs@.take(i + 1).drop_last() =~= cs@.take(i as int));
        i = i + 1;
    }
    assert(cs@.take(cs@.len() as int) =~= cs@);
    r
}

fn push_quoted_arg(s: &mut String, a: &str)
    ensures
        final(s)@ == old(s)@ + quoted_arg(a@),
{
    push_str(s, "'");
    let e = escape_js_arg(a);
    push_str(s, e.as_str());
    push_str(s, "'");
}

// ───────────────────────── scripts ─────────────────────────

/// `__neo_click('target')`.
pub open spec fn click_script_text(target: Seq<char>) -> Seq<char> {
    "__neo_click("@ + quoted_arg(target) + ")"@
}

/// `__neo_type('target', 'text', clear)`.
pub open spec fn type_script_text(target: Seq<char>, text: Seq<char>, clear: bool) -> Seq<char> {
    "__neo_type("@ + quoted_arg(target) + ", "@ + quoted_arg(text) + ", "@
        + (if clear { "true"@ } else { "false"@ }) + ")"@
}

/// `__neo_find('target')`.
pub open spec fn find_script_text(target: Seq<char>) -> Seq<char> {
    "__neo_find("@ + quoted_arg(target) + ")"@
}

/// `__neo_submit('target')`, or `__neo_submit()` for the first form.
pub open spec fn submit_script_text(target: Option<Seq<char>>) -> Seq<char> {
    match target {
        Some(t) => "__neo_submit("@ + quoted_arg(t) + ")"@,
        None => "__neo_submit()"@,
    }
}

/// `__neo_select('target', 'value')`.
pub open spec fn select_script_text(target: Seq<char>, value: Seq<char>) -> Seq<char> {
    "__neo_select("@ + quoted_arg(target) + ", "@ + quoted_arg(value) + ")"@
}

/// The script that clicks the element found by `target` (a CSS selector,
/// text, aria-label, placeholder or name).
pub fn click_script(target: &str) -> (js: String)
    ensures
        js@ == click_script_text(target@),
{
    let mut s = String::new();
    push_str(&mut s, "__neo_click(");
    push_quoted_arg(&mut s, target);
    push_str(&mut s, ")");
    s
}

/// The script that types `text` into the field found by `target`,
/// clearing it first when `clear` is set.
pub fn type_text_script(target: &str, text: &str, clear: bool) -> (js: String)
    ensures
        js@ == type_script_text(target@, text@, clear),
{
    let mut s = String::new();
    push_str(&mut s, "__neo_type(");
    push_quoted_arg(&mut s, target);
    push_str(&mut s, ", ");
    push_quoted_arg(&mut s, text);
    push_str(&mut s, ", ");
    if clear {
        push_str(&mut s, "true");
    } else {
        push_str(&mut s, "false");
    }
    push_str(&mut s, ")");
    s
}

/// The script that finds the element given by `target`.
pub fn find_script(target: &str) -> (js: String)
    ensures
        js@ == find_script_text(target@),
{
    let mut s = String::new();
    push_str(&mut s, "__neo_find(");
    push_quoted_arg(&mut s, target);
    push_str(&mut s, ")");
    s
}

/// The script that submits the form given by `target`, or the first form.
pub fn submit_script(target: Option<&str>) -> (js: String)
    ensures
        js@ == submit_script_text(match target { Some(t) => Some(t@), None => None }),
{
    let mut s = String::new();
    match target {
        Some(t) => {
            push_str(&mut s, "__neo_submit(");
            push_quoted_arg(&mut s, t);
            push_str(&mut s, ")");
        },
        None => {
            push_str(&mut s, "__neo_submit()");
        },
    }
    s
}

/// The script that selects `value` in the `<select>` found by `target`.
pub fn select_script(target: &str, value: &str) -> (js: String)
    ensures
        js@ == select_script_text(target@, value@),
{
    let mut s = String::new();
    push_str(&mut s, "__neo_select(");
    push_quoted_arg(&mut s, target);
    push_str(&mut s, ", ");
    push_quoted_arg(&mut s, value);
    push_str(&mut s, ")");
    s
}

/// How one char of a JSON text is written inside a single-quoted argument:
/// backslash and single quote get a backslash escape.
pub open spec fn json_arg_char(c: char) -> Seq<char> {
    if c == '\\' {
        "\\\\"@
    } else if c == '\'' {
        "\\'"@
    } else {
        seq![c]
    }
}

/// A JSON text escaped for a single-quoted argument.
pub open spec fn escape_json_arg(s: Seq<char>) -> Seq<char>
    decreases s.len(),
{
    if s.len() == 0 {
        Seq::empty()
    } else {
        escape_json_arg(s.drop_last()) + json_arg_char(s.last())
    }
}

/// The script that fills several fields at once: the fields as a JSON
/// object, escaped, in `__neo_fill_form('...')`.
pub open spec fn fill_form_script_text(fields: Seq<(Seq<char>, Seq<char>)>) -> Seq<char> {
    "__neo_fill_form('"@ + escape_json_arg(crate::json::json_object_text(fields)) + "')"@
}

/// The views of a list of text pairs.
pub open spec fn pair_views(p: Seq<(String, String)>) -> Seq<(Seq<char>, Seq<char>)> {
    p.map_values(|x: (String, String)| (x.0@, x.1@))
}

/// The script that fills the given fields (target and value). Writing a
/// map of strings as JSON always succeeds, so the script is always
/// returned.
pub fn fill_form_script(fields: &Vec<(String, String)>) -> (r: Result<String, String>)
    ensures
        r is Ok,
        r matches Ok(js) && js@ == fill_form_script_text(pair_views(fields@)),
{
    let text = match crate::json::json_object_of(fields) {
        Ok(t) => t,
        Err(d) => {
            let mut e = String::new();
            push_str(&mut e, "JSON serialize error: ");
            push_str(&mut e, d.as_str());
            return Err(e);
        },
    };
    let cs = chars_of(text.as_str());
    let mut s = String::new();
    push_str(&mut s, "__neo_fill_form('");
    let ghost start = s@;
    let mut i: usize = 0;
    while i < cs.len()
        invariant
            i <= cs@.len(),
            cs@ == text@,
            s@ == start + escape_json_arg(cs@.take(i as int)),
        decreases cs@.len() - i,
    {
        let c = cs[i];
        if c == '\\' {
            push_str(&mut s, "\\\\");
        } else if c == '\'' {
            push_str(&mut s, "\\'");
        } else {
            push_char(&mut s, c);
        }
        assert(cs@.take(i + 1).drop_last() =~= cs@.take(i as int));
        i = i + 1;
    }
    assert(cs@.take(cs@.len() as int) =~= cs@);
    push_str(&mut s, "')");
    Ok(s)
}

// ───────────────────────── replies ─────────────────────────

fn string_or(o: Option<String>, default: &str) -> (r: String)
    ensures
        r@ == text_or(o, default@),
{
    match o {
        Some(s) => s,
        None => default.to_owned(),
    }
}

fn text_or_empty(o: &Option<String>) -> (r: String)
    ensures
        r@ == text_or(*o, Seq::empty()),
{
    match o {
        Some(s) => s.clone(),
        None => String::new(),
    }
}

fn text_of(o: &Option<String>, default: &str) -> (r: String)
    ensures
        r@ == text_or(*o, default@),
{
    match o {
        Some(s) => s.clone(),
        None => default.to_owned(),
    }
}

/// The reply to a script that only acknowledges: `ok`, and the error when
/// it is not.
#[derive(Debug, Clone)]
pub struct AckReply {
    pub ok: Option<bool>,
    pub error: Option<String>,
}

/// The `action` a page reports: its `type`, `url`, `method`, and the form
/// `data` (each name with the text of its value when that is a string).
#[derive(Debug, Clone)]
pub struct ActionReply {
    pub kind: Option<String>,
    pub url: Option<String>,
    pub method: Option<String>,
    pub data: Option<Vec<(String, Option<String>)>>,
}

/// The reply to a click.
#[derive(Debug, Clone)]
pub struct ClickReply {
    pub ok: Option<bool>,
    pub error: Option<String>,
    pub action: Option<ActionReply>,
    pub clicked: Option<String>,
    pub text: Option<String>,
}

/// The reply to a form submission.
#[derive(Debug, Clone)]
pub struct SubmitReply {
    pub ok: Option<bool>,
    pub error: Option<String>,
    pub error_message: Option<String>,
    pub protocol: Option<String>,
    pub status: Option<u64>,
    pub redirect: Option<String>,
    pub action: Option<ActionReply>,
}

/// A reply's parse failure: `{what} parse error: {detail} — raw: {reply}`.
pub open spec fn parse_failure(e: Seq<char>, what: Seq<char>, reply: Seq<char>) -> bool {
    exists|d: Seq<char>| e == what + " parse error: "@ + d + " — raw: "@ + reply
}

fn parse_error(what: &str, detail: String, reply: &str) -> (e: String)
    ensures
        parse_failure(e@, what@, reply@),
{
    let mut e = String::new();
    push_str(&mut e, what);
    push_str(&mut e, " parse error: ");
    push_str(&mut e, detail.as_str());
    push_str(&mut e, " — raw: ");
    push_str(&mut e, reply);
    assert(e@ == what@ + " parse error: "@ + detail@ + " — raw: "@ + reply@);
    e
}

/// The `action` reply of a page: what it reads of the `action` member.
pub open spec fn action_read(a: ActionReply, v: JsonView) -> bool {
    &&& opt_view(a.kind) == member_str(v, "type"@)
    &&& opt_view(a.url) == member_str(v, "url"@)
    &&& opt_view(a.method) == member_str(v, "method"@)
    &&& match a.data {
        Some(d) => member_pairs(v, "data"@) == Some(pairs_view(d@)),
        None => member_pairs(v, "data"@) is None,
    }
}

/// The `action` of a reply, read when the reply has that member.
pub open spec fn action_member_read(a: Option<ActionReply>, d: JsonView) -> bool {
    match a {
        Some(x) => member_view(d, "action"@) matches Some(v) && action_read(x, v),
        None => member_view(d, "action"@) is None,
    }
}

/// An acknowledging reply read from a parsed document: its `ok` flag and
/// `error` text.
pub open spec fn ack_read(a: AckReply, d: JsonView) -> bool {
    a.ok == member_bool(d, "ok"@) && opt_view(a.error) == member_str(d, "error"@)
}

/// A click reply read from a parsed document.
pub open spec fn click_read(c: ClickReply, d: JsonView) -> bool {
    &&& c.ok == member_bool(d, "ok"@)
    &&& opt_view(c.error) == member_str(d, "error"@)
    &&& action_member_read(c.action, d)
    &&& opt_view(c.clicked) == member_str(d, "clicked"@)
    &&& opt_view(c.text) == member_str(d, "text"@)
}

/// A submit reply read from a parsed document.
pub open spec fn submit_read(r: SubmitReply, d: JsonView) -> bool {
    &&& r.ok == member_bool(d, "ok"@)
    &&& opt_view(r.error) == member_str(d, "error"@)
    &&& opt_view(r.error_message) == member_str(d, "error_message"@)
    &&& opt_view(r.protocol) == member_str(d, "protocol"@)
    &&& r.status == member_u64(d, "status"@)
    &&& opt_view(r.redirect) == member_str(d, "redirect"@)
    &&& action_member_read(r.action, d)
}

fn read_action(v: &JsonValue) -> (a: ActionReply)
    ensures
        action_read(a, json_view(*v)),
{
    ActionReply {
        kind: json_str(v, "type"),
        url: json_str(v, "url"),
        method: json_str(v, "method"),
        data: json_object_members(v, "data"),
    }
}

fn read_action_member(v: &JsonValue) -> (a: Option<ActionReply>)
    ensures
        action_member_read(a, json_view(*v)),
{
    match json_member(v, "action") {
        Some(a) => Some(read_action(a)),
        None => None,
    }
}

/// Reads an acknowledging reply; `what` names the operation in the parse
/// error.
pub fn read_ack_reply(reply: &str, what: &str) -> (r: Result<AckReply, String>)
    ensures
        r is Err <==> json_document(reply@) is None,
        r matches Ok(a) ==> json_document(reply@) matches Some(d) && ack_read(a, d),
        r matches Err(e) ==> parse_failure(e@, what@, reply@),
{
    match parse_json(reply) {
        Ok(v) => Ok(AckReply { ok: json_bool(&v, "ok"), error: json_str(&v, "error") }),
        Err(d) => Err(parse_error(what, d, reply)),
    }
}

/// Reads the reply to a click.
pub fn read_click_reply(reply: &str) -> (r: Result<ClickReply, String>)
    ensures
        r is Err <==> json_document(reply@) is None,
        r matches Ok(c) ==> json_document(reply@) matches Some(d) && click_read(c, d),
        r matches Err(e) ==> parse_failure(e@, "click"@, reply@),
{
    match parse_json(reply) {
        Ok(v) => {
            let action = read_action_member(&v);
            Ok(ClickReply {
                ok: json_bool(&v, "ok"),
                error: json_str(&v, "error"),
                action,
                clicked: json_str(&v, "clicked"),
                text: json_str(&v, "text"),
            })
        },
        Err(d) => Err(parse_error("click", d, reply)),
    }
}

/// Reads the reply to a form submission.
pub fn read_submit_reply(reply: &str) -> (r: Result<SubmitReply, String>)
    ensures
        r is Err <==> json_document(reply@) is None,
        r matches Ok(s) ==> json_document(reply@) matches Some(d) && submit_read(s, d),
        r matches Err(e) ==> parse_failure(e@, "submit"@, reply@),
{
    match parse_json(reply) {
        Ok(v) => {
            let action = read_action_member(&v);
            Ok(SubmitReply {
                ok: json_bool(&v, "ok"),
                error: json_str(&v, "error"),
                error_message: json_str(&v, "error_message"),
                protocol: json_str(&v, "protocol"),
                status: json_u64(&v, "status"),
                redirect: json_str(&v, "redirect"),
                action,
            })
        },
        Err(d) => Err(parse_error("submit", d, reply)),
    }
}

/// What an acknowledging reply means: success when `ok` is true, else its
/// error, or `fallback` when it gives none.
pub fn ack_outcome(reply: AckReply, fallback: &str) -> (r: Result<(), String>)
    ensures
        r is Ok <==> reply.ok == Some(true),
        r matches Err(e) ==> e@ == text_or(reply.error, fallback@),
{
    if reply.ok == Some(true) {
        Ok(())
    } else {
        Err(string_or(reply.error, fallback))
    }
}

/// What an acknowledging reply leads to: success when its `ok` is true;
/// else its `error`, or `fallback` when it gives none; a reply that is no
/// JSON gives the parse error.
pub open spec fn ack_result_ok(reply: Seq<char>) -> bool {
    json_document(reply) matches Some(d) && member_bool(d, "ok"@) == Some(true)
}

/// The error of an acknowledging reply that parsed but is not `ok`.
pub open spec fn ack_error(d: JsonView, fallback: Seq<char>) -> Seq<char> {
    match member_str(d, "error"@) {
        Some(e) => e,
        None => fallback,
    }
}

/// What an acknowledging reply leads to, for the operation `what` whose
/// failure without a message reads `fallback`.
fn ack_result(reply: &str, what: &str, fallback: &str) -> (r: Result<(), String>)
    ensures
        r is Ok <==> ack_result_ok(reply@),
        r matches Err(e) ==> match json_document(reply@) {
            Some(d) => e@ == ack_error(d, fallback@),
            None => parse_failure(e@, what@, reply@),
        },
{
    match read_ack_reply(reply, what) {
        Ok(a) => ack_outcome(a, fallback),
        Err(e) => Err(e),
    }
}

/// What typing leads to, from the page's reply: success when the reply's
/// `ok` is true; else the page's error (`type failed` when it gives none);
/// a reply that is no JSON gives the parse error.
pub fn type_text_result(reply: &str) -> (r: Result<(), String>)
    ensures
        r is Ok <==> ack_result_ok(reply@),
        r matches Err(e) ==> match json_document(reply@) {
            Some(d) => e@ == ack_error(d, "type failed"@),
            None => parse_failure(e@, "type"@, reply@),
        },
{
    ack_result(reply, "type", "type failed")
}

/// What selecting leads to, from the page's reply: as for typing, with
/// `select failed` when the page gives no error.
pub fn select_result(reply: &str) -> (r: Result<(), String>)
    ensures
        r is Ok <==> ack_result_ok(reply@),
        r matches Err(e) ==> match json_document(reply@) {
            Some(d) => e@ == ack_error(d, "select failed"@),
            None => parse_failure(e@, "select"@, reply@),
        },
{
    ack_result(reply, "select", "select failed")
}

// ───────────────────────── decisions ─────────────────────────

/// What follows the reply to a click.
#[derive(Debug, Clone)]
pub enum ClickStep {
    /// The click failed with this error.
    Fail(String),
    /// Load this URL; the result is `ClickResult::Navigated` with it.
    Navigate(String),
    /// Submit the form of this action.
    SubmitForm(ActionReply),
    /// Nothing more to do.
    Done(ClickResult),
}

/// The action's type is `navigate` with a non-empty URL.
pub open spec fn navigates(a: ActionReply) -> bool {
    text_or(a.kind, Seq::empty()) == "navigate"@ && text_or(a.url, Seq::empty()).len() > 0
}

/// The click reports no action, or one that neither navigates nor submits.
pub open spec fn leads_nowhere(action: Option<ActionReply>) -> bool {
    match action {
        Some(a) => !(navigates(a) || submits(a)),
        None => true,
    }
}

/// The action's type is `submit`.
pub open spec fn submits(a: ActionReply) -> bool {
    text_or(a.kind, Seq::empty()) == "submit"@
}

/// What follows the reply to a click: its error when it is not `ok`; a
/// navigation for a `navigate` action with a URL; a form submission for a
/// `submit` action; else the clicked element's tag and text.
pub fn click_outcome(reply: ClickReply) -> (r: ClickStep)
    ensures
        reply.ok != Some(true) ==> (r matches ClickStep::Fail(e) && e@ == text_or(reply.error, "click failed"@)),
        reply.ok == Some(true) ==> (reply.action matches Some(a) ==> (navigates(a) ==> (r matches ClickStep::Navigate(u)
            && u@ == text_or(a.url, Seq::empty())))),
        reply.ok == Some(true) ==> (reply.action matches Some(a) ==> (submits(a) ==> (r matches ClickStep::SubmitForm(b)
            && b == a))),
        reply.ok == Some(true) && leads_nowhere(reply.action) ==> (r matches ClickStep::Done(
            ClickResult::Clicked { tag, text }) && tag@ == text_or(reply.clicked, Seq::empty())
            && text@ == text_or(reply.text, Seq::empty())),
{
    if reply.ok != Some(true) {
        return ClickStep::Fail(string_or(reply.error, "click failed"));
    }
    match reply.action {
        Some(a) => {
            let kind = text_or_empty(&a.kind);
            proof {
                reveal_strlit("navigate");
                reveal_strlit("submit");
            }
            if str_eq(kind.as_str(), "navigate") {
                assert(kind@ != "submit"@) by {
                    assert(kind@[0] == 'n');
                }
                assert(!submits(a));
                let url = text_or_empty(&a.url);
                if !url.as_str().is_empty() {
                    proof { assert(url@.len() > 0); }
                    return ClickStep::Navigate(url);
                }
                proof { assert(url@.len() == 0); }
            } else if str_eq(kind.as_str(), "submit") {
                return ClickStep::SubmitForm(a);
            }
        },
        None => {},
    }
    let tag = text_or_empty(&reply.clicked);
    let text = text_or_empty(&reply.text);
    ClickStep::Done(ClickResult::Clicked { tag, text })
}

/// The click's result once the form it submitted has been handled: a
/// failed submission is the click's error.
pub fn click_after_submit(s: SubmitResult) -> (r: Result<ClickResult, String>)
    ensures
        s matches SubmitResult::Submitted { url, method } ==> r matches Ok(ClickResult::Submitted { url: u, method: m })
            && u == url && m == method,
        s matches SubmitResult::Failed { error } ==> r matches Err(e) && e == error,
{
    match s {
        SubmitResult::Submitted { url, method } => Ok(ClickResult::Submitted { url, method }),
        SubmitResult::Failed { error } => Err(error),
    }
}

/// How a form action is carried out.
#[derive(Debug, Clone)]
pub enum FormPlan {
    /// Nothing can be submitted.
    Fail(SubmitResult),
    /// Load `nav_url`; the result is `Submitted` with it and `method`.
    Get { nav_url: String, method: String },
    /// Send `body` form-encoded to `url` with `method`, then read the
    /// response with `post_response_outcome`.
    Send { url: String, method: String, body: String },
}

/// The form data as name and text pairs, a value that is no string counting
/// as empty text.
pub open spec fn data_pairs(d: Seq<(String, Option<String>)>) -> Seq<(Seq<char>, Seq<char>)> {
    d.map_values(|p: (String, Option<String>)| (p.0@, text_or(p.1, Seq::empty())))
}

/// The encoded form data of an action: empty when it has none.
pub open spec fn encoded_data(a: ActionReply) -> Seq<char> {
    match a.data {
        Some(d) => form_urlencoded_text(data_pairs(d@)),
        None => Seq::empty(),
    }
}

/// The URL a GET submission loads: the action URL with the encoded data as
/// its query, or after its existing query.
pub open spec fn get_nav_url(url: Seq<char>, encoded: Seq<char>) -> Seq<char> {
    if encoded.len() == 0 {
        url
    } else if has_char(url, '?') {
        url + "&"@ + encoded
    } else {
        url + "?"@ + encoded
    }
}

fn encode_data(a: &ActionReply) -> (r: String)
    ensures
        r@ == encoded_data(*a),
{
    match &a.data {
        Some(d) => {
            let mut pairs: Vec<(String, String)> = Vec::new();
            let mut i: usize = 0;
            while i < d.len()
                invariant
                    i <= d@.len(),
                    pairs@.len() == i,
                    forall|j: int| 0 <= j < i ==> (#[trigger] pairs@[j]).0@ == d@[j].0@
                        && pairs@[j].1@ == text_or(d@[j].1, Seq::empty()),
                decreases d@.len() - i,
            {
                let k = d[i].0.clone();
                let v = text_or_empty(&d[i].1);
                pairs.push((k, v));
                i = i + 1;
            }
            let r = form_urlencode(&pairs);
            assert(pair_views(pairs@) =~= data_pairs(d@));
            r
        },
        None => String::new(),
    }
}

/// How a form action is carried out: an action without a URL fails; the
/// method (`GET` when none is given) is upper-cased; `GET` loads the URL
/// with the encoded data as query; any other method sends the encoded data.
pub fn form_submit_plan(a: &ActionReply) -> (r: FormPlan)
    ensures
        text_or(a.url, Seq::empty()).len() == 0 ==> (r matches FormPlan::Fail(SubmitResult::Failed { error })
            && error@ == "No form action URL"@),
        text_or(a.url, Seq::empty()).len() > 0 && uppercase(text_or(a.method, "GET"@)) == "GET"@ ==> (r matches FormPlan::Get {
            nav_url, method } && nav_url@ == get_nav_url(text_or(a.url, Seq::empty()), encoded_data(*a))
            && method@ == "GET"@),
        text_or(a.url, Seq::empty()).len() > 0 && uppercase(text_or(a.method, "GET"@)) != "GET"@ ==> (r matches FormPlan::Send {
            url, method, body } && url@ == text_or(a.url, Seq::empty())
            && method@ == uppercase(text_or(a.method, "GET"@)) && body@ == encoded_data(*a)),
{
    let url = text_or_empty(&a.url);
    let m = text_of(&a.method, "GET");
    let method = to_uppercase(m.as_str());
    if url.as_str().is_empty() {
        return FormPlan::Fail(SubmitResult::Failed { error: "No form action URL".to_owned() });
    }
    proof { assert(url@.len() > 0); }
    let encoded = encode_data(a);
    if str_eq(method.as_str(), "GET") {
        let nav_url = if encoded.as_str().is_empty() {
            proof { assert(encoded@.len() == 0); }
            url
        } else {
            proof { assert(encoded@.len() > 0); }
            let uc = chars_of(url.as_str());
            let mut n = url.clone();
            if has_char_exec(uc.as_slice(), '?') {
                push_str(&mut n, "&");
            } else {
                push_str(&mut n, "?");
            }
            push_str(&mut n, encoded.as_str());
            n
        };
        FormPlan::Get { nav_url, method }
    } else {
        FormPlan::Send { url, method, body: encoded }
    }
}

/// The page text of a sent form's response looks like an HTML document.
pub open spec fn looks_like_html(body: Seq<char>) -> bool {
    contains(body, "<html"@) || contains(body, "<!DOCTYPE"@) || contains(body, "<!doctype"@)
}

/// The status of a response as a 16-bit code: the low 16 bits.
pub open spec fn status_code16(status: u64) -> int {
    status as int % 65536
}

/// The script that replaces the page's head and body with those of the
/// given HTML, passed as a JSON string literal.
pub open spec fn inject_script_text(html: Seq<char>) -> Seq<char> {
    "{\n                            const { document: freshDoc } = __linkedom_parseHTML("@
        + json_string_literal(html)
        + ");\n                            if (freshDoc.head) document.head.innerHTML = freshDoc.head.innerHTML;\n                            if (freshDoc.body) document.body.innerHTML = freshDoc.body.innerHTML;\n                        }"@
}

/// What the response to a sent form leads to, given its `status` and `body`
/// members: the submission result, and the script that loads the response
/// into the page when it is an HTML document (never for a redirect status).
pub fn post_response_outcome(url: String, method: String, status: Option<u64>, body: Option<String>) -> (r: (
    Option<String>,
    SubmitResult,
))
    ensures
        r.1 matches SubmitResult::Submitted { url: u, method: m } && u == url && m == method,
        ({
            let code = status_code16(match status { Some(s) => s, None => 0 });
            let b = text_or(body, Seq::empty());
            if 300 <= code < 400 || !looks_like_html(b) {
                r.0 is None
            } else {
                r.0 matches Some(js) && js@ == inject_script_text(b)
            }
        }),
{
    let s: u64 = match status {
        Some(s) => s,
        None => 0,
    };
    let code: u64 = s % 65536;
    if 300 <= code && code < 400 {
        return (None, SubmitResult::Submitted { url, method });
    }
    let b = text_or_empty(&body);
    let bc = chars_of(b.as_str());
    if contains_str(bc.as_slice(), "<html") || contains_str(bc.as_slice(), "<!DOCTYPE") || contains_str(
        bc.as_slice(),
        "<!doctype",
    ) {
        let html_json = json_quote(b.as_str());
        let mut js = String::new();
        push_str(&mut js, "{\n                            const { document: freshDoc } = __linkedom_parseHTML(");
        push_str(&mut js, html_json.as_str());
        push_str(&mut js, ");\n                            if (freshDoc.head) document.head.innerHTML = freshDoc.head.innerHTML;\n                            if (freshDoc.body) document.body.innerHTML = freshDoc.body.innerHTML;\n                        }");
        assert(js@ =~= inject_script_text(b@));
        (Some(js), SubmitResult::Submitted { url, method })
    } else {
        (None, SubmitResult::Submitted { url, method })
    }
}

/// What follows the reply to a form submission.
#[derive(Debug, Clone)]
pub enum SubmitStep {
    /// The submission is over with this result.
    Done(SubmitResult),
    /// Load this URL; the result is `Submitted` with it and `GET`.
    Redirect(String),
    /// Carry out this form action with `form_submit_plan`.
    SubmitForm(ActionReply),
}

/// The submission protocol is one whose script already sent the request.
pub open spec fn is_spa_protocol(p: Seq<char>) -> bool {
    p == "livewire"@ || p == "htmx"@ || p == "inertia"@ || p == "turbo"@
}

/// The error of a reply that is not `ok`: its error (`submit failed` when
/// none), with the server's message when there is one.
pub open spec fn submit_error_text(error: Option<String>, message: Option<String>) -> Seq<char> {
    match message {
        Some(m) => text_or(error, "submit failed"@) + " (server: "@ + m@ + ")"@,
        None => text_or(error, "submit failed"@),
    }
}

/// The error of a single-page-app submission that failed.
pub open spec fn spa_error_text(protocol: Seq<char>, code: nat, message: Option<String>) -> Seq<char> {
    "["@ + protocol + "] HTTP "@ + decimal(code) + " — "@ + text_or(message, "SPA submit failed"@)
}

/// The member of an optional action, or `None`.
pub open spec fn action_url(a: Option<ActionReply>) -> Option<String> {
    match a {
        Some(x) => x.url,
        None => None,
    }
}

/// The method member of an optional action, or `None`.
pub open spec fn action_method(a: Option<ActionReply>) -> Option<String> {
    match a {
        Some(x) => x.method,
        None => None,
    }
}

/// What follows the reply to a form submission.
///
/// A reply that is not `ok` fails. For the single-page-app protocols
/// (Livewire, htmx, Inertia, Turbo) the script already sent the request: a
/// non-empty redirect is followed; a 2xx or 3xx status is a submission to
/// the action's URL (with its method, `POST` when none); any other status
/// fails. For every other protocol the reported action is carried out, and
/// a reply without one fails.
pub fn submit_outcome(reply: SubmitReply) -> (r: SubmitStep)
    ensures
        reply.ok != Some(true) ==> (r matches SubmitStep::Done(SubmitResult::Failed { error })
            && error@ == submit_error_text(reply.error, reply.error_message)),
        ({
            let p = text_or(reply.protocol, "standard"@);
            let code = status_code16(match reply.status { Some(s) => s, None => 0 });
            let redirect = text_or(reply.redirect, Seq::empty());
            reply.ok == Some(true) && is_spa_protocol(p) ==> if redirect.len() > 0 {
                r matches SubmitStep::Redirect(u) && u@ == redirect
            } else if 200 <= code < 400 {
                r matches SubmitStep::Done(SubmitResult::Submitted { url, method })
                    && url@ == text_or(action_url(reply.action), Seq::empty())
                    && method@ == text_or(action_method(reply.action), "POST"@)
            } else {
                r matches SubmitStep::Done(SubmitResult::Failed { error })
                    && error@ == spa_error_text(p, code as nat, reply.error_message)
            }
        }),
        ({
            let p = text_or(reply.protocol, "standard"@);
            reply.ok == Some(true) && !is_spa_protocol(p) ==> match reply.action {
                Some(a) => r matches SubmitStep::SubmitForm(b) && b == a,
                None => r matches SubmitStep::Done(SubmitResult::Failed { error }) && error@ == (
                if p == "native"@ { "Native submit: no action captured"@ } else { "No action from submit"@ }),
            }
        }),
{
    if reply.ok != Some(true) {
        let base = string_or(reply.error, "submit failed");
        let error = match reply.error_message {
            Some(m) => {
                let mut e = base;
                push_str(&mut e, " (server: ");
                push_str(&mut e, m.as_str());
                push_str(&mut e, ")");
                e
            },
            None => base,
        };
        return SubmitStep::Done(SubmitResult::Failed { error });
    }
    let protocol = string_or(reply.protocol, "standard");
    let p = protocol.as_str();
    proof {
        reveal_strlit("livewire");
        reveal_strlit("htmx");
        reveal_strlit("inertia");
        reveal_strlit("turbo");
        reveal_strlit("native");
    }
    if str_eq(p, "livewire") || str_eq(p, "htmx") || str_eq(p, "inertia") || str_eq(p, "turbo") {
        let s: u64 = match reply.status {
            Some(s) => s,
            None => 0,
        };
        let code: u64 = s % 65536;
        let redirect = text_or_empty(&reply.redirect);
        if !redirect.as_str().is_empty() {
            proof { assert(redirect@.len() > 0); }
            return SubmitStep::Redirect(redirect);
        }
        proof { assert(redirect@.len() == 0); }
        if 200 <= code && code < 400 {
            let (url, method) = match reply.action {
                Some(a) => (text_or_empty(&a.url), string_or(a.method, "POST")),
                None => (String::new(), "POST".to_owned()),
            };
            return SubmitStep::Done(SubmitResult::Submitted { url, method });
        }
        let mut e = String::new();
        push_str(&mut e, "[");
        push_str(&mut e, p);
        push_str(&mut e, "] HTTP ");
        push_decimal(&mut e, code);
        push_str(&mut e, " — ");
        let msg = string_or(reply.error_message, "SPA submit failed");
        push_str(&mut e, msg.as_str());
        return SubmitStep::Done(SubmitResult::Failed { error: e });
    }
    let native = str_eq(p, "native");
    match reply.action {
        Some(a) => SubmitStep::SubmitForm(a),
        None => {
            let error = if native {
                "Native submit: no action captured".to_owned()
            } else {
                "No action from submit".to_owned()
            };
            SubmitStep::Done(SubmitResult::Failed { error })
        },
    }
}

} // verus!
