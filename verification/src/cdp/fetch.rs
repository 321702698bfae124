//! The `Fetch` domain: pausing requests and answering or continuing them.
use vstd::prelude::*;
use crate::cdp::{Command, Params, opt_string_m, obj_m, objs_m, object, int_m, str_m, opt_i32_m, opt_bool_m, opt_str_m};

verus! {

/// A URL pattern for `Fetch.enable`.
#[derive(Debug, Clone)]
pub struct RequestPattern {
    pub url_pattern: Option<String>,
    pub resource_type: Option<String>,
    pub request_stage: Option<String>,
}

/// A header of a request or a response.
#[derive(Debug, Clone)]
pub struct HeaderEntry {
    pub name: String,
    pub value: String,
}

/// The members of a request pattern: those it has.
pub open spec fn pattern_members(p: RequestPattern) -> Seq<Seq<char>> {
    opt_string_m("requestStage"@, p.request_stage) + opt_string_m("resourceType"@, p.resource_type)
        + opt_string_m("urlPattern"@, p.url_pattern)
}

/// The members of a header: its name and value.
pub open spec fn header_members(h: HeaderEntry) -> Seq<Seq<char>> {
    str_m("name"@, h.name@) + str_m("value"@, h.value@)
}

/// The members of each request pattern.
pub open spec fn patterns_members(ps: Seq<RequestPattern>) -> Seq<Seq<Seq<char>>> {
    ps.map_values(|p: RequestPattern| pattern_members(p))
}

/// The members of each header.
pub open spec fn headers_members(hs: Seq<HeaderEntry>) -> Seq<Seq<Seq<char>>> {
    hs.map_values(|h: HeaderEntry| header_members(h))
}

/// An array-of-headers member when the headers are given.
pub open spec fn opt_headers_m(key: Seq<char>, hs: Option<Vec<HeaderEntry>>) -> Seq<Seq<char>> {
    match hs {
        Some(v) => objs_m(key, headers_members(v@)),
        None => Seq::empty(),
    }
}

fn pattern_params(p: &RequestPattern) -> (r: Params)
    ensures
        r.members() == pattern_members(*p),
{
    let mut r = Params::new();
    r.opt_string("requestStage", &p.request_stage);
    r.opt_string("resourceType", &p.resource_type);
    r.opt_string("urlPattern", &p.url_pattern);
    assert(r.members() =~= pattern_members(*p));
    r
}

fn header_params(h: &HeaderEntry) -> (r: Params)
    ensures
        r.members() == header_members(*h),
{
    let mut r = Params::new();
    r.text("name", h.name.as_str());
    r.text("value", h.value.as_str());
    assert(r.members() =~= header_members(*h));
    r
}

fn headers_params(hs: &Vec<HeaderEntry>) -> (r: Vec<Params>)
    ensures
        r@.map_values(|p: Params| p.members()) == headers_members(hs@),
{
    let mut r: Vec<Params> = Vec::new();
    let mut i: usize = 0;
    while i < hs.len()
        invariant
            i <= hs@.len(),
            r@.len() == i,
            forall|j: int| 0 <= j < i ==> #[trigger] r@[j].members() == header_members(hs@[j]),
        decreases hs@.len() - i,
    {
        r.push(header_params(&hs[i]));
        i = i + 1;
    }
    assert(r@.map_values(|p: Params| p.members()) =~= headers_members(hs@));
    r
}

fn add_headers(p: &mut Params, key: &str, hs: &Option<Vec<HeaderEntry>>)
    ensures
        final(p).members() == old(p).members() + opt_headers_m(key@, *hs),
{
    match hs {
        Some(v) => {
            let items = headers_params(v);
            p.nested_list(key, items);
        },
        None => {
            assert(old(p).members() + opt_headers_m(key@, *hs) =~= old(p).members());
        },
    }
}

/// The `Fetch.enable` command: pause the requests that match the patterns,
/// and the authentication challenges when asked to. Each optional parameter
/// is sent only when given.
pub fn enable(patterns: Option<Vec<RequestPattern>>, handle_auth_requests: Option<bool>) -> (c: Command)
    ensures
        c.method@ == "Fetch.enable"@,
        c.params@ == object(opt_bool_m("handleAuthRequests"@, handle_auth_requests) + match patterns {
            Some(ps) => objs_m("patterns"@, patterns_members(ps@)),
            None => Seq::empty(),
        }),
{
    let mut p = Params::new();
    p.opt_flag("handleAuthRequests", handle_auth_requests);
    match patterns {
        Some(ps) => {
            let mut items: Vec<Params> = Vec::new();
            let mut i: usize = 0;
            while i < ps.len()
                invariant
                    i <= ps@.len(),
                    items@.len() == i,
                    forall|j: int| 0 <= j < i ==> #[trigger] items@[j].members() == pattern_members(ps@[j]),
                decreases ps@.len() - i,
            {
                items.push(pattern_params(&ps[i]));
                i = i + 1;
            }
            assert(items@.map_values(|q: Params| q.members()) =~= patterns_members(ps@));
            p.nested_list("patterns", items);
        },
        None => {},
    }
    p.command("Fetch.enable")
}

/// The `Fetch.continueRequest` command: let a paused request through, with
/// whichever of its URL, method, body and headers are given replaced. Each
/// optional parameter is sent only when given.
pub fn continue_request(
    request_id: &str,
    url: Option<&str>,
    method: Option<&str>,
    post_data: Option<&str>,
    headers: Option<Vec<HeaderEntry>>,
    intercept_response: Option<bool>,
) -> (c: Command)
    ensures
        c.method@ == "Fetch.continueRequest"@,
        c.params@ == object(opt_headers_m("headers"@, headers) + opt_bool_m("interceptResponse"@, intercept_response)
            + opt_str_m("method"@, method) + opt_str_m("postData"@, post_data) + str_m("requestId"@, request_id@)
            + opt_str_m("url"@, url)),
{
    let mut p = Params::new();
    add_headers(&mut p, "headers", &headers);
    p.opt_flag("interceptResponse", intercept_response);
    p.opt_text("method", method);
    p.opt_text("postData", post_data);
    p.text("requestId", request_id);
    p.opt_text("url", url);
    assert(p.members() =~= opt_headers_m("headers"@, headers) + opt_bool_m("interceptResponse"@, intercept_response)
        + opt_str_m("method"@, method) + opt_str_m("postData"@, post_data) + str_m("requestId"@, request_id@)
        + opt_str_m("url"@, url));
    p.command("Fetch.continueRequest")
}

/// The `Fetch.continueResponse` command: let a paused response through, with
/// whichever of its status, phrase, headers and body are given replaced.
/// Each optional parameter is sent only when given.
pub fn continue_response(
    request_id: &str,
    response_code: Option<i32>,
    response_phrase: Option<&str>,
    response_headers: Option<Vec<HeaderEntry>>,
    body: Option<&str>,
) -> (c: Command)
    ensures
        c.method@ == "Fetch.continueResponse"@,
        c.params@ == object(opt_str_m("body"@, body) + str_m("requestId"@, request_id@)
            + opt_i32_m("responseCode"@, response_code) + opt_headers_m("responseHeaders"@, response_headers)
            + opt_str_m("responsePhrase"@, response_phrase)),
{
    let mut p = Params::new();
    p.opt_text("body", body);
    p.text("requestId", request_id);
    p.opt_i32("responseCode", response_code);
    add_headers(&mut p, "responseHeaders", &response_headers);
    p.opt_text("responsePhrase", response_phrase);
    assert(p.members() =~= opt_str_m("body"@, body) + str_m("requestId"@, request_id@)
        + opt_i32_m("responseCode"@, response_code) + opt_headers_m("responseHeaders"@, response_headers)
        + opt_str_m("responsePhrase"@, response_phrase));
    p.command("Fetch.continueResponse")
}

/// The `Fetch.fulfillRequest` command: answer a paused request with the
/// given status, and whichever of headers, body and phrase are given.
pub fn fulfill_request(
    request_id: &str,
    response_code: i32,
    response_headers: Option<Vec<HeaderEntry>>,
    body: Option<&str>,
    response_phrase: Option<&str>,
) -> (c: Command)
    ensures
        c.method@ == "Fetch.fulfillRequest"@,
        c.params@ == object(opt_str_m("body"@, body) + str_m("requestId"@, request_id@)
            + int_m("responseCode"@, response_code as int) + opt_headers_m("responseHeaders"@, response_headers)
            + opt_str_m("responsePhrase"@, response_phrase)),
{
    let mut p = Params::new();
    p.opt_text("body", body);
    p.text("requestId", request_id);
    p.integer("responseCode", response_code as i64);
    add_headers(&mut p, "responseHeaders", &response_headers);
    p.opt_text("responsePhrase", response_phrase);
    assert(p.members() =~= opt_str_m("body"@, body) + str_m("requestId"@, request_id@)
        + int_m("responseCode"@, response_code as int) + opt_headers_m("responseHeaders"@, response_headers)
        + opt_str_m("responsePhrase"@, response_phrase));
    p.command("Fetch.fulfillRequest")
}

/// The `Fetch.continueWithAuth` command: answer an authentication challenge
/// with the response, and the credentials that are given.
pub fn continue_with_auth(request_id: &str, response: &str, username: Option<&str>, password: Option<&str>) -> (c: Command)
    ensures
        c.method@ == "Fetch.continueWithAuth"@,
        c.params@ == object(obj_m("authChallengeResponse"@, opt_str_m("password"@, password)
            + str_m("response"@, response@) + opt_str_m("username"@, username)) + str_m("requestId"@, request_id@)),
{
    let mut auth = Params::new();
    auth.opt_text("password", password);
    auth.text("response", response);
    auth.opt_text("username", username);
    assert(auth.members() =~= opt_str_m("password"@, password) + str_m("response"@, response@)
        + opt_str_m("username"@, username));
    let ghost am = auth.members();
    let mut p = Params::new();
    p.nested("authChallengeResponse", auth);
    p.text("requestId", request_id);
    assert(p.members() =~= obj_m("authChallengeResponse"@, am) + str_m("requestId"@, request_id@));
    p.command("Fetch.continueWithAuth")
}

/// The `Fetch.disable` command.
pub fn disable() -> (c: Command)
    ensures
        c.method@ == "Fetch.disable"@,
        c.params@ == object(Seq::empty()),
{
    let p = Params::new();
    p.command("Fetch.disable")
}

/// The `Fetch.failRequest` command.
pub fn fail_request(request_id: &str, error_reason: &str) -> (c: Command)
    ensures
        c.method@ == "Fetch.failRequest"@,
        c.params@ == object(str_m("errorReason"@, error_reason@)
            + str_m("requestId"@, request_id@)),
{
    let mut p = Params::new();
    p.text("errorReason", error_reason);
    p.text("requestId", request_id);
    assert(p.members() =~= str_m("errorReason"@, error_reason@)
        + str_m("requestId"@, request_id@));
    p.command("Fetch.failRequest")
}

/// The `Fetch.getResponseBody` command.
pub fn get_response_body(request_id: &str) -> (c: Command)
    ensures
        c.method@ == "Fetch.getResponseBody"@,
        c.params@ == object(str_m("requestId"@, request_id@)),
{
    let mut p = Params::new();
    p.text("requestId", request_id);
    assert(p.members() =~= str_m("requestId"@, request_id@));
    p.command("Fetch.getResponseBody")
}

} // verus!
