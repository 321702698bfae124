//! Exporting captured network traffic as a HAR log (version 1.2).
//!
//! A request may have been captured through DevTools or by the page's own
//! script hook; the two name some fields differently, and each entry takes
//! whichever is present. Values the capture holds as JSON are carried as
//! their JSON text and written as they are; a missing one is written as
//! `null`.
use vstd::prelude::*;
use crate::cdp::{Params, object, member, str_m, int_m, raw_m, obj_m, list};
use crate::text::{push_str, str_eq};

verus! {

/// What an entry of the log is made from.
#[derive(Debug, Clone)]
pub struct HarRecord {
    pub method: Option<String>,
    pub url: Option<String>,
    pub status: Option<i64>,
    /// When the request started (`timestamp`, else `ts`), as JSON.
    pub started: Option<String>,
    /// `requestHeaders`, else `reqHeaders`, as JSON.
    pub request_headers: Option<String>,
    /// `postData`, else `reqBody`, as JSON.
    pub post_data: Option<String>,
    /// `responseHeaders`, else `resHeaders`, as JSON.
    pub response_headers: Option<String>,
    pub body: Option<String>,
    pub mime_type: Option<String>,
    pub frame_id: Option<String>,
}

/// A JSON text, or `null`.
pub open spec fn json_or_null(o: Option<String>) -> Seq<char> {
    match o {
        Some(t) => t@,
        None => "null"@,
    }
}

/// The members of the request part of an entry.
pub open spec fn request_members(r: HarRecord) -> Seq<Seq<char>> {
    raw_m("headers"@, json_or_null(r.request_headers))
        + str_m("method"@, match r.method { Some(m) => m@, None => "GET"@ })
        + raw_m("postData"@, json_or_null(r.post_data))
        + str_m("url"@, match r.url { Some(u) => u@, None => Seq::empty() })
}

/// The members of the response part of an entry.
pub open spec fn response_members(r: HarRecord) -> Seq<Seq<char>> {
    obj_m("content"@, raw_m("mimeType"@, json_or_null(r.mime_type)) + raw_m("text"@, json_or_null(r.body)))
        + raw_m("headers"@, json_or_null(r.response_headers))
        + int_m("status"@, match r.status { Some(s) => s as int, None => 0 })
}

/// An entry of the log, as JSON text with its members in name order.
pub open spec fn har_entry_text(r: HarRecord) -> Seq<char> {
    object(raw_m("frameId"@, json_or_null(r.frame_id)) + obj_m("request"@, request_members(r))
        + obj_m("response"@, response_members(r)) + raw_m("startedDateTime"@, json_or_null(r.started)))
}

fn raw_or_null(p: &mut Params, key: &str, v: &Option<String>)
    ensures
        final(p).members() == old(p).members() + raw_m(key@, json_or_null(*v)),
{
    proof {
        reveal_strlit("null");
    }
    match v {
        Some(t) => p.raw(key, t.as_str()),
        None => p.raw(key, "null"),
    }
}

/// An entry of the log.
pub fn har_entry(r: &HarRecord) -> (t: String)
    ensures
        t@ == har_entry_text(*r),
{
    let mut content = Params::new();
    raw_or_null(&mut content, "mimeType", &r.mime_type);
    raw_or_null(&mut content, "text", &r.body);
    let ghost cm = content.members();

    proof {
        reveal_strlit("GET");
        reveal_strlit("");
    }
    let method: &str = match &r.method {
        Some(m) => m.as_str(),
        None => "GET",
    };
    let url: &str = match &r.url {
        Some(u) => u.as_str(),
        None => "",
    };
    assert(method@ == (match r.method { Some(m) => m@, None => "GET"@ }));
    assert(url@ == (match r.url { Some(u) => u@, None => Seq::<char>::empty() }));
    let mut request = Params::new();
    raw_or_null(&mut request, "headers", &r.request_headers);
    request.text("method", method);
    raw_or_null(&mut request, "postData", &r.post_data);
    request.text("url", url);
    assert(request.members() =~= request_members(*r));
    let ghost rm = request.members();

    let mut response = Params::new();
    response.nested("content", content);
    raw_or_null(&mut response, "headers", &r.response_headers);
    match r.status {
        Some(s) => response.integer("status", s),
        None => response.integer("status", 0),
    }
    assert(response.members() =~= response_members(*r));
    let ghost sm = response.members();

    let mut entry = Params::new();
    raw_or_null(&mut entry, "frameId", &r.frame_id);
    entry.nested("request", request);
    entry.nested("response", response);
    raw_or_null(&mut entry, "startedDateTime", &r.started);
    assert(entry.members() =~= raw_m("frameId"@, json_or_null(r.frame_id)) + obj_m("request"@, rm)
        + obj_m("response"@, sm) + raw_m("startedDateTime"@, json_or_null(r.started)));
    entry.command("").params
}

/// The log of the given entries.
pub open spec fn har_log_text(rs: Seq<HarRecord>) -> Seq<char> {
    object(obj_m("log"@, seq![member("entries"@, list(rs.map_values(|r: HarRecord| har_entry_text(r))))]
        + str_m("version"@, "1.2"@)))
}

/// The HAR log of the records, in order.
pub fn har_log(records: &Vec<HarRecord>) -> (t: String)
    ensures
        t@ == har_log_text(records@),
{
    let mut items: Vec<String> = Vec::new();
    let mut i: usize = 0;
    while i < records.len()
        invariant
            i <= records@.len(),
            items@.len() == i,
            forall|j: int| 0 <= j < i ==> #[trigger] items@[j]@ == har_entry_text(records@[j]),
        decreases records@.len() - i,
    {
        items.push(har_entry(&records[i]));
        i = i + 1;
    }
    let ghost texts = records@.map_values(|r: HarRecord| har_entry_text(r));
    assert(items@.map_values(|s: String| s@) =~= texts);
    let mut views: Vec<&str> = Vec::new();
    let mut k: usize = 0;
    while k < items.len()
        invariant
            k <= items@.len(),
            views@.len() == k,
            forall|j: int| 0 <= j < k ==> #[trigger] views@[j]@ == items@[j]@,
        decreases items@.len() - k,
    {
        views.push(items[k].as_str());
        k = k + 1;
    }
    let mut log = Params::new();
    log.raws("entries", views.as_slice());
    log.text("version", "1.2");
    assert(crate::cdp::str_views(views@) =~= texts);
    assert(log.members() =~= seq![member("entries"@, list(texts))] + str_m("version"@, "1.2"@));
    let ghost lm = log.members();
    let mut top = Params::new();
    top.nested("log", log);
    assert(top.members() =~= obj_m("log"@, lm));
    top.command("").params
}

/// Where the exported requests come from.
#[derive(Debug, Clone, Copy, PartialEq, Eq, Structural)]
pub enum HarSource {
    /// The DevTools capture.
    Cdp,
    /// The page's own script hook.
    Js,
    /// The DevTools capture, or the script hook when that is empty.
    Auto,
}

/// The source named: `cdp`, `js`, or any other name (or none) for both in
/// turn.
pub fn har_source(name: Option<&str>) -> (s: HarSource)
    ensures
        match name {
            Some(n) => s == (if n@ == "cdp"@ { HarSource::Cdp } else if n@ == "js"@ { HarSource::Js } else { HarSource::Auto }),
            None => s == HarSource::Auto,
        },
{
    match name {
        Some(n) => if str_eq(n, "cdp") {
            HarSource::Cdp
        } else if str_eq(n, "js") {
            HarSource::Js
        } else {
            HarSource::Auto
        },
        None => HarSource::Auto,
    }
}

/// Whether the script hook is read, given the source and how many requests
/// the DevTools capture holds: for `js`, and for `auto` when that is none.
pub fn read_script_hook(source: HarSource, cdp_count: usize) -> (r: bool)
    ensures
        r == (source == HarSource::Js || (source == HarSource::Auto && cdp_count == 0)),
{
    match source {
        HarSource::Cdp => false,
        HarSource::Js => true,
        HarSource::Auto => cdp_count == 0,
    }
}

} // verus!
