//! The network capture that follows DevTools events: a request is logged
//! when it is sent, completed when its response arrives, and the log is
//! drained by whoever reads it.
//!
//! What the logic does not read (headers, timestamps) rides along as
//! opaque payloads: `R` with the request, `S` with the response.
use vstd::prelude::*;
use crate::text::{text_or, contains, str_eq, chars_of, contains_exec};
use crate::cdp::{Params, object, str_m, raw_m, opt_string_m, opt_string_raw_m, opt_i64_m};

verus! {

/// A captured request and, once it arrived, its response.
pub struct CapturedRequest<R, S> {
    pub request_id: String,
    pub method: String,
    pub url: String,
    pub post_data: Option<String>,
    pub resource_type: String,
    pub frame_id: String,
    pub request_extra: R,
    pub response_status: Option<i64>,
    pub response_mime: Option<String>,
    pub response_extra: Option<S>,
}

fn string_or(o: Option<String>, default: &str) -> (r: String)
    ensures
        r@ == text_or(o, default@),
{
    match o {
        Some(s) => s,
        None => default.to_owned(),
    }
}

/// The log of captured requests, in the order they were sent.
pub struct CaptureLog<R, S> {
    pub entries: Vec<CapturedRequest<R, S>>,
}

/// The index of the last entry with the given request id.
pub open spec fn last_with_id<R, S>(es: Seq<CapturedRequest<R, S>>, id: Seq<char>) -> Option<int> {
    if exists|i: int| 0 <= i < es.len() && es[i].request_id@ == id {
        Some(choose|i: int| 0 <= i < es.len() && es[i].request_id@ == id
            && forall|j: int| i < j < es.len() ==> es[j].request_id@ != id)
    } else {
        None
    }
}

/// An entry after its response arrived: status, MIME type and response
/// payload set, all else unchanged.
pub open spec fn answered<R, S>(e: CapturedRequest<R, S>, status: Option<i64>, mime: Option<String>, extra: S) -> CapturedRequest<R, S> {
    CapturedRequest { response_status: status, response_mime: mime, response_extra: Some(extra), ..e }
}

/// An entry's URL contains the text.
pub open spec fn url_has<R, S>(f: Seq<char>) -> spec_fn(CapturedRequest<R, S>) -> bool {
    |e: CapturedRequest<R, S>| contains(e.url@, f)
}

/// The entries whose URL contains the filter, all of them without one.
pub open spec fn filtered<R, S>(es: Seq<CapturedRequest<R, S>>, filter: Option<Seq<char>>) -> Seq<CapturedRequest<R, S>> {
    match filter {
        Some(f) => es.filter(url_has(f)),
        None => es,
    }
}

impl<R, S> CaptureLog<R, S> {
    /// An empty log.
    pub fn new() -> (l: Self)
        ensures
            l.entries@ == Seq::<CapturedRequest<R, S>>::empty(),
    {
        CaptureLog { entries: Vec::new() }
    }

    /// Forgets every captured request.
    pub fn clear(&mut self)
        ensures
            final(self).entries@ == Seq::<CapturedRequest<R, S>>::empty(),
    {
        self.entries = Vec::new();
    }

    /// `Network.requestWillBeSent`: while capturing, logs the request, with
    /// `GET`, `Other` and empty texts for what the event leaves out.
    pub fn on_request(
        &mut self,
        active: bool,
        request_id: Option<String>,
        method: Option<String>,
        url: Option<String>,
        post_data: Option<String>,
        resource_type: Option<String>,
        frame_id: Option<String>,
        extra: R,
    )
        ensures
            !active ==> final(self).entries@ == old(self).entries@,
            active ==> final(self).entries@.len() == old(self).entries@.len() + 1,
            active ==> final(self).entries@.drop_last() == old(self).entries@,
            active ==> ({
                let e = final(self).entries@.last();
                &&& e.request_id@ == text_or(request_id, Seq::empty())
                &&& e.method@ == text_or(method, "GET"@)
                &&& e.url@ == text_or(url, Seq::empty())
                &&& e.post_data == post_data
                &&& e.resource_type@ == text_or(resource_type, "Other"@)
                &&& e.frame_id@ == text_or(frame_id, Seq::empty())
                &&& e.request_extra == extra
                &&& e.response_status is None
                &&& e.response_mime is None
                &&& e.response_extra is None
            }),
    {
        if !active {
            return;
        }
        let e = CapturedRequest {
            request_id: match request_id { Some(s) => s, None => String::new() },
            method: string_or(method, "GET"),
            url: match url { Some(s) => s, None => String::new() },
            post_data,
            resource_type: string_or(resource_type, "Other"),
            frame_id: match frame_id { Some(s) => s, None => String::new() },
            request_extra: extra,
            response_status: None,
            response_mime: None,
            response_extra: None,
        };
        self.entries.push(e);
        assert(self.entries@.drop_last() =~= old(self).entries@);
    }

    /// `Network.responseReceived`: while capturing, completes the latest
    /// entry of the request with the response; a response to no logged
    /// request changes nothing.
    pub fn on_response(
        &mut self,
        active: bool,
        request_id: Option<String>,
        status: Option<i64>,
        mime: Option<String>,
        extra: S,
    )
        ensures
            !active ==> final(self).entries@ == old(self).entries@,
            active ==> match last_with_id(old(self).entries@, text_or(request_id, Seq::empty())) {
                Some(i) => final(self).entries@ == old(self).entries@.update(i, answered(old(self).entries@[i], status, mime, extra)),
                None => final(self).entries@ == old(self).entries@,
            },
    {
        if !active {
            return;
        }
        let ghost rid0 = text_or(request_id, Seq::empty());
        let id = match request_id { Some(s) => s, None => String::new() };
        let ghost rid = id@;
        assert(rid == rid0);
        let mut k: usize = self.entries.len();
        while k > 0
            invariant
                active,
                k <= self.entries@.len(),
                self.entries@ == old(self).entries@,
                rid == id@,
                rid == rid0,
                rid0 == text_or(request_id, Seq::empty()),
                forall|j: int| k <= j < self.entries@.len() ==> self.entries@[j].request_id@ != rid,
            decreases k,
        {
            if str_eq(self.entries[k - 1].request_id.as_str(), id.as_str()) {
                let i = k - 1;
                proof {
                    let c = choose|t: int| 0 <= t < old(self).entries@.len() && old(self).entries@[t].request_id@ == rid
                        && forall|j: int| t < j < old(self).entries@.len() ==> old(self).entries@[j].request_id@ != rid;
                    assert(old(self).entries@[i as int].request_id@ == rid);
                    if c < i {
                        assert(old(self).entries@[i as int].request_id@ != rid);
                    }
                    assert(c == i);
                    assert(last_with_id(old(self).entries@, rid) == Some(i as int));
                }
                let mut entries: Vec<CapturedRequest<R, S>> = Vec::new();
                std::mem::swap(&mut entries, &mut self.entries);
                let mut e = entries.remove(i);
                e.response_status = status;
                e.response_mime = mime;
                e.response_extra = Some(extra);
                entries.insert(i, e);
                self.entries = entries;
                assert(self.entries@ =~= old(self).entries@.update(i as int, answered(old(self).entries@[i as int], status, mime, extra)));
                return;
            }
            k = k - 1;
        }
    }

    /// Takes every captured request out of the log, keeping those whose URL
    /// contains the filter (all of them without one), in the order they
    /// were sent.
    pub fn drain(&mut self, filter: Option<&str>) -> (r: Vec<CapturedRequest<R, S>>)
        ensures
            final(self).entries@ == Seq::<CapturedRequest<R, S>>::empty(),
            r@ == filtered(old(self).entries@, match filter { Some(f) => Some(f@), None => None }),
    {
        let mut all: Vec<CapturedRequest<R, S>> = Vec::new();
        std::mem::swap(&mut all, &mut self.entries);
        match filter {
            None => all,
            Some(f) => {
                let fc = chars_of(f);
                let ghost src = all@;
                let ghost keep = url_has::<R, S>(f@);
                let mut out: Vec<CapturedRequest<R, S>> = Vec::new();
                let mut rest = all;
                let ghost total = src.len();
                assert(src.skip(0) =~= src);
                while rest.len() > 0
                    invariant
                        fc@ == f@,
                        keep == url_has::<R, S>(f@),
                        total == src.len(),
                        rest@.len() <= total,
                        rest@ == src.skip(total - rest@.len()),
                        out@ == src.take(total - rest@.len()).filter(keep),
                    decreases rest@.len(),
                {
                    let ghost taken = total - rest@.len();
                    let e = rest.remove(0);
                    assert(e == src[taken]);
                    proof {
                        assert(src.take(taken + 1).drop_last() =~= src.take(taken));
                        assert(rest@ =~= src.skip(taken + 1));
                    }
                    let uc = chars_of(e.url.as_str());
                    if contains_exec(uc.as_slice(), fc.as_slice()) {
                        out.push(e);
                    }
                    proof {
                        reveal(Seq::filter);
                        let t = src.take(taken + 1);
                        assert(t.last() == e);
                        assert(t.drop_last() =~= src.take(taken));
                        assert(keep(e) == contains(e.url@, f@));
                        assert(out@ =~= t.filter(keep));
                    }
                }
                assert(src.take(total as int) =~= src);
                out
            },
        }
    }
}

// ───────────────────────── laws ─────────────────────────

/// A drain with a filter gives exactly the entries whose URL contains the
/// filter text: each of them, and nothing else.
pub proof fn law_filtered_drain_keeps_matching<R, S>(es: Seq<CapturedRequest<R, S>>, f: Seq<char>, i: int, k: int)
    ensures
        0 <= i < es.len() && contains(es[i].url@, f) ==> filtered(es, Some(f)).contains(es[i]),
        0 <= k < filtered(es, Some(f)).len() ==> contains(filtered(es, Some(f))[k].url@, f)
            && es.contains(filtered(es, Some(f))[k]),
{
    let keep = url_has::<R, S>(f);
    if 0 <= i < es.len() && contains(es[i].url@, f) {
        es.lemma_filter_contains(keep, i);
    }
    if 0 <= k < es.filter(keep).len() {
        es.lemma_filter_pred(keep, k);
        let x = es.filter(keep)[k];
        assert(es.filter(keep).contains(x));
        es.lemma_filter_contains_rev(keep, x);
    }
}

/// A response changes only the latest request with its id, and never the
/// number of entries.
pub proof fn law_response_changes_one_entry<R, S>(
    es: Seq<CapturedRequest<R, S>>,
    id: Seq<char>,
    i: int,
    answer: CapturedRequest<R, S>,
    j: int,
)
    requires
        last_with_id(es, id) == Some(i),
        0 <= j < es.len(),
        j != i,
    ensures
        0 <= i < es.len(),
        es[i].request_id@ == id,
        forall|t: int| i < t < es.len() ==> es[t].request_id@ != id,
        es.update(i, answer).len() == es.len(),
        es.update(i, answer)[j] == es[j],
{
    assert(exists|t: int| 0 <= t < es.len() && es[t].request_id@ == id);
    lemma_latest_exists(es, id);
}

proof fn lemma_latest_exists<R, S>(es: Seq<CapturedRequest<R, S>>, id: Seq<char>)
    requires
        exists|t: int| 0 <= t < es.len() && es[t].request_id@ == id,
    ensures
        exists|i: int| 0 <= i < es.len() && es[i].request_id@ == id
            && forall|j: int| i < j < es.len() ==> es[j].request_id@ != id,
    decreases es.len(),
{
    let n = es.len() - 1;
    if es[n].request_id@ == id {
        assert(forall|j: int| n < j < es.len() ==> es[j].request_id@ != id);
    } else {
        let d = es.drop_last();
        let t = choose|t: int| 0 <= t < es.len() && es[t].request_id@ == id;
        assert(d[t].request_id@ == id);
        lemma_latest_exists(d, id);
        let i = choose|i: int| 0 <= i < d.len() && d[i].request_id@ == id
            && forall|j: int| i < j < d.len() ==> d[j].request_id@ != id;
        assert(es[i].request_id@ == id);
        assert forall|j: int| i < j < es.len() implies es[j].request_id@ != id by {
            if j < n {
                assert(es[j] == d[j]);
            }
        }
    }
}

// ───────────────────────── entries as JSON ─────────────────────────

/// What the DevTools capture keeps of a request beyond what the log reads:
/// its headers and the time it was sent, each as JSON text.
#[derive(Debug, Clone)]
pub struct RequestExtra {
    pub headers: String,
    pub timestamp: String,
}

/// The members of an entry of the DevTools capture, in name order: those it
/// always has, and the post data, status, response headers and MIME type
/// when it has them.
pub open spec fn entry_members(e: CapturedRequest<RequestExtra, String>) -> Seq<Seq<char>> {
    str_m("frameId"@, e.frame_id@) + str_m("method"@, e.method@)
        + opt_string_m("mimeType"@, e.response_mime) + opt_string_m("postData"@, e.post_data)
        + raw_m("requestHeaders"@, e.request_extra.headers@) + str_m("requestId"@, e.request_id@)
        + str_m("resourceType"@, e.resource_type@)
        + opt_string_raw_m("responseHeaders"@, e.response_extra)
        + opt_i64_m("status"@, e.response_status)
        + raw_m("timestamp"@, e.request_extra.timestamp@) + str_m("url"@, e.url@)
}

impl CapturedRequest<RequestExtra, String> {
    /// The entry as a JSON object.
    pub fn to_json(&self) -> (t: String)
        ensures
            t@ == object(entry_members(*self)),
    {
        let mut p = Params::new();
        p.text("frameId", self.frame_id.as_str());
        p.text("method", self.method.as_str());
        p.opt_string("mimeType", &self.response_mime);
        p.opt_string("postData", &self.post_data);
        p.raw("requestHeaders", self.request_extra.headers.as_str());
        p.text("requestId", self.request_id.as_str());
        p.text("resourceType", self.resource_type.as_str());
        p.opt_raw_string("responseHeaders", &self.response_extra);
        p.opt_i64("status", self.response_status);
        p.raw("timestamp", self.request_extra.timestamp.as_str());
        p.text("url", self.url.as_str());
        assert(p.members() =~= entry_members(*self));
        p.command("").params
    }
}

/// The entries read from the DevTools capture, as JSON, in order.
pub fn entries_json(es: &Vec<CapturedRequest<RequestExtra, String>>) -> (r: Vec<String>)
    ensures
        r@.len() == es@.len(),
        forall|i: int| 0 <= i < es@.len() ==> #[trigger] r@[i]@ == object(entry_members(es@[i])),
{
    let mut r: Vec<String> = Vec::new();
    let mut i: usize = 0;
    while i < es.len()
        invariant
            i <= es@.len(),
            r@.len() == i,
            forall|j: int| 0 <= j < i ==> #[trigger] r@[j]@ == object(entry_members(es@[j])),
        decreases es@.len() - i,
    {
        r.push(es[i].to_json());
        i = i + 1;
    }
    r
}

} // verus!
