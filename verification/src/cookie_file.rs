//! Cookies from a cookie file, handed to the browser over DevTools.
//!
//! Each cookie with a name and a value is set for the URL of its domain
//! (without leading dots), `https` when it is secure and `http` otherwise.
//! One without an expiry is given one thirty days from now, so that the
//! browser keeps it on disk.
use vstd::prelude::*;
use crate::cdp::{Command, int_text, object, objs_m};
use crate::cdp::network::{CookieParam, set_cookies, cookie_param_members};
use crate::profile_cookies::CookieFields;
use crate::ghost::CookieEntry;
use crate::json::{JsonValue, JsonView, json_view, json_document, member_view, member_str, member_bool,
    opt_view, parse_json, member_index, json_str, json_bool, lemma_array_view};
use crate::text::{text_or, trim_start_char, chars_of, trim_start_char_exec, push_chars, push_str};

verus! {

/// Thirty days in seconds.
pub const THIRTY_DAYS_SECS: i64 = 2_592_000;

/// The URL a cookie is set for.
pub open spec fn cookie_url(secure: bool, domain: Seq<char>) -> Seq<char> {
    (if secure { "https"@ } else { "http"@ }) + "://"@ + trim_start_char(domain, '.') + "/"@
}

/// What the cookie handed to the browser for a file's cookie holds: its
/// name, value, domain (empty when none), path (`/` when none), flags
/// (false when none), URL and expiry (the default when none), and nothing
/// else.
pub open spec fn is_cookie_param_for(p: CookieParam, c: CookieFields, default_expires_secs: int) -> bool {
    let secure = c.secure == Some(true);
    let domain = text_or(c.domain, Seq::empty());
    &&& p.name@ == text_or(c.name, Seq::empty())
    &&& p.value@ == text_or(c.value, Seq::empty())
    &&& p.domain matches Some(d) && d@ == domain
    &&& p.path matches Some(q) && q@ == text_or(c.path, "/"@)
    &&& p.secure == Some(secure)
    &&& p.http_only == Some(c.http_only == Some(true))
    &&& p.url matches Some(u) && u@ == cookie_url(secure, domain)
    &&& p.expires matches Some(e) && e@ == int_text(
        match c.expires_secs {
            Some(s) => s as int,
            None => default_expires_secs,
        },
    )
    &&& p.same_site is None && p.priority is None && p.same_party is None
    &&& p.source_scheme is None && p.source_port is None && p.partition_key is None
}

/// The cookie handed to the browser for a file's cookie: none when the file
/// gives it no name or no value.
pub fn cookie_param(c: &CookieFields, default_expires_secs: i64) -> (r: Option<CookieParam>)
    ensures
        r is None <==> (c.name is None || c.value is None),
        r matches Some(p) ==> is_cookie_param_for(p, *c, default_expires_secs as int),
{
    let name = match &c.name {
        Some(n) => n.clone(),
        None => return None,
    };
    let value = match &c.value {
        Some(v) => v.clone(),
        None => return None,
    };
    proof {
        reveal_strlit("");
        reveal_strlit("/");
        reveal_strlit("https");
        reveal_strlit("http");
        reveal_strlit("://");
    }
    let domain: String = match &c.domain {
        Some(d) => d.clone(),
        None => String::new(),
    };
    let path: String = match &c.path {
        Some(p) => p.clone(),
        None => "/".to_string(),
    };
    let secure = c.secure == Some(true);
    let mut url = String::new();
    if secure {
        push_str(&mut url, "https");
    } else {
        push_str(&mut url, "http");
    }
    push_str(&mut url, "://");
    let dc = chars_of(domain.as_str());
    let clean = trim_start_char_exec(dc.as_slice(), '.');
    push_chars(&mut url, clean.as_slice());
    push_str(&mut url, "/");
    let mut expires = String::new();
    match c.expires_secs {
        Some(s) => crate::cdp::push_int(&mut expires, s),
        None => crate::cdp::push_int(&mut expires, default_expires_secs),
    }
    Some(CookieParam {
        name,
        value,
        url: Some(url),
        domain: Some(domain),
        path: Some(path),
        secure: Some(secure),
        http_only: Some(c.http_only == Some(true)),
        same_site: None,
        expires: Some(expires),
        priority: None,
        same_party: None,
        source_scheme: None,
        source_port: None,
        partition_key: None,
    })
}

/// The cookies handed to the browser for a file's cookies: one for each that
/// has a name and a value, in the file's order.
pub open spec fn are_cookie_params_for(r: Seq<CookieParam>, cookies: Seq<CookieFields>, default_expires_secs: int) -> bool {
    exists|picked: Seq<int>| {
        &&& picked.len() == r.len()
        &&& forall|k: int| 0 <= k < picked.len() ==> 0 <= #[trigger] picked[k] < cookies.len()
        &&& forall|k: int, l: int| 0 <= k < l < picked.len() ==> picked[k] < picked[l]
        &&& forall|k: int| 0 <= k < picked.len() ==> is_cookie_param_for(#[trigger] r[k], cookies[picked[k]], default_expires_secs)
        &&& forall|j: int| 0 <= j < cookies.len() ==> (cookies[j].name is Some && cookies[j].value is Some
            <==> exists|k: int| 0 <= k < picked.len() && #[trigger] picked[k] == j)
    }
}

/// The cookies handed to the browser for a file's cookies.
pub fn cookie_params(cookies: &Vec<CookieFields>, default_expires_secs: i64) -> (r: Vec<CookieParam>)
    ensures
        are_cookie_params_for(r@, cookies@, default_expires_secs as int),
{
    let mut r: Vec<CookieParam> = Vec::new();
    let ghost mut picked: Seq<int> = Seq::empty();
    let mut i: usize = 0;
    while i < cookies.len()
        invariant
            i <= cookies@.len(),
            picked.len() == r@.len(),
            forall|k: int| 0 <= k < picked.len() ==> 0 <= #[trigger] picked[k] < i,
            forall|k: int, l: int| 0 <= k < l < picked.len() ==> picked[k] < picked[l],
            forall|k: int| 0 <= k < picked.len() ==> is_cookie_param_for(#[trigger] r@[k], cookies@[picked[k]], default_expires_secs as int),
            forall|j: int| 0 <= j < i ==> (cookies@[j].name is Some && cookies@[j].value is Some
                <==> exists|k: int| 0 <= k < picked.len() && #[trigger] picked[k] == j),
        decreases cookies@.len() - i,
    {
        match cookie_param(&cookies[i], default_expires_secs) {
            Some(p) => {
                r.push(p);
                proof {
                    let old_picked = picked;
                    picked = picked.push(i as int);
                    assert(picked[picked.len() - 1] == i as int);
                    assert forall|j: int| 0 <= j < i + 1 implies (cookies@[j].name is Some && cookies@[j].value is Some
                        <==> exists|k: int| 0 <= k < picked.len() && #[trigger] picked[k] == j) by {
                        if j < i {
                            if exists|k: int| 0 <= k < old_picked.len() && #[trigger] old_picked[k] == j {
                                let k = choose|k: int| 0 <= k < old_picked.len() && #[trigger] old_picked[k] == j;
                                assert(picked[k] == j);
                            }
                        }
                    }
                }
            },
            None => {
                proof {
                    assert forall|j: int| 0 <= j < i + 1 implies (cookies@[j].name is Some && cookies@[j].value is Some
                        <==> exists|k: int| 0 <= k < picked.len() && #[trigger] picked[k] == j) by {
                        if j == i {
                            if exists|k: int| 0 <= k < picked.len() && #[trigger] picked[k] == j {
                                let k = choose|k: int| 0 <= k < picked.len() && #[trigger] picked[k] == j;
                                assert(picked[k] < i);
                            }
                        }
                    }
                }
            },
        }
        i = i + 1;
    }
    assert(are_cookie_params_for(r@, cookies@, default_expires_secs as int));
    r
}

/// The `Network.setCookies` command that loads a file's cookies, given the
/// time now in whole seconds since the Unix epoch: those without an expiry
/// last thirty days from now.
pub fn load_cookies_command(cookies: &Vec<CookieFields>, now_secs: i64) -> (c: Command)
    requires
        now_secs + THIRTY_DAYS_SECS <= i64::MAX,
    ensures
        c.method@ == "Network.setCookies"@,
        exists|params: Seq<CookieParam>| {
            &&& #[trigger] are_cookie_params_for(params, cookies@, now_secs + THIRTY_DAYS_SECS)
            &&& c.params@ == object(objs_m("cookies"@, params.map_values(|x: CookieParam| cookie_param_members(x))))
        },
{
    let params = cookie_params(cookies, now_secs + THIRTY_DAYS_SECS);
    set_cookies(&params)
}

// ───────────────────────── the file ─────────────────────────

/// The cookie objects a cookie file holds: the file's array, or the array
/// under its `cookies` member.
pub open spec fn cookie_array_of(d: JsonView) -> Option<Seq<JsonView>> {
    match d {
        JsonView::Array(items) => Some(items),
        _ => match member_view(d, "cookies"@) {
            Some(JsonView::Array(items)) => Some(items),
            _ => None,
        },
    }
}

/// The views of a list of JSON values.
pub open spec fn views_of(vs: Seq<JsonValue>) -> Seq<JsonView> {
    vs.map_values(|x: JsonValue| json_view(x))
}

/// The cookie objects of a cookie file's text: the parser's message when it
/// is no JSON, and `shape_error` when it is neither an array nor an object
/// whose `cookies` member is an array.
pub fn cookie_file_objects(text: &str, shape_error: &str) -> (r: Result<Vec<JsonValue>, String>)
    ensures
        json_document(text@) is None ==> r is Err,
        json_document(text@) matches Some(d) ==> match cookie_array_of(d) {
            Some(items) => r matches Ok(v) && views_of(v@) == items,
            None => r matches Err(e) && e@ == shape_error@,
        },
{
    match parse_json(text) {
        Err(e) => Err(e),
        Ok(v) => match v {
            JsonValue::Array(items) => {
                proof {
                    lemma_array_view(items);
                }
                Ok(items)
            },
            JsonValue::Object(ms) => {
                let ghost whole = JsonValue::Object(ms);
                match member_index(&ms, "cookies") {
                    Some(i) => {
                        let mut ms = ms;
                        let (_, c) = ms.remove(i);
                        assert(member_view(json_view(whole), "cookies"@) == Some(json_view(c)));
                        match c {
                            JsonValue::Array(items) => {
                                proof {
                                    lemma_array_view(items);
                                    reveal_strlit("cookies");
                                }
                                Ok(items)
                            },
                            _ => Err(shape_error.to_string()),
                        }
                    },
                    None => Err(shape_error.to_string()),
                }
            },
            _ => Err(shape_error.to_string()),
        },
    }
}

/// What a cookie object says of one cookie, read as the HTTP browser's jar
/// reads it: its `name`, `value`, `domain` and `path` texts, its `httpOnly`
/// and `secure` flags, and the given expiry.
pub fn cookie_entry_of(obj: &JsonValue, expires: Option<i64>) -> (e: CookieEntry)
    ensures
        opt_view(e.name) == member_str(json_view(*obj), "name"@),
        opt_view(e.value) == member_str(json_view(*obj), "value"@),
        opt_view(e.domain) == member_str(json_view(*obj), "domain"@),
        opt_view(e.path) == member_str(json_view(*obj), "path"@),
        e.http_only == member_bool(json_view(*obj), "httpOnly"@),
        e.secure == member_bool(json_view(*obj), "secure"@),
        e.expires == expires,
{
    CookieEntry {
        name: json_str(obj, "name"),
        value: json_str(obj, "value"),
        domain: json_str(obj, "domain"),
        path: json_str(obj, "path"),
        expires,
        http_only: json_bool(obj, "httpOnly"),
        secure: json_bool(obj, "secure"),
    }
}

/// What a cookie object says of one cookie, read as a profile's cookie
/// database is written: its `name`, `value`, `domain` and `path` texts,
/// its `secure`, `httpOnly` and `session` flags, and the given expiry.
pub fn cookie_fields_of(obj: &JsonValue, expires_secs: Option<i64>) -> (f: CookieFields)
    ensures
        opt_view(f.name) == member_str(json_view(*obj), "name"@),
        opt_view(f.value) == member_str(json_view(*obj), "value"@),
        opt_view(f.domain) == member_str(json_view(*obj), "domain"@),
        opt_view(f.path) == member_str(json_view(*obj), "path"@),
        f.secure == member_bool(json_view(*obj), "secure"@),
        f.http_only == member_bool(json_view(*obj), "httpOnly"@),
        f.session == member_bool(json_view(*obj), "session"@),
        f.expires_secs == expires_secs,
{
    CookieFields {
        name: json_str(obj, "name"),
        value: json_str(obj, "value"),
        domain: json_str(obj, "domain"),
        path: json_str(obj, "path"),
        secure: json_bool(obj, "secure"),
        http_only: json_bool(obj, "httpOnly"),
        expires_secs,
        session: json_bool(obj, "session"),
    }
}

} // verus!
