//! The decisions of the persistent cookie jar: what a Set-Cookie header or a
//! `document.cookie` assignment does to the stored cookies, and which stored
//! cookies go with a request. The storage itself (SQLite) stays outside.
use vstd::prelude::*;
use crate::text::{text_or, string_or, lemma_split_nonempty, 
    ascii_lowercase, chars_eq, chars_of, ends_with, ends_with_exec, join, join_exec, parse_i64,
    parse_i64_exec, slice_vec, split, split_exec, split_once, split_once_exec, starts_with,
    starts_with_exec, string_of, trim, trim_chars, trim_start_char, trim_start_char_exec,
    char_views, lemma_char_views_push,
};
use crate::urls::{host_of_url, path_of_url, scheme_of_url, url_host, url_path, url_scheme};

verus! {

/// A stored cookie, one row of the cookie table.
#[derive(Debug, Clone)]
pub struct CookieRow {
    pub domain: String,
    pub path: String,
    pub name: String,
    pub value: String,
    pub secure: i32,
    pub http_only: i32,
    pub same_site: String,
    pub expires: Option<i64>,
}

/// The text fields of a stored cookie.
pub struct RowView {
    pub domain: Seq<char>,
    pub path: Seq<char>,
    pub name: Seq<char>,
    pub value: Seq<char>,
    pub secure: i32,
    pub http_only: i32,
    pub same_site: Seq<char>,
    pub expires: Option<i64>,
}

impl View for CookieRow {
    type V = RowView;

    open spec fn view(&self) -> RowView {
        RowView {
            domain: self.domain@,
            path: self.path@,
            name: self.name@,
            value: self.value@,
            secure: self.secure,
            http_only: self.http_only,
            same_site: self.same_site@,
            expires: self.expires,
        }
    }
}

/// What a cookie assignment does to the table.
#[derive(Debug, Clone)]
pub enum CookieWrite {
    /// Nothing: the text sets no cookie.
    Ignore,
    /// Delete the cookie with this domain, path and name.
    Delete { domain: String, path: String, name: String },
    /// Insert the row, replacing one with the same domain, path and name.
    Upsert(CookieRow),
}

/// The text of a cookie write.
pub enum WriteView {
    Ignore,
    Delete { domain: Seq<char>, path: Seq<char>, name: Seq<char> },
    Upsert(RowView),
}

impl View for CookieWrite {
    type V = WriteView;

    open spec fn view(&self) -> WriteView {
        match self {
            CookieWrite::Ignore => WriteView::Ignore,
            CookieWrite::Delete { domain, path, name } => WriteView::Delete {
                domain: domain@,
                path: path@,
                name: name@,
            },
            CookieWrite::Upsert(r) => WriteView::Upsert(r@),
        }
    }
}

// ───────────────────────── dates ─────────────────────────

/// What `chrono::DateTime::parse_from_rfc2822` gives for a text, as a Unix
/// timestamp; `None` where it reports an error.
pub uninterp spec fn rfc2822_timestamp(s: Seq<char>) -> Option<i64>;

/// What `chrono::NaiveDateTime::parse_from_str` gives for a text with the
/// format `%a, %d %b %Y %H:%M:%S GMT`, as a Unix timestamp in UTC; `None`
/// where it reports an error.
pub uninterp spec fn gmt_timestamp(s: Seq<char>) -> Option<i64>;

/// `chrono::DateTime::parse_from_rfc2822` then `timestamp`; the result is
/// named `rfc2822_timestamp`.
#[verifier::external_body]
fn parse_rfc2822(s: &str) -> (r: Option<i64>)
    ensures
        r == rfc2822_timestamp(s@),
{
    chrono::DateTime::parse_from_rfc2822(s).ok().map(|dt| dt.timestamp())
}

/// `chrono::NaiveDateTime::parse_from_str` with the HTTP date format, then
/// `and_utc().timestamp()`; the result is named `gmt_timestamp`.
#[verifier::external_body]
fn parse_gmt(s: &str) -> (r: Option<i64>)
    ensures
        r == gmt_timestamp(s@),
{
    chrono::NaiveDateTime::parse_from_str(s, "%a, %d %b %Y %H:%M:%S GMT").ok().map(
        |dt| dt.and_utc().timestamp(),
    )
}

/// A cookie date as a Unix timestamp: RFC 2822 first, then the HTTP date
/// format on the trimmed text.
pub open spec fn cookie_date(s: Seq<char>) -> Option<i64> {
    match rfc2822_timestamp(s) {
        Some(t) => Some(t),
        None => gmt_timestamp(trim(s)),
    }
}

/// Parse a simplified HTTP date ("Thu, 01 Jan 2030 00:00:00 GMT") to a Unix
/// timestamp.
pub fn parse_http_date(s: &str) -> (r: Option<i64>)
    ensures
        r == cookie_date(s@),
{
    match parse_rfc2822(s) {
        Some(t) => Some(t),
        None => {
            let t = trim_chars(chars_of(s).as_slice());
            let ts = string_of(t.as_slice());
            parse_gmt(ts.as_str())
        },
    }
}

// ───────────────────────── parsing an assignment ─────────────────────────

/// The cookie being built while the attributes are read, or the deletion
/// that an attribute called for.
pub enum Pending {
    Building(RowView),
    Deleting { domain: Seq<char>, path: Seq<char>, name: Seq<char> },
}

/// `p` (already trimmed) starts with the attribute name `a`, compared
/// without ASCII case. The names checked here hold no letter that a
/// non-ASCII char lowercases to, so this is the check `to_lowercase` gives.
pub open spec fn attr_is(p: Seq<char>, a: Seq<char>) -> bool {
    starts_with(ascii_lowercase(p), a)
}

/// The value of a `max-age` attribute applied at `now`: `None` to delete.
pub open spec fn max_age_expiry(now: i64, secs: i64) -> Option<i64> {
    if secs <= 0 {
        None
    } else if now + secs > i64::MAX {
        Some(i64::MAX)
    } else {
        Some((now + secs) as i64)
    }
}

/// One attribute of a Set-Cookie header (`from_js` false) or of a
/// `document.cookie` text (`from_js` true) applied at `now`.
pub open spec fn apply_cookie_attr(st: Pending, attr: Seq<char>, now: i64, from_js: bool) -> Pending {
    match st {
        Pending::Deleting { .. } => st,
        Pending::Building(r) => {
            let p = trim(attr);
            if !from_js && attr_is(p, "domain="@) {
                Pending::Building(
                    RowView { domain: trim_start_char(trim(p.skip(7)), '.'), ..r },
                )
            } else if attr_is(p, "path="@) {
                Pending::Building(RowView { path: trim(p.skip(5)), ..r })
            } else if !from_js && ascii_lowercase(p) == "secure"@ {
                Pending::Building(RowView { secure: 1, ..r })
            } else if !from_js && ascii_lowercase(p) == "httponly"@ {
                Pending::Building(RowView { http_only: 1, ..r })
            } else if attr_is(p, "samesite="@) {
                Pending::Building(RowView { same_site: trim(p.skip(9)), ..r })
            } else if attr_is(p, "max-age="@) {
                match parse_i64(trim(p.skip(8))) {
                    Some(secs) => match max_age_expiry(now, secs) {
                        Some(e) => Pending::Building(RowView { expires: Some(e), ..r }),
                        None => Pending::Deleting { domain: r.domain, path: r.path, name: r.name },
                    },
                    None => st,
                }
            } else if attr_is(p, "expires="@) {
                if r.expires is None {
                    match cookie_date(trim(p.skip(8))) {
                        Some(ts) => if ts < now {
                            Pending::Deleting { domain: r.domain, path: r.path, name: r.name }
                        } else {
                            Pending::Building(RowView { expires: Some(ts), ..r })
                        },
                        None => st,
                    }
                } else {
                    st
                }
            } else {
                st
            }
        },
    }
}

/// The attributes applied in order; a deletion ends the reading.
pub open spec fn apply_cookie_attrs(st: Pending, attrs: Seq<Seq<char>>, now: i64, from_js: bool) -> Pending
    decreases attrs.len(),
{
    if attrs.len() == 0 {
        st
    } else {
        apply_cookie_attr(apply_cookie_attrs(st, attrs.drop_last(), now, from_js), attrs.last(), now, from_js)
    }
}

/// The write that a finished reading calls for.
pub open spec fn finish(p: Pending) -> WriteView {
    match p {
        Pending::Building(r) => WriteView::Upsert(r),
        Pending::Deleting { domain, path, name } => WriteView::Delete { domain, path, name },
    }
}

/// What a cookie text does: the `name=value` part (a nonempty name), then
/// the attributes starting from `start`.
pub open spec fn cookie_write(text: Seq<char>, start: RowView, now: i64, from_js: bool) -> WriteView {
    let parts = split(text, ';');
    match split_once(parts[0], '=') {
        Some((k, v)) => if trim(k).len() == 0 {
            WriteView::Ignore
        } else {
            let row = RowView { name: trim(k), value: trim(v), ..start };
            finish(apply_cookie_attrs(Pending::Building(row), parts.skip(1), now, from_js))
        },
        None => WriteView::Ignore,
    }
}

/// The defaults of a cookie set by a response from `url`: its host as
/// domain, path `/`, Secure when the URL is HTTPS, SameSite Lax.
pub open spec fn header_defaults(url: Seq<char>) -> RowView {
    RowView {
        domain: match url_host(url) {
            Some(h) => h,
            None => Seq::empty(),
        },
        path: "/"@,
        name: Seq::empty(),
        value: Seq::empty(),
        secure: if url_scheme(url) == Some("https"@) { 1 } else { 0 },
        http_only: 0,
        same_site: "Lax"@,
        expires: None,
    }
}

/// The defaults of a cookie set from script on `domain`: never Secure nor
/// HttpOnly.
pub open spec fn js_defaults(domain: Seq<char>) -> RowView {
    RowView {
        domain,
        path: "/"@,
        name: Seq::empty(),
        value: Seq::empty(),
        secure: 0,
        http_only: 0,
        same_site: "Lax"@,
        expires: None,
    }
}

fn attr_is_exec(p: &[char], a: &str) -> (r: bool)
    ensures
        r == attr_is(p@, a@),
{
    let l = ascii_lowercase_exec(p);
    let ac = chars_of(a);
    starts_with_exec(l.as_slice(), ac.as_slice())
}

/// `to_ascii_lowercase` on chars.
pub fn ascii_lowercase_exec(p: &[char]) -> (r: Vec<char>)
    ensures
        r@ == ascii_lowercase(p@),
{
    let mut r: Vec<char> = Vec::new();
    let mut i: usize = 0;
    while i < p.len()
        invariant
            i <= p.len(),
            r@ == ascii_lowercase(p@.take(i as int)),
        decreases p.len() - i,
    {
        let c = p[i];
        let l = if 'A' <= c && c <= 'Z' { ((c as u32) + 32) as u8 as char } else { c };
        assert(l == crate::text::ascii_lower(c)) by {
            if 'A' <= c && c <= 'Z' {
                assert((((c as u32) + 32) as u8 as char) == (((c as u32) + 32) as char));
            }
        }
        r.push(l);
        assert(ascii_lowercase(p@.take(i + 1)) =~= ascii_lowercase(p@.take(i as int)).push(l));
        i = i + 1;
    }
    assert(p@.take(p.len() as int) =~= p@);
    r
}

fn lit_eq(p: &[char], a: &str) -> (r: bool)
    ensures
        r == (p@ == a@),
{
    let ac = chars_of(a);
    chars_eq(p, ac.as_slice())
}

fn row_of(v: &RowBuild) -> (r: CookieRow)
    ensures
        r@ == v.view_row(),
{
    CookieRow {
        domain: string_of(v.domain.as_slice()),
        path: string_of(v.path.as_slice()),
        name: string_of(v.name.as_slice()),
        value: string_of(v.value.as_slice()),
        secure: v.secure,
        http_only: v.http_only,
        same_site: string_of(v.same_site.as_slice()),
        expires: v.expires,
    }
}

struct RowBuild {
    domain: Vec<char>,
    path: Vec<char>,
    name: Vec<char>,
    value: Vec<char>,
    secure: i32,
    http_only: i32,
    same_site: Vec<char>,
    expires: Option<i64>,
}

impl RowBuild {
    spec fn view_row(&self) -> RowView {
        RowView {
            domain: self.domain@,
            path: self.path@,
            name: self.name@,
            value: self.value@,
            secure: self.secure,
            http_only: self.http_only,
            same_site: self.same_site@,
            expires: self.expires,
        }
    }
}

fn plan_cookie_write(text: &str, start: RowBuild, now: i64, from_js: bool) -> (w: CookieWrite)
    ensures
        w@ == cookie_write(text@, start.view_row(), now, from_js),
{
    let tc = chars_of(text);
    let parts = split_exec(tc.as_slice(), ';');
    let ghost ps = split(text@, ';');
    proof {
        lemma_split_nonempty(text@, ';');
    }
    let kv = match split_once_exec(parts[0].as_slice(), '=') {
        Some(kv) => kv,
        None => return CookieWrite::Ignore,
    };
    let name = trim_chars(kv.0.as_slice());
    if name.len() == 0 {
        return CookieWrite::Ignore;
    }
    let value = trim_chars(kv.1.as_slice());
    let mut row = RowBuild { name, value, ..start };
    let ghost row0 = row.view_row();
    assert(row0 == RowView { name: trim(kv.0@), value: trim(kv.1@), ..start.view_row() });
    let ghost attrs = ps.skip(1);
    let mut i: usize = 1;
    assert(attrs.take(0) =~= Seq::<Seq<char>>::empty());
    assert(parts@[0]@ == ps[0]);
    assert(cookie_write(text@, start.view_row(), now, from_js) == finish(apply_cookie_attrs(Pending::Building(row0), attrs, now, from_js)));
    while i < parts.len()
        invariant
            cookie_write(text@, start.view_row(), now, from_js) == finish(apply_cookie_attrs(Pending::Building(row0), attrs, now, from_js)),
            1 <= i <= parts@.len(),
            parts@.len() == ps.len(),
            forall|k: int| 0 <= k < parts@.len() ==> #[trigger] parts@[k]@ == ps[k],
            attrs == ps.skip(1),
            apply_cookie_attrs(Pending::Building(row0), attrs.take(i - 1), now, from_js) == Pending::Building(row.view_row()),
        decreases parts@.len() - i,
    {
        let ghost before = row.view_row();
        assert(attrs.take(i as int).drop_last() =~= attrs.take(i - 1));
        assert(attrs.take(i as int).last() == ps[i as int]);
        let p = trim_chars(parts[i].as_slice());
        let pl = ascii_lowercase_exec(p.as_slice());
        if !from_js && attr_is_exec(p.as_slice(), "domain=") {
            proof { reveal_strlit("domain="); }
            let rest = trim_chars(slice_vec(p.as_slice(), 7, p.len()).as_slice());
            row.domain = trim_start_char_exec(rest.as_slice(), '.');
        } else if attr_is_exec(p.as_slice(), "path=") {
            proof { reveal_strlit("path="); }
            row.path = trim_chars(slice_vec(p.as_slice(), 5, p.len()).as_slice());
        } else if !from_js && lit_eq(pl.as_slice(), "secure") {
            row.secure = 1;
        } else if !from_js && lit_eq(pl.as_slice(), "httponly") {
            row.http_only = 1;
        } else if attr_is_exec(p.as_slice(), "samesite=") {
            proof { reveal_strlit("samesite="); }
            row.same_site = trim_chars(slice_vec(p.as_slice(), 9, p.len()).as_slice());
        } else if attr_is_exec(p.as_slice(), "max-age=") {
            proof { reveal_strlit("max-age="); }
            let v = trim_chars(slice_vec(p.as_slice(), 8, p.len()).as_slice());
            match parse_i64_exec(v.as_slice()) {
                Some(secs) => {
                    if secs <= 0 {
                        proof {
                            assert(attrs[i - 1] == ps[i as int]);
                            lemma_delete_final(row0, attrs, i as int, now, from_js, before);
                        }
                        return CookieWrite::Delete {
                            domain: string_of(row.domain.as_slice()),
                            path: string_of(row.path.as_slice()),
                            name: string_of(row.name.as_slice()),
                        };
                    }
                    row.expires = Some(if now > i64::MAX - secs { i64::MAX } else { now + secs });
                },
                None => {},
            }
        } else if attr_is_exec(p.as_slice(), "expires=") {
            proof { reveal_strlit("expires="); }
            if row.expires.is_none() {
                let v = trim_chars(slice_vec(p.as_slice(), 8, p.len()).as_slice());
                let vs = string_of(v.as_slice());
                match parse_http_date(vs.as_str()) {
                    Some(ts) => {
                        if ts < now {
                            proof {
                                assert(attrs[i - 1] == ps[i as int]);
                                lemma_delete_final(row0, attrs, i as int, now, from_js, before);
                            }
                            return CookieWrite::Delete {
                                domain: string_of(row.domain.as_slice()),
                                path: string_of(row.path.as_slice()),
                                name: string_of(row.name.as_slice()),
                            };
                        }
                        row.expires = Some(ts);
                    },
                    None => {},
                }
            }
        }
        assert(apply_cookie_attr(Pending::Building(before), ps[i as int], now, from_js) == Pending::Building(row.view_row()));
        i = i + 1;
    }
    assert(attrs.take(parts@.len() - 1) =~= attrs);
    CookieWrite::Upsert(row_of(&row))
}

proof fn lemma_apply_split(st: Pending, attrs: Seq<Seq<char>>, k: int, now: i64, from_js: bool)
    requires
        0 <= k <= attrs.len(),
    ensures
        apply_cookie_attrs(st, attrs, now, from_js) == apply_cookie_attrs(
            apply_cookie_attrs(st, attrs.take(k), now, from_js),
            attrs.skip(k),
            now,
            from_js,
        ),
    decreases attrs.len(),
{
    if k == attrs.len() {
        assert(attrs.take(k) =~= attrs);
        assert(attrs.skip(k) =~= Seq::<Seq<char>>::empty());
    } else {
        lemma_apply_split(st, attrs.drop_last(), k, now, from_js);
        assert(attrs.drop_last().take(k) =~= attrs.take(k));
        assert(attrs.skip(k).drop_last() =~= attrs.drop_last().skip(k));
        assert(attrs.skip(k).last() == attrs.last());
    }
}

proof fn lemma_delete_final(row0: RowView, attrs: Seq<Seq<char>>, i: int, now: i64, from_js: bool, before: RowView)
    requires
        1 <= i <= attrs.len(),
        apply_cookie_attrs(Pending::Building(row0), attrs.take(i - 1), now, from_js) == Pending::Building(before),
        apply_cookie_attr(Pending::Building(before), attrs[i - 1], now, from_js) is Deleting,
    ensures
        apply_cookie_attrs(Pending::Building(row0), attrs, now, from_js) == apply_cookie_attr(
            Pending::Building(before),
            attrs[i - 1],
            now,
            from_js,
        ),
{
    let d = apply_cookie_attr(Pending::Building(before), attrs[i - 1], now, from_js);
    assert(attrs.take(i).drop_last() =~= attrs.take(i - 1));
    assert(apply_cookie_attrs(Pending::Building(row0), attrs.take(i), now, from_js) == d);
    lemma_apply_split(Pending::Building(row0), attrs, i, now, from_js);
    lemma_deleting_fixed(d, attrs.skip(i), now, from_js);
}

proof fn lemma_deleting_fixed(d: Pending, attrs: Seq<Seq<char>>, now: i64, from_js: bool)
    requires
        d is Deleting,
    ensures
        apply_cookie_attrs(d, attrs, now, from_js) == d,
    decreases attrs.len(),
{
    if attrs.len() > 0 {
        lemma_deleting_fixed(d, attrs.drop_last(), now, from_js);
    }
}


// ───────────────────────── public decisions ─────────────────────────

/// What a Set-Cookie header received from `url` does at time `now`.
///
/// Parses `name=value; Domain=.example.com; Path=/; Secure; HttpOnly;
/// SameSite=Lax; Max-Age=3600`. Max-Age wins over Expires; a Max-Age of zero
/// or less, or an Expires date in the past, deletes the cookie.
pub fn plan_set_cookie(url: &str, header: &str, now: i64) -> (w: CookieWrite)
    ensures
        w@ == cookie_write(header@, header_defaults(url@), now, false),
{
    let domain: Vec<char> = match host_of_url(url) {
        Some(h) => chars_of(h.as_str()),
        None => Vec::new(),
    };
    let secure: i32 = match scheme_of_url(url) {
        Some(s) => if crate::text::str_eq(s.as_str(), "https") { 1 } else { 0 },
        None => 0,
    };
    let start = RowBuild {
        domain,
        path: chars_of("/"),
        name: Vec::new(),
        value: Vec::new(),
        secure,
        http_only: 0,
        same_site: chars_of("Lax"),
        expires: None,
    };
    assert(start.view_row() == header_defaults(url@));
    plan_cookie_write(header, start, now, false)
}

/// What `document.cookie = "name=value; path=/; ..."` on `domain` does at
/// time `now`. Script cannot set Secure, HttpOnly or Domain.
pub fn plan_js_cookie(domain: &str, cookie_str: &str, now: i64) -> (w: CookieWrite)
    ensures
        w@ == cookie_write(cookie_str@, js_defaults(domain@), now, true),
{
    let start = RowBuild {
        domain: chars_of(domain),
        path: chars_of("/"),
        name: Vec::new(),
        value: Vec::new(),
        secure: 0,
        http_only: 0,
        same_site: chars_of("Lax"),
        expires: None,
    };
    assert(start.view_row() == js_defaults(domain@));
    plan_cookie_write(cookie_str, start, now, true)
}

/// A cookie domain without its one leading dot, if it has one.
pub open spec fn bare_domain(d: Seq<char>) -> Seq<char> {
    if d.len() > 0 && d[0] == '.' {
        d.drop_first()
    } else {
        d
    }
}

/// `www.google.es` matches `.google.es` and `google.es`: with the cookie
/// domain's leading dot dropped, the two are equal, or one is a subdomain
/// of the other.
pub open spec fn domain_match(hostname: Seq<char>, cookie_domain: Seq<char>) -> bool {
    let d = bare_domain(cookie_domain);
    hostname == d || ends_with(hostname, "."@ + d) || ends_with(d, "."@ + hostname)
}

/// Domain matching: `www.google.es` matches `.google.es` and `google.es`.
pub fn domain_matches(hostname: &str, cookie_domain: &str) -> (r: bool)
    ensures
        r == domain_match(hostname@, cookie_domain@),
{
    let h = chars_of(hostname);
    let full = chars_of(cookie_domain);
    let d: Vec<char> = if full.len() > 0 && full[0] == '.' {
        slice_vec(full.as_slice(), 1, full.len())
    } else {
        full
    };
    assert(d@ =~= bare_domain(cookie_domain@));
    if chars_eq(h.as_slice(), d.as_slice()) {
        return true;
    }
    let mut dot_d: Vec<char> = Vec::new();
    dot_d.push('.');
    dot_d.extend_from_slice(d.as_slice());
    proof {
        reveal_strlit(".");
    }
    assert(dot_d@ =~= "."@ + d@);
    if ends_with_exec(h.as_slice(), dot_d.as_slice()) {
        return true;
    }
    let mut dot_h: Vec<char> = Vec::new();
    dot_h.push('.');
    dot_h.extend_from_slice(h.as_slice());
    assert(dot_h@ =~= "."@ + hostname@);
    ends_with_exec(d.as_slice(), dot_h.as_slice())
}

/// A stored cookie goes with a request for `path` on `host` at `now`: not
/// expired, its domain matches, the path starts with its path, and a Secure
/// cookie only over HTTPS.
pub open spec fn row_applies(host: Seq<char>, path: Seq<char>, https: bool, now: i64, r: RowView) -> bool {
    &&& match r.expires {
        Some(e) => e >= now,
        None => true,
    }
    &&& domain_match(host, r.domain)
    &&& starts_with(path, r.path)
    &&& !(r.secure == 1 && !https)
}

/// Whether a stored cookie goes with a request for `path` on `host`.
pub fn cookie_applies(host: &str, path: &str, https: bool, now: i64, row: &CookieRow) -> (r: bool)
    ensures
        r == row_applies(host@, path@, https, now, row@),
{
    if let Some(exp) = row.expires {
        if exp < now {
            return false;
        }
    }
    if !domain_matches(host, row.domain.as_str()) {
        return false;
    }
    let pc = chars_of(path);
    let rp = chars_of(row.path.as_str());
    if !starts_with_exec(pc.as_slice(), rp.as_slice()) {
        return false;
    }
    if row.secure == 1 && !https {
        return false;
    }
    true
}

/// `name=value` of a stored cookie.
pub open spec fn row_pair(r: RowView) -> Seq<char> {
    r.name + "="@ + r.value
}

/// The pairs of the rows that a predicate keeps, in order.
pub open spec fn kept_pairs(rows: Seq<RowView>, keep: spec_fn(RowView) -> bool) -> Seq<Seq<char>>
    decreases rows.len(),
{
    if rows.len() == 0 {
        Seq::empty()
    } else {
        let rest = kept_pairs(rows.drop_last(), keep);
        if keep(rows.last()) {
            rest.push(row_pair(rows.last()))
        } else {
            rest
        }
    }
}

/// The rows' texts.
pub open spec fn rows_view(rows: Seq<CookieRow>) -> Seq<RowView> {
    rows.map_values(|r: CookieRow| r@)
}

/// The Cookie header for a request to `url` at `now`: the stored cookies
/// that go with it, or `None` when none does or `url` has no host.
pub open spec fn cookie_header(url: Seq<char>, rows: Seq<RowView>, now: i64) -> Option<Seq<char>> {
    match (url_host(url), url_path(url)) {
        (Some(h), Some(p)) => {
            let https = url_scheme(url) == Some("https"@);
            let ps = kept_pairs(rows, |r: RowView| row_applies(h, p, https, now, r));
            if ps.len() == 0 {
                None
            } else {
                Some(join(ps, "; "@))
            }
        },
        _ => None,
    }
}

fn pair_of(r: &CookieRow) -> (p: Vec<char>)
    ensures
        p@ == row_pair(r@),
{
    let mut p = chars_of(r.name.as_str());
    p.push('=');
    p.extend_from_slice(chars_of(r.value.as_str()).as_slice());
    proof {
        reveal_strlit("=");
    }
    assert(p@ =~= row_pair(r@));
    p
}

/// Build the Cookie header value for an HTTP request to `url` from the
/// stored rows: domain (with parent domains) and path must match, and
/// Secure cookies go only to HTTPS URLs.
pub fn cookie_header_for(url: &str, rows: &Vec<CookieRow>, now: i64) -> (r: Option<String>)
    ensures
        match r {
            Some(s) => cookie_header(url@, rows_view(rows@), now) == Some(s@),
            None => cookie_header(url@, rows_view(rows@), now) is None,
        },
{
    let host = match host_of_url(url) {
        Some(h) => h,
        None => return None,
    };
    let path = match path_of_url(url) {
        Some(p) => p,
        None => return None,
    };
    let https = match scheme_of_url(url) {
        Some(s) => crate::text::str_eq(s.as_str(), "https"),
        None => false,
    };
    let ghost keep = |r: RowView| row_applies(host@, path@, https, now, r);
    let ghost rv = rows_view(rows@);
    let mut pairs: Vec<Vec<char>> = Vec::new();
    let mut i: usize = 0;
    assert(rv.take(0) =~= Seq::<RowView>::empty());
    while i < rows.len()
        invariant
            rv == rows_view(rows@),
            keep == (|r: RowView| row_applies(host@, path@, https, now, r)),
            i <= rows@.len(),
            char_views(pairs@) == kept_pairs(rv.take(i as int), keep),
        decreases rows@.len() - i,
    {
        assert(rv.take(i + 1).drop_last() =~= rv.take(i as int));
        assert(rv[i as int] == rows@[i as int]@);
        if cookie_applies(host.as_str(), path.as_str(), https, now, &rows[i]) {
            let p = pair_of(&rows[i]);
            let ghost prev = pairs@;
            pairs.push(p);
            proof {
                lemma_char_views_push(prev, p);
            }
        }
        i = i + 1;
    }
    assert(rv.take(rows@.len() as int) =~= rv);
    if pairs.len() == 0 {
        None
    } else {
        let sep = chars_of("; ");
        let j = join_exec(&pairs, sep.as_slice());
        Some(string_of(j.as_slice()))
    }
}

/// A stored cookie shows in `document.cookie` on `domain` at `now`: not
/// HttpOnly, not expired, and its domain matches.
pub open spec fn row_visible_to_script(domain: Seq<char>, now: i64, r: RowView) -> bool {
    &&& r.http_only == 0
    &&& match r.expires {
        Some(e) => e >= now,
        None => true,
    }
    &&& domain_match(domain, r.domain)
}

/// The `document.cookie` string for script on `domain`: HttpOnly cookies
/// are left out.
pub fn js_cookie_string(domain: &str, rows: &Vec<CookieRow>, now: i64) -> (r: String)
    ensures
        (forall|k: int| 0 <= k < rows@.len() ==> !domain_match(domain@, #[trigger] rows@[k]@.domain)) ==> r@.len()
            == 0,
        r@ == join(
            kept_pairs(rows_view(rows@), |x: RowView| row_visible_to_script(domain@, now, x)),
            "; "@,
        ),
{
    let ghost keep = |x: RowView| row_visible_to_script(domain@, now, x);
    let ghost rv = rows_view(rows@);
    let mut pairs: Vec<Vec<char>> = Vec::new();
    let mut i: usize = 0;
    assert(rv.take(0) =~= Seq::<RowView>::empty());
    while i < rows.len()
        invariant
            rv == rows_view(rows@),
            keep == (|x: RowView| row_visible_to_script(domain@, now, x)),
            i <= rows@.len(),
            char_views(pairs@) == kept_pairs(rv.take(i as int), keep),
        decreases rows@.len() - i,
    {
        assert(rv.take(i + 1).drop_last() =~= rv.take(i as int));
        assert(rv[i as int] == rows@[i as int]@);
        let r = &rows[i];
        let visible = r.http_only == 0 && match r.expires {
            Some(e) => e >= now,
            None => true,
        } && domain_matches(domain, r.domain.as_str());
        if visible {
            let p = pair_of(r);
            let ghost prev = pairs@;
            pairs.push(p);
            proof {
                lemma_char_views_push(prev, p);
            }
        }
        i = i + 1;
    }
    assert(rv.take(rows@.len() as int) =~= rv);
    proof {
        if forall|k: int| 0 <= k < rows@.len() ==> !domain_match(domain@, #[trigger] rows@[k]@.domain) {
            assert forall|k: int| 0 <= k < rv.len() implies !domain_match(domain@, #[trigger] rv[k].domain) by {
                assert(rv[k] == rows@[k]@);
            }
            law_no_matching_domain_no_script_cookies(domain@, now, rv);
        }
    }
    let sep = chars_of("; ");
    let j = join_exec(&pairs, sep.as_slice());
    string_of(j.as_slice())
}

/// A cookie that the jar sends is never expired, always matches the
/// request's host, and is Secure only on an HTTPS request.
pub proof fn law_sent_cookies_apply(host: Seq<char>, path: Seq<char>, https: bool, now: i64, r: RowView)
    requires
        row_applies(host, path, https, now, r),
    ensures
        r.expires is Some ==> r.expires->0 >= now,
        domain_match(host, r.domain),
        r.secure == 1 ==> https,
        starts_with(path, r.path),
{
}

/// A cookie goes with every request it fits: unexpired, its domain
/// matching the host, its path a prefix of the request's, and Secure only
/// when the request is HTTPS.
pub proof fn law_fitting_cookies_are_sent(host: Seq<char>, path: Seq<char>, https: bool, now: i64, r: RowView)
    requires
        r.expires matches Some(e) ==> e >= now,
        domain_match(host, r.domain),
        starts_with(path, r.path),
        r.secure == 1 ==> https,
    ensures
        row_applies(host, path, https, now, r),
{
}

/// Script never sees an HttpOnly cookie.
pub proof fn law_script_never_sees_http_only(domain: Seq<char>, now: i64, r: RowView)
    requires
        r.http_only != 0,
    ensures
        !row_visible_to_script(domain, now, r),
{
}

/// Domain matching is symmetric between names without a leading dot.
pub proof fn law_domain_match_symmetric(a: Seq<char>, b: Seq<char>)
    requires
        !(a.len() > 0 && a[0] == '.'),
        !(b.len() > 0 && b[0] == '.'),
    ensures
        domain_match(a, b) == domain_match(b, a),
{
}

/// A cookie domain matches the same hosts with or without its leading dot.
pub proof fn law_leading_dot_ignored(host: Seq<char>, d: Seq<char>)
    requires
        !(d.len() > 0 && d[0] == '.'),
    ensures
        domain_match(host, "."@ + d) == domain_match(host, d),
{
    reveal_strlit(".");
    let dd = "."@ + d;
    assert(dd.len() > 0 && dd[0] == '.');
    assert(dd.drop_first() =~= d);
    assert(bare_domain(dd) == d);
}

/// A cookie set from script is never Secure nor HttpOnly, and keeps the
/// page's domain.
pub proof fn law_script_cookie_flags(domain: Seq<char>, text: Seq<char>, now: i64)
    ensures
        cookie_write(text, js_defaults(domain), now, true) matches WriteView::Upsert(r) ==> r.secure
            == 0 && r.http_only == 0 && r.domain == domain,
{
    let parts = split(text, ';');
    if let Some((k, v)) = split_once(parts[0], '=') {
        if trim(k).len() != 0 {
            let row = RowView { name: trim(k), value: trim(v), ..js_defaults(domain) };
            lemma_js_attrs_keep_flags(Pending::Building(row), parts.skip(1), now, domain);
        }
    }
}

proof fn lemma_js_attrs_keep_flags(st: Pending, attrs: Seq<Seq<char>>, now: i64, domain: Seq<char>)
    requires
        st matches Pending::Building(r) ==> r.secure == 0 && r.http_only == 0 && r.domain == domain,
    ensures
        apply_cookie_attrs(st, attrs, now, true) matches Pending::Building(r) ==> r.secure == 0
            && r.http_only == 0 && r.domain == domain,
    decreases attrs.len(),
{
    if attrs.len() > 0 {
        lemma_js_attrs_keep_flags(st, attrs.drop_last(), now, domain);
    }
}

// ───────────────────────── cookies from a file ─────────────────────────

/// What a cookie file says of one cookie. The expiry is in whole seconds:
/// `expirationDate` when the file gives it, else `expires`.
#[derive(Debug, Clone)]
pub struct FileCookie {
    pub name: Option<String>,
    pub value: Option<String>,
    pub domain: Option<String>,
    pub path: Option<String>,
    pub secure: Option<bool>,
    pub http_only: Option<bool>,
    pub same_site: Option<String>,
    pub expires: Option<i64>,
}

/// The row stored for a file's cookie: its domain without leading dots;
/// none when the name or that domain is empty. The path defaults to `/`,
/// the flags to off and SameSite to `Lax`.
pub open spec fn file_row(c: FileCookie) -> Option<RowView> {
    let name = text_or(c.name, Seq::empty());
    let domain = trim_start_char(text_or(c.domain, Seq::empty()), '.');
    if name.len() == 0 || domain.len() == 0 {
        None
    } else {
        Some(RowView {
            domain,
            path: text_or(c.path, "/"@),
            name,
            value: text_or(c.value, Seq::empty()),
            secure: if c.secure == Some(true) { 1 } else { 0 },
            http_only: if c.http_only == Some(true) { 1 } else { 0 },
            same_site: text_or(c.same_site, "Lax"@),
            expires: c.expires,
        })
    }
}

/// The row stored for a cookie read from a file, if it has a name and a
/// domain.
pub fn file_cookie_row(c: &FileCookie) -> (r: Option<CookieRow>)
    ensures
        match r {
            Some(row) => file_row(*c) == Some(row@),
            None => file_row(*c) is None,
        },
{
    let name = string_or(&c.name, "");
    let d = string_or(&c.domain, "");
    let dc = chars_of(d.as_str());
    let domain = trim_start_char_exec(dc.as_slice(), '.');
    proof {
        reveal_strlit("");
        reveal_strlit("/");
        reveal_strlit("Lax");
    }
    if name.unicode_len() == 0 || domain.len() == 0 {
        return None;
    }
    let row = CookieRow {
        domain: string_of(domain.as_slice()),
        path: string_or(&c.path, "/"),
        name,
        value: string_or(&c.value, ""),
        secure: if c.secure == Some(true) { 1 } else { 0 },
        http_only: if c.http_only == Some(true) { 1 } else { 0 },
        same_site: string_or(&c.same_site, "Lax"),
        expires: c.expires,
    };
    let ghost want = RowView {
        domain: trim_start_char(text_or(c.domain, Seq::empty()), '.'),
        path: text_or(c.path, "/"@),
        name: text_or(c.name, Seq::empty()),
        value: text_or(c.value, Seq::empty()),
        secure: if c.secure == Some(true) { 1 } else { 0 },
        http_only: if c.http_only == Some(true) { 1 } else { 0 },
        same_site: text_or(c.same_site, "Lax"@),
        expires: c.expires,
    };
    assert(row@.domain =~= want.domain);
    assert(row@.path == want.path);
    assert(row@.name == want.name);
    assert(row@.value == want.value);
    assert(row@.secure == want.secure);
    assert(row@.http_only == want.http_only);
    assert(row@.same_site == want.same_site);
    assert(row@ == want);
    Some(row)
}

/// Script on a page sees a stored cookie exactly when the cookie is not
/// HttpOnly, has not expired, and its domain matches the page's: a cookie
/// of another site never shows in `document.cookie`.
pub proof fn law_script_sees_own_site_cookies(domain: Seq<char>, now: i64, r: RowView)
    ensures
        row_visible_to_script(domain, now, r) ==> domain_match(domain, r.domain),
        row_visible_to_script(domain, now, r) ==> r.http_only == 0,
        row_visible_to_script(domain, now, r) ==> (r.expires matches Some(e) ==> e >= now),
        r.http_only == 0 && (r.expires matches Some(e) ==> e >= now) && domain_match(domain, r.domain)
            ==> row_visible_to_script(domain, now, r),
{
}

/// Storing a cookie of a domain that does not match the page changes
/// nothing that the page's script sees.
pub proof fn law_other_site_cookie_adds_nothing(domain: Seq<char>, now: i64, rows: Seq<RowView>, r: RowView)
    requires
        !domain_match(domain, r.domain),
    ensures
        kept_pairs(rows.push(r), |x: RowView| row_visible_to_script(domain, now, x)) == kept_pairs(
            rows,
            |x: RowView| row_visible_to_script(domain, now, x),
        ),
{
    assert(rows.push(r).drop_last() =~= rows);
}

/// When no stored cookie's domain matches the page, its script sees no
/// cookie at all.
pub proof fn law_no_matching_domain_no_script_cookies(domain: Seq<char>, now: i64, rows: Seq<RowView>)
    requires
        forall|k: int| 0 <= k < rows.len() ==> !domain_match(domain, #[trigger] rows[k].domain),
    ensures
        kept_pairs(rows, |x: RowView| row_visible_to_script(domain, now, x)).len() == 0,
    decreases rows.len(),
{
    if rows.len() > 0 {
        let d = rows.drop_last();
        assert forall|k: int| 0 <= k < d.len() implies !domain_match(domain, #[trigger] d[k].domain) by {
            assert(d[k] == rows[k]);
        }
        law_no_matching_domain_no_script_cookies(domain, now, d);
        assert(!domain_match(domain, rows[rows.len() - 1].domain));
    }
}

/// A host and a cookie domain (its leading dot aside) that match are one
/// the other's dot-separated suffix, or the same name.
pub proof fn law_domain_match_is_suffix(host: Seq<char>, d: Seq<char>)
    requires
        domain_match(host, d),
    ensures
        ends_with(host, bare_domain(d)) || ends_with(bare_domain(d), host),
{
    reveal_strlit(".");
    let b = bare_domain(d);
    if host == b {
        assert(host.subrange(0, host.len() as int) =~= host);
    } else if ends_with(host, "."@ + b) {
        let p = "."@ + b;
        let q = host.subrange(host.len() - p.len(), host.len() as int);
        assert forall|j: int| 0 <= j < b.len() implies #[trigger] host.subrange(host.len() - b.len(), host.len() as int)[j]
            == b[j] by {
            assert(q[j + 1] == p[j + 1]);
        }
        assert(host.subrange(host.len() - b.len(), host.len() as int) =~= b);
    } else {
        let p = "."@ + host;
        let q = b.subrange(b.len() - p.len(), b.len() as int);
        assert forall|j: int| 0 <= j < host.len() implies #[trigger] b.subrange(b.len() - host.len(), b.len() as int)[j]
            == host[j] by {
            assert(q[j + 1] == p[j + 1]);
        }
        assert(b.subrange(b.len() - host.len(), b.len() as int) =~= host);
    }
}

} // verus!
