//! The HTTP browser's own state: its cookies, the page it is on, the pages
//! it has been to, and the Chrome-like headers it sends with each request.
use vstd::prelude::*;
use crate::text::{uppercase, str_eq, chars_of, to_uppercase, contains, contains_str, push_str};
use crate::ghost::{CookieJar, JarModel, header_for_domain, parse_set_cookie, put_cookie};
use crate::urls::{url_host, host_of_url};

verus! {

/// The user agent of Chrome 136 on macOS.
pub open spec fn chrome_user_agent() -> Seq<char> {
    "Mozilla/5.0 (Macintosh; Intel Mac OS X 10_15_7) AppleWebKit/537.36 (KHTML, like Gecko) Chrome/136.0.0.0 Safari/537.36"@
}

/// A char that a header value may hold: a tab, or anything from the space
/// on except DEL (what `http::HeaderValue::from_str` accepts).
pub open spec fn header_char(c: char) -> bool {
    c == '\t' || (' ' <= c && c != '\x7f')
}

/// A text that can be sent as a header value.
pub open spec fn valid_header_value(s: Seq<char>) -> bool {
    forall|i: int| 0 <= i < s.len() ==> header_char(#[trigger] s[i])
}

/// Whether a text can be sent as a header value.
pub fn is_valid_header_value(s: &str) -> (r: bool)
    ensures
        r == valid_header_value(s@),
{
    let cs = chars_of(s);
    let mut i: usize = 0;
    while i < cs.len()
        invariant
            cs@ == s@,
            i <= cs@.len(),
            forall|j: int| 0 <= j < i ==> header_char(#[trigger] cs@[j]),
        decreases cs@.len() - i,
    {
        let c = cs[i];
        if !(c == '\t' || (' ' <= c && c != '\x7f')) {
            return false;
        }
        i = i + 1;
    }
    true
}

/// The headers every page request carries, as Chrome 136 on macOS sends
/// them, in order.
pub open spec fn base_headers(user_agent: Seq<char>) -> Seq<(Seq<char>, Seq<char>)> {
    seq![
        ("user-agent"@, user_agent),
        ("accept"@, "text/html,application/xhtml+xml,application/xml;q=0.9,image/avif,image/webp,image/apng,*/*;q=0.8,application/signed-exchange;v=b3;q=0.7"@),
        ("accept-language"@, "es-ES,es;q=0.9,en;q=0.8"@),
        ("accept-encoding"@, "gzip, deflate, br, zstd"@),
        ("cache-control"@, "max-age=0"@),
        ("upgrade-insecure-requests"@, "1"@),
        ("sec-ch-ua"@, "\"Chromium\";v=\"136\", \"Not_A Brand\";v=\"24\", \"Google Chrome\";v=\"136\""@),
        ("sec-ch-ua-mobile"@, "?0"@),
        ("sec-ch-ua-platform"@, "\"macOS\""@),
        ("sec-fetch-dest"@, "document"@),
        ("sec-fetch-mode"@, "navigate"@),
        ("sec-fetch-site"@, "none"@),
        ("sec-fetch-user"@, "?1"@),
    ]
}

/// The headers of a request for `url`: the Chrome headers, the last page
/// as referrer when there is one, and the cookies stored for the URL's
/// host; a referrer or cookie header that cannot be sent is left out.
pub open spec fn request_headers_of(
    user_agent: Seq<char>,
    last_url: Seq<char>,
    jar: JarModel,
    url: Seq<char>,
) -> Seq<(Seq<char>, Seq<char>)> {
    base_headers(user_agent) + (if last_url.len() > 0 && valid_header_value(last_url) {
        seq![("referer"@, last_url)]
    } else {
        Seq::empty()
    }) + match url_host(url) {
        Some(h) => match header_for_domain(jar, h) {
            Some(c) => if valid_header_value(c) {
                seq![("cookie"@, c)]
            } else {
                Seq::empty()
            },
            None => Seq::empty(),
        },
        None => Seq::empty(),
    }
}

/// The texts of a list of header pairs.
pub open spec fn header_texts(v: Seq<(String, String)>) -> Seq<(Seq<char>, Seq<char>)> {
    v.map_values(|p: (String, String)| (p.0@, p.1@))
}

fn header(name: &str, value: &str) -> (r: (String, String))
    ensures
        r.0@ == name@,
        r.1@ == value@,
{
    (name.to_owned(), value.to_owned())
}

/// The HTTP browser's state.
pub struct BrowserState {
    pub cookies: CookieJar,
    pub last_url: String,
    pub last_html: String,
    pub history: Vec<String>,
    pub user_agent: String,
}

impl BrowserState {
    /// A browser that has been nowhere, with no cookies, that presents
    /// itself as Chrome 136 on macOS.
    pub fn new() -> (b: Self)
        ensures
            b.cookies.wf(),
            b.cookies.model().len() == 0,
            b.last_url@.len() == 0,
            b.last_html@.len() == 0,
            b.history@.len() == 0,
            b.user_agent@ == chrome_user_agent(),
    {
        BrowserState {
            cookies: CookieJar::new(),
            last_url: String::new(),
            last_html: String::new(),
            history: Vec::new(),
            user_agent: "Mozilla/5.0 (Macintosh; Intel Mac OS X 10_15_7) AppleWebKit/537.36 (KHTML, like Gecko) Chrome/136.0.0.0 Safari/537.36".to_owned(),
        }
    }

    /// The headers of a request for `url`, in order.
    pub fn request_headers(&self, url: &str) -> (r: Vec<(String, String)>)
        requires
            self.cookies.wf(),
        ensures
            header_texts(r@) == request_headers_of(self.user_agent@, self.last_url@, self.cookies.model(), url@),
    {
        let mut h: Vec<(String, String)> = Vec::new();
        h.push(header("user-agent", self.user_agent.as_str()));
        h.push(header("accept", "text/html,application/xhtml+xml,application/xml;q=0.9,image/avif,image/webp,image/apng,*/*;q=0.8,application/signed-exchange;v=b3;q=0.7"));
        h.push(header("accept-language", "es-ES,es;q=0.9,en;q=0.8"));
        h.push(header("accept-encoding", "gzip, deflate, br, zstd"));
        h.push(header("cache-control", "max-age=0"));
        h.push(header("upgrade-insecure-requests", "1"));
        h.push(header("sec-ch-ua", "\"Chromium\";v=\"136\", \"Not_A Brand\";v=\"24\", \"Google Chrome\";v=\"136\""));
        h.push(header("sec-ch-ua-mobile", "?0"));
        h.push(header("sec-ch-ua-platform", "\"macOS\""));
        h.push(header("sec-fetch-dest", "document"));
        h.push(header("sec-fetch-mode", "navigate"));
        h.push(header("sec-fetch-site", "none"));
        h.push(header("sec-fetch-user", "?1"));
        let ghost base = header_texts(h@);
        assert(base =~= base_headers(self.user_agent@));
        if !self.last_url.as_str().is_empty() && is_valid_header_value(self.last_url.as_str()) {
            h.push(header("referer", self.last_url.as_str()));
        }
        let ghost mid = header_texts(h@);
        assert(mid =~= base_headers(self.user_agent@) + (if self.last_url@.len() > 0 && valid_header_value(self.last_url@) {
            seq![("referer"@, self.last_url@)]
        } else {
            Seq::empty()
        }));
        match host_of_url(url) {
            Some(host) => {
                match self.cookies.header_for(host.as_str()) {
                    Some(c) => {
                        if is_valid_header_value(c.as_str()) {
                            h.push(header("cookie", c.as_str()));
                        }
                    },
                    None => {},
                }
            },
            None => {},
        }
        assert(header_texts(h@) =~= request_headers_of(self.user_agent@, self.last_url@, self.cookies.model(), url@));
        h
    }

    /// Stores the cookies a response from `host` set, in order.
    pub fn store_cookies(&mut self, host: &str, set_cookies: &Vec<String>)
        requires
            old(self).cookies.wf(),
        ensures
            final(self).cookies.wf(),
            final(self).cookies.model() == stored_all(old(self).cookies.model(), host@, set_cookies@),
            final(self).last_url == old(self).last_url,
            final(self).last_html == old(self).last_html,
            final(self).history == old(self).history,
            final(self).user_agent == old(self).user_agent,
    {
        let mut i: usize = 0;
        while i < set_cookies.len()
            invariant
                i <= set_cookies@.len(),
                self.cookies.wf(),
                self.cookies.model() == stored_all(old(self).cookies.model(), host@, set_cookies@.take(i as int)),
                self.last_url == old(self).last_url,
                self.last_html == old(self).last_html,
                self.history == old(self).history,
                self.user_agent == old(self).user_agent,
            decreases set_cookies@.len() - i,
        {
            assert(set_cookies@.take(i + 1).drop_last() =~= set_cookies@.take(i as int));
            self.cookies.store_from_header(host, set_cookies[i].as_str());
            i = i + 1;
        }
        assert(set_cookies@.take(set_cookies@.len() as int) =~= set_cookies@);
    }

    /// Records that the browser is now on `final_url` with the page `html`.
    pub fn arrive(&mut self, final_url: String, html: String)
        ensures
            final(self).last_url@ == final_url@,
            final(self).last_html@ == html@,
            final(self).history@.len() == old(self).history@.len() + 1,
            final(self).history@.drop_last() == old(self).history@,
            final(self).history@.last()@ == final_url@,
            final(self).cookies == old(self).cookies,
            final(self).user_agent == old(self).user_agent,
    {
        let u = final_url.clone();
        self.last_url = final_url;
        self.last_html = html;
        self.history.push(u);
        assert(self.history@.drop_last() =~= old(self).history@);
    }
}

/// The jar after storing each Set-Cookie header from `host` in order.
pub open spec fn stored_all(jar: JarModel, host: Seq<char>, headers: Seq<String>) -> JarModel
    decreases headers.len(),
{
    if headers.len() == 0 {
        jar
    } else {
        let before = stored_all(jar, host, headers.drop_last());
        match parse_set_cookie(host, headers.last()@) {
            Some(c) => put_cookie(before, c),
            None => before,
        }
    }
}

// ───────────────────────── API calls ─────────────────────────

/// The HTTP method of an API call.
#[derive(Debug, Clone, Copy, PartialEq, Eq, Structural)]
pub enum ApiMethod {
    Get,
    Post,
    Put,
    Delete,
    Patch,
}

/// The method an API call uses: `POST`, `PUT`, `DELETE` or `PATCH` in any
/// case, `GET` for anything else.
pub open spec fn api_method_of(method: Seq<char>) -> ApiMethod {
    let m = uppercase(method);
    if m == "POST"@ {
        ApiMethod::Post
    } else if m == "PUT"@ {
        ApiMethod::Put
    } else if m == "DELETE"@ {
        ApiMethod::Delete
    } else if m == "PATCH"@ {
        ApiMethod::Patch
    } else {
        ApiMethod::Get
    }
}

/// The body an API call sends: the given one (`{}` when none) for POST,
/// PUT and PATCH, nothing for GET and DELETE.
pub open spec fn api_body_of(m: ApiMethod, body: Option<Seq<char>>) -> Option<Seq<char>> {
    if m == ApiMethod::Post || m == ApiMethod::Put || m == ApiMethod::Patch {
        Some(match body {
            Some(b) => b,
            None => "{}"@,
        })
    } else {
        None
    }
}

/// What a navigation does when its request fails with the error `msg`.
pub enum FetchFailure {
    /// A connection failure on the first try: wait and send it once more.
    Retry,
    /// Give up with this error.
    Fail(String),
}

/// A request error that the client reports as a failure to connect.
pub open spec fn connect_failure(msg: Seq<char>) -> bool {
    contains(msg, "Connect"@) || contains(msg, "connect"@)
}

/// What a failed navigation request does: a connection failure on the
/// first try is retried once; any other failure, or a failure of the retry,
/// gives up with "HTTP error: .." or "HTTP error (retry): ..".
pub fn on_fetch_error(msg: &str, retried: bool) -> (r: FetchFailure)
    ensures
        !retried && connect_failure(msg@) ==> r is Retry,
        retried ==> (r matches FetchFailure::Fail(e) && e@ == "HTTP error (retry): "@ + msg@),
        !retried && !connect_failure(msg@) ==> (r matches FetchFailure::Fail(e) && e@ == "HTTP error: "@ + msg@),
{
    let cs = chars_of(msg);
    if retried {
        let mut e = String::new();
        push_str(&mut e, "HTTP error (retry): ");
        push_str(&mut e, msg);
        FetchFailure::Fail(e)
    } else if contains_str(cs.as_slice(), "Connect") || contains_str(cs.as_slice(), "connect") {
        FetchFailure::Retry
    } else {
        let mut e = String::new();
        push_str(&mut e, "HTTP error: ");
        push_str(&mut e, msg);
        FetchFailure::Fail(e)
    }
}

/// The method and body of an API call.
pub fn api_call_plan(method: &str, body: Option<&str>) -> (r: (ApiMethod, Option<String>))
    ensures
        r.0 == api_method_of(method@),
        match r.1 {
            Some(b) => api_body_of(r.0, match body { Some(x) => Some(x@), None => None }) == Some(b@),
            None => api_body_of(r.0, match body { Some(x) => Some(x@), None => None }) is None,
        },
{
    let up = to_uppercase(method);
    let u = up.as_str();
    let m = if str_eq(u, "POST") {
        ApiMethod::Post
    } else if str_eq(u, "PUT") {
        ApiMethod::Put
    } else if str_eq(u, "DELETE") {
        ApiMethod::Delete
    } else if str_eq(u, "PATCH") {
        ApiMethod::Patch
    } else {
        ApiMethod::Get
    };
    let b = if m == ApiMethod::Post || m == ApiMethod::Put || m == ApiMethod::Patch {
        Some(match body {
            Some(x) => x.to_owned(),
            None => "{}".to_owned(),
        })
    } else {
        None
    };
    (m, b)
}

// ───────────────────────── client headers ─────────────────────────

/// The headers the Chrome-like HTTP client sends with every request.
pub open spec fn chrome136_header_texts() -> Seq<(Seq<char>, Seq<char>)> {
    seq![
        ("accept"@, "text/html,application/xhtml+xml,application/xml;q=0.9,image/avif,image/webp,image/apng,*/*;q=0.8"@),
        ("accept-language"@, "es-ES,es;q=0.9,en;q=0.8"@),
        ("accept-encoding"@, "gzip, deflate, br, zstd"@),
        ("dnt"@, "1"@),
        ("upgrade-insecure-requests"@, "1"@),
        ("cache-control"@, "max-age=0"@),
    ]
}

/// The headers of the Chrome-like HTTP client, in order.
pub fn chrome136_headers() -> (r: Vec<(String, String)>)
    ensures
        header_texts(r@) == chrome136_header_texts(),
{
    let mut r: Vec<(String, String)> = Vec::new();
    r.push(header("accept", "text/html,application/xhtml+xml,application/xml;q=0.9,image/avif,image/webp,image/apng,*/*;q=0.8"));
    r.push(header("accept-language", "es-ES,es;q=0.9,en;q=0.8"));
    r.push(header("accept-encoding", "gzip, deflate, br, zstd"));
    r.push(header("dnt", "1"));
    r.push(header("upgrade-insecure-requests", "1"));
    r.push(header("cache-control", "max-age=0"));
    assert(header_texts(r@) =~= chrome136_header_texts());
    r
}

/// The headers of the light client that fetches plain HTML.
pub open spec fn light_header_texts() -> Seq<(Seq<char>, Seq<char>)> {
    seq![
        ("accept"@, "text/html,application/xhtml+xml,application/xml;q=0.9,*/*;q=0.8"@),
        ("accept-encoding"@, "gzip, deflate, br"@),
    ]
}

/// The headers of the light client, in order; it presents Chrome's user
/// agent besides.
pub fn light_headers() -> (r: Vec<(String, String)>)
    ensures
        header_texts(r@) == light_header_texts(),
{
    let mut r: Vec<(String, String)> = Vec::new();
    r.push(header("accept", "text/html,application/xhtml+xml,application/xml;q=0.9,*/*;q=0.8"));
    r.push(header("accept-encoding", "gzip, deflate, br"));
    assert(header_texts(r@) =~= light_header_texts());
    r
}

} // verus!
