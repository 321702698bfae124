//! The HTTP-only browser: its cookie jar, the page summary it hands to an
//! AI, and the filters of API discovery.
use vstd::prelude::*;
use crate::string_map::StringMap;
use crate::text::{text_or, lemma_split_nonempty, 
    chars_eq, chars_of, ends_with, ends_with_exec, join, join_exec, lowercase, push_chars, slice_vec,
    split, split_exec, split_once, split_once_exec, starts_with, starts_with_exec, str_eq,
    to_lowercase, trim, trim_chars, trim_start_char, trim_start_char_exec, string_of,
};

verus! {

// ───────────────────────── cookie jar ─────────────────────────

/// A cookie as the HTTP browser keeps it.
#[derive(Debug, Clone)]
pub struct GhostCookie {
    pub name: String,
    pub value: String,
    pub domain: String,
    pub path: String,
    pub expires: Option<i64>,
    pub http_only: bool,
    pub secure: bool,
}

/// The text fields of a cookie.
pub struct CookieView {
    pub name: Seq<char>,
    pub value: Seq<char>,
    pub domain: Seq<char>,
    pub path: Seq<char>,
    pub expires: Option<i64>,
    pub http_only: bool,
    pub secure: bool,
}

impl GhostCookie {
    /// A copy of the cookie.
    pub fn duplicate(&self) -> (r: GhostCookie)
        ensures
            r@ == self@,
    {
        GhostCookie {
            name: self.name.clone(),
            value: self.value.clone(),
            domain: self.domain.clone(),
            path: self.path.clone(),
            expires: self.expires,
            http_only: self.http_only,
            secure: self.secure,
        }
    }
}

impl View for GhostCookie {
    type V = CookieView;

    open spec fn view(&self) -> CookieView {
        CookieView {
            name: self.name@,
            value: self.value@,
            domain: self.domain@,
            path: self.path@,
            expires: self.expires,
            http_only: self.http_only,
            secure: self.secure,
        }
    }
}

/// The cookie that a Set-Cookie header before its attributes describes.
pub open spec fn base_cookie(domain: Seq<char>, name: Seq<char>, value: Seq<char>) -> CookieView {
    CookieView {
        name: trim(name),
        value: trim(value),
        domain,
        path: "/"@,
        expires: None,
        http_only: false,
        secure: false,
    }
}

/// One Set-Cookie attribute applied to a cookie. The attribute is trimmed and
/// lowercased first; Domain loses its leading dots.
pub open spec fn apply_attr(c: CookieView, attr: Seq<char>) -> CookieView {
    let p = lowercase(trim(attr));
    if starts_with(p, "domain="@) {
        CookieView { domain: trim_start_char(p.skip("domain="@.len() as int), '.'), ..c }
    } else if starts_with(p, "path="@) {
        CookieView { path: p.skip("path="@.len() as int), ..c }
    } else if p == "httponly"@ {
        CookieView { http_only: true, ..c }
    } else if p == "secure"@ {
        CookieView { secure: true, ..c }
    } else {
        c
    }
}

/// The attributes applied in order.
pub open spec fn apply_attrs(c: CookieView, attrs: Seq<Seq<char>>) -> CookieView
    decreases attrs.len(),
{
    if attrs.len() == 0 {
        c
    } else {
        apply_attr(apply_attrs(c, attrs.drop_last()), attrs.last())
    }
}

/// The cookie that a Set-Cookie header received from `domain` sets: `None`
/// when the header has no `name=value` part.
pub open spec fn parse_set_cookie(domain: Seq<char>, header: Seq<char>) -> Option<CookieView> {
    let parts = split(header, ';');
    match split_once(parts[0], '=') {
        Some((k, v)) => Some(apply_attrs(base_cookie(domain, k, v), parts.skip(1))),
        None => None,
    }
}

/// Jar contents: each domain with its cookies, in insertion order.
pub type JarModel = Seq<(Seq<char>, Seq<CookieView>)>;

/// Where the entry of `domain` stands.
pub open spec fn domain_index(jar: JarModel, domain: Seq<char>) -> Option<int> {
    if exists|i: int| 0 <= i < jar.len() && jar[i].0 == domain {
        Some(choose|i: int| 0 <= i < jar.len() && jar[i].0 == domain)
    } else {
        None
    }
}

/// No domain has two entries.
pub open spec fn domains_distinct(jar: JarModel) -> bool {
    forall|i: int, j: int| 0 <= i < jar.len() && 0 <= j < jar.len() && i != j ==> jar[i].0 != jar[j].0
}

/// Keeps the cookies whose name is not `name`.
pub open spec fn not_named(name: Seq<char>) -> spec_fn(CookieView) -> bool {
    |x: CookieView| x.name != name
}

/// Stores a cookie under its domain, replacing the cookie of the same name.
pub open spec fn put_cookie(jar: JarModel, c: CookieView) -> JarModel {
    match domain_index(jar, c.domain) {
        Some(i) => jar.update(
            i,
            (jar[i].0, jar[i].1.filter(not_named(c.name)).push(c)),
        ),
        None => jar.push((c.domain, seq![c])),
    }
}

/// `name=value`.
pub open spec fn cookie_pair(c: CookieView) -> Seq<char> {
    c.name + "="@ + c.value
}

/// The pairs of a list of cookies.
pub open spec fn cookie_pairs(cs: Seq<CookieView>) -> Seq<Seq<char>> {
    cs.map_values(|c: CookieView| cookie_pair(c))
}

/// A cookie stored for `d` goes to `domain` when `domain` ends with `d`.
pub open spec fn domain_applies(d: Seq<char>, domain: Seq<char>) -> bool {
    ends_with(domain, d) || d == domain
}

/// The pairs of every cookie whose domain applies to `domain`, in jar order.
pub open spec fn pairs_for(jar: JarModel, domain: Seq<char>) -> Seq<Seq<char>>
    decreases jar.len(),
{
    if jar.len() == 0 {
        Seq::empty()
    } else {
        let rest = pairs_for(jar.drop_last(), domain);
        if domain_applies(jar.last().0, domain) {
            rest + cookie_pairs(jar.last().1)
        } else {
            rest
        }
    }
}

/// The Cookie header for `domain`.
pub open spec fn header_for_domain(jar: JarModel, domain: Seq<char>) -> Option<Seq<char>> {
    let ps = pairs_for(jar, domain);
    if ps.len() == 0 {
        None
    } else {
        Some(join(ps, "; "@))
    }
}

/// Every domain mapped to the Cookie header of its own cookies.
pub open spec fn headers_map(jar: JarModel) -> Map<Seq<char>, Seq<char>>
    decreases jar.len(),
{
    if jar.len() == 0 {
        Map::empty()
    } else {
        headers_map(jar.drop_last()).insert(jar.last().0, join(cookie_pairs(jar.last().1), "; "@))
    }
}

/// The number of cookies.
pub open spec fn cookie_count(jar: JarModel) -> nat
    decreases jar.len(),
{
    if jar.len() == 0 {
        0
    } else {
        cookie_count(jar.drop_last()) + jar.last().1.len()
    }
}

/// Cookies of the HTTP browser, grouped by domain.
pub struct CookieJar {
    cookies: Vec<(String, Vec<GhostCookie>)>,
}

spec fn cookies_view(cs: Seq<GhostCookie>) -> Seq<CookieView> {
    cs.map_values(|c: GhostCookie| c@)
}

spec fn jar_of(v: Seq<(String, Vec<GhostCookie>)>) -> JarModel {
    v.map_values(|e: (String, Vec<GhostCookie>)| (e.0@, cookies_view(e.1@)))
}

impl CookieJar {
    /// The jar's contents.
    pub closed spec fn model(&self) -> JarModel {
        jar_of(self.cookies@)
    }

    /// Well-formedness: each domain has one entry, and no domain holds two
    /// cookies of one name.
    pub closed spec fn wf(&self) -> bool {
        domains_distinct(self.model()) && jar_names_unique(self.model())
    }

    /// A well-formed jar has one entry per domain, and no domain of it
    /// holds two cookies of one name.
    pub proof fn lemma_wf_unique(&self)
        requires
            self.wf(),
        ensures
            domains_distinct(self.model()),
            jar_names_unique(self.model()),
    {
    }

    /// An empty jar.
    pub fn new() -> (j: CookieJar)
        ensures
            j.wf(),
            j.model() == Seq::<(Seq<char>, Seq<CookieView>)>::empty(),
    {
        let j = CookieJar { cookies: Vec::new() };
        assert(j.model() =~= Seq::<(Seq<char>, Seq<CookieView>)>::empty());
        j
    }

    /// Stores a cookie under its domain; a cookie of the same name there is
    /// replaced.
    pub fn put(&mut self, cookie: GhostCookie)
        requires
            old(self).wf(),
        ensures
            final(self).wf(),
            final(self).model() == put_cookie(old(self).model(), cookie@),
    {
        let ghost jar = self.model();
        let ghost c = cookie@;
        let mut i: usize = 0;
        while i < self.cookies.len()
            invariant
                jar == self.model(),
                jar == old(self).model(),
                domains_distinct(jar),
                jar_names_unique(jar),
                i <= self.cookies@.len(),
                c == cookie@,
                forall|j: int| 0 <= j < i ==> jar[j].0 != c.domain,
            decreases self.cookies@.len() - i,
        {
            assert(jar[i as int].0 == self.cookies@[i as int].0@);
            if str_eq(self.cookies[i].0.as_str(), cookie.domain.as_str()) {
                proof {
                    assert(jar[i as int].0 == c.domain);
                    let k = domain_index(jar, c.domain)->0;
                    assert(jar[k].0 == c.domain);
                }
                assert(domain_index(jar, c.domain) == Some(i as int));
                let mut kept: Vec<GhostCookie> = Vec::new();
                let mut k: usize = 0;
                let ghost olds = jar[i as int].1;
                let ghost pred = not_named(c.name);
                while k < self.cookies[i].1.len()
                    invariant
                        jar == self.model(),
                        i < self.cookies@.len(),
                        olds == cookies_view(self.cookies@[i as int].1@),
                        c == cookie@,
                        k <= olds.len(),
                        pred == not_named(c.name),
                        cookies_view(kept@) == olds.take(k as int).filter(pred),
                    decreases olds.len() - k,
                {
                    assert(olds.take(k + 1).drop_last() =~= olds.take(k as int));
                    let same = str_eq(self.cookies[i].1[k].name.as_str(), cookie.name.as_str());
                    assert(olds[k as int] == self.cookies@[i as int].1@[k as int]@);
                    assert(olds.take(k + 1).last() == olds[k as int]);
                    assert(pred(olds[k as int]) == !same);
                    proof {
                        lemma_filter_take_step(olds, k as int, pred);
                    }
                    if !same {
                        let ghost prev = kept@;
                        kept.push(self.cookies[i].1[k].duplicate());
                        assert(cookies_view(kept@) =~= cookies_view(prev).push(olds[k as int]));
                    }
                    k = k + 1;
                }
                assert(olds.take(olds.len() as int) =~= olds);
                kept.push(cookie);
                let ghost newv = cookies_view(kept@);
                assert(newv =~= olds.filter(pred).push(c));
                self.cookies[i].1 = kept;
                proof {
                    assert(self.model() =~= jar.update(i as int, (jar[i as int].0, newv)));
                    assert forall|a: int, b: int|
                        0 <= a < self.model().len() && 0 <= b < self.model().len() && a != b implies
                        self.model()[a].0 != self.model()[b].0 by {
                        assert(self.model()[a].0 == jar[a].0);
                        assert(self.model()[b].0 == jar[b].0);
                    }
                    law_put_keeps_names_unique(jar, c);
                    assert(self.model() == put_cookie(jar, c));
                }
                return;
            }
            i = i + 1;
        }
        assert(domain_index(jar, c.domain) is None);
        let d = cookie.domain.clone();
        let mut v: Vec<GhostCookie> = Vec::new();
        v.push(cookie);
        assert(cookies_view(v@) =~= seq![c]);
        self.cookies.push((d, v));
        proof {
            assert(self.model() =~= jar.push((c.domain, seq![c])));
            assert forall|a: int, b: int|
                0 <= a < self.model().len() && 0 <= b < self.model().len() && a != b implies
                self.model()[a].0 != self.model()[b].0 by {
                if a < jar.len() && b < jar.len() {
                    assert(self.model()[a].0 == jar[a].0);
                    assert(self.model()[b].0 == jar[b].0);
                }
            }
            law_put_keeps_names_unique(jar, c);
        }
    }

    /// Parse a Set-Cookie header received from `domain` and store its cookie.
    pub fn store_from_header(&mut self, domain: &str, header: &str)
        requires
            old(self).wf(),
        ensures
            final(self).wf(),
            final(self).model() == match parse_set_cookie(domain@, header@) {
                Some(c) => put_cookie(old(self).model(), c),
                None => old(self).model(),
            },
    {
        match set_cookie_from_header(domain, header) {
            Some(c) => self.put(c),
            None => {},
        }
    }

    /// All cookies as domain → `name=val; name2=val2`.
    pub fn all_headers(&self) -> (h: StringMap)
        requires
            self.wf(),
        ensures
            h@ == headers_map(self.model()),
    {
        let ghost jar = self.model();
        let mut h = StringMap::new();
        let sep = chars_of("; ");
        let mut i: usize = 0;
        assert(jar.take(0) =~= Seq::<(Seq<char>, Seq<CookieView>)>::empty());
        while i < self.cookies.len()
            invariant
                jar == self.model(),
                i <= self.cookies@.len(),
                sep@ == "; "@,
                h@ == headers_map(jar.take(i as int)),
            decreases self.cookies@.len() - i,
        {
            let pairs = pairs_of(&self.cookies[i].1);
            let joined = join_exec(&pairs, sep.as_slice());
            let js = string_of(joined.as_slice());
            h.insert(self.cookies[i].0.as_str(), js.as_str());
            assert(jar.take(i + 1).drop_last() =~= jar.take(i as int));
            i = i + 1;
        }
        assert(jar.take(jar.len() as int) =~= jar);
        h
    }

    /// The Cookie header for a domain: every cookie stored for a domain
    /// that `domain` ends with.
    pub fn header_for(&self, domain: &str) -> (r: Option<String>)
        requires
            self.wf(),
        ensures
            match r {
                Some(s) => header_for_domain(self.model(), domain@) == Some(s@),
                None => header_for_domain(self.model(), domain@) is None,
            },
    {
        let ghost jar = self.model();
        let dc = chars_of(domain);
        let mut all: Vec<Vec<char>> = Vec::new();
        let mut i: usize = 0;
        assert(jar.take(0) =~= Seq::<(Seq<char>, Seq<CookieView>)>::empty());
        while i < self.cookies.len()
            invariant
                jar == self.model(),
                dc@ == domain@,
                i <= self.cookies@.len(),
                all@.map_values(|p: Vec<char>| p@) == pairs_for(jar.take(i as int), domain@),
            decreases self.cookies@.len() - i,
        {
            let d = chars_of(self.cookies[i].0.as_str());
            assert(jar.take(i + 1).drop_last() =~= jar.take(i as int));
            if ends_with_exec(dc.as_slice(), d.as_slice()) || chars_eq(d.as_slice(), dc.as_slice()) {
                let pairs = pairs_of(&self.cookies[i].1);
                let ghost before = all@.map_values(|p: Vec<char>| p@);
                let mut k: usize = 0;
                while k < pairs.len()
                    invariant
                        k <= pairs@.len(),
                        all@.map_values(|p: Vec<char>| p@) == before + pairs@.take(k as int).map_values(|p: Vec<char>| p@),
                    decreases pairs@.len() - k,
                {
                    let ghost prev = all@;
                    let item = pairs[k].clone();
                    all.push(item);
                    proof {
                        crate::text::lemma_char_views_push(prev, item);
                        assert(pairs@.take(k + 1).map_values(|p: Vec<char>| p@) =~= pairs@.take(k as int).map_values(|p: Vec<char>| p@).push(pairs@[k as int]@));
                    }
                    assert(all@.map_values(|p: Vec<char>| p@) =~= before + pairs@.take(k + 1).map_values(|p: Vec<char>| p@));
                    k = k + 1;
                }
                assert(pairs@.take(pairs@.len() as int) =~= pairs@);
                assert(all@.map_values(|p: Vec<char>| p@) =~= pairs_for(jar.take(i as int), domain@) + cookie_pairs(jar[i as int].1));
            }
            i = i + 1;
        }
        assert(jar.take(jar.len() as int) =~= jar);
        if all.len() == 0 {
            None
        } else {
            let sep = chars_of("; ");
            let joined = join_exec(&all, sep.as_slice());
            Some(string_of(joined.as_slice()))
        }
    }

    /// The number of cookies (at most `usize::MAX`).
    pub fn count(&self) -> (r: usize)
        ensures
            r as nat == if cookie_count(self.model()) <= usize::MAX {
                cookie_count(self.model())
            } else {
                usize::MAX as nat
            },
    {
        let ghost jar = self.model();
        let mut n: usize = 0;
        let mut i: usize = 0;
        assert(jar.take(0) =~= Seq::<(Seq<char>, Seq<CookieView>)>::empty());
        while i < self.cookies.len()
            invariant
                jar == self.model(),
                i <= self.cookies@.len(),
                n as nat == if cookie_count(jar.take(i as int)) <= usize::MAX {
                    cookie_count(jar.take(i as int))
                } else {
                    usize::MAX as nat
                },
            decreases self.cookies@.len() - i,
        {
            assert(jar.take(i + 1).drop_last() =~= jar.take(i as int));
            n = n.saturating_add(self.cookies[i].1.len());
            i = i + 1;
        }
        assert(jar.take(jar.len() as int) =~= jar);
        n
    }
}

/// The `name=value` texts of a list of cookies.
fn pairs_of(cs: &Vec<GhostCookie>) -> (r: Vec<Vec<char>>)
    ensures
        r@.map_values(|p: Vec<char>| p@) == cookie_pairs(cookies_view(cs@)),
{
    let mut r: Vec<Vec<char>> = Vec::new();
    let mut k: usize = 0;
    while k < cs.len()
        invariant
            k <= cs@.len(),
            r@.map_values(|p: Vec<char>| p@) == cookie_pairs(cookies_view(cs@.take(k as int))),
        decreases cs@.len() - k,
    {
        let mut p = chars_of(cs[k].name.as_str());
        p.push('=');
        let v = chars_of(cs[k].value.as_str());
        p.extend_from_slice(v.as_slice());
        proof {
            reveal_strlit("=");
        }
        assert(p@ =~= cookie_pair(cs@[k as int]@));
        let ghost prev = r@;
        r.push(p);
        proof {
            crate::text::lemma_char_views_push(prev, p);
            assert(cookies_view(cs@.take(k + 1)) =~= cookies_view(cs@.take(k as int)).push(cs@[k as int]@));
            assert(cookie_pairs(cookies_view(cs@.take(k + 1))) =~= cookie_pairs(cookies_view(cs@.take(k as int))).push(cookie_pair(cs@[k as int]@)));
        }
        assert(r@.map_values(|p: Vec<char>| p@) =~= cookie_pairs(cookies_view(cs@.take(k + 1))));
        k = k + 1;
    }
    assert(cs@.take(cs@.len() as int) =~= cs@);
    r
}

/// The cookie that a Set-Cookie header received from `domain` sets.
pub fn set_cookie_from_header(domain: &str, header: &str) -> (r: Option<GhostCookie>)
    ensures
        match r {
            Some(c) => parse_set_cookie(domain@, header@) == Some(c@),
            None => parse_set_cookie(domain@, header@) is None,
        },
{
    let hc = chars_of(header);
    let parts = split_exec(hc.as_slice(), ';');
    let ghost ps = split(header@, ';');
    assert(ps.len() > 0) by {
        lemma_split_nonempty(header@, ';');
    }
    let kv = match split_once_exec(parts[0].as_slice(), '=') {
        Some(kv) => kv,
        None => return None,
    };
    let name = trim_chars(kv.0.as_slice());
    let value = trim_chars(kv.1.as_slice());
    let mut cookie = GhostCookie {
        name: string_of(name.as_slice()),
        value: string_of(value.as_slice()),
        domain: domain.to_owned(),
        path: "/".to_owned(),
        expires: None,
        http_only: false,
        secure: false,
    };
    let ghost base = base_cookie(domain@, kv.0@, kv.1@);
    assert(cookie@ == base);
    let ghost attrs = ps.skip(1);
    let mut i: usize = 1;
    assert(attrs.take(0) =~= Seq::<Seq<char>>::empty());
    while i < parts.len()
        invariant
            1 <= i <= parts@.len(),
            parts@.len() == ps.len(),
            forall|k: int| 0 <= k < parts@.len() ==> #[trigger] parts@[k]@ == ps[k],
            attrs == ps.skip(1),
            cookie@ == apply_attrs(base, attrs.take(i - 1)),
        decreases parts@.len() - i,
    {
        let ghost before = cookie@;
        let t = trim_chars(parts[i].as_slice());
        let ts = string_of(t.as_slice());
        let lower = to_lowercase(ts.as_str());
        let p = chars_of(lower.as_str());
        let domain_p = chars_of("domain=");
        let path_p = chars_of("path=");
        let httponly = chars_of("httponly");
        let secure = chars_of("secure");
        if starts_with_exec(p.as_slice(), domain_p.as_slice()) {
            let rest = slice_vec(p.as_slice(), domain_p.len(), p.len());
            let d = trim_start_char_exec(rest.as_slice(), '.');
            cookie.domain = string_of(d.as_slice());
            assert(rest@ =~= p@.skip("domain="@.len() as int));
        } else if starts_with_exec(p.as_slice(), path_p.as_slice()) {
            let rest = slice_vec(p.as_slice(), path_p.len(), p.len());
            cookie.path = string_of(rest.as_slice());
            assert(rest@ =~= p@.skip("path="@.len() as int));
        } else if chars_eq(p.as_slice(), httponly.as_slice()) {
            cookie.http_only = true;
        } else if chars_eq(p.as_slice(), secure.as_slice()) {
            cookie.secure = true;
        }
        assert(attrs.take(i as int).drop_last() =~= attrs.take(i - 1));
        assert(attrs.take(i as int).last() == ps[i as int]);
        assert(cookie@ == apply_attr(before, ps[i as int]));
        i = i + 1;
    }
    assert(attrs.take(parts@.len() - 1) =~= attrs);
    Some(cookie)
}

proof fn lemma_filter_take_step(s: Seq<CookieView>, k: int, pred: spec_fn(CookieView) -> bool)
    requires
        0 <= k < s.len(),
    ensures
        s.take(k + 1).filter(pred) == if pred(s[k]) {
            s.take(k).filter(pred).push(s[k])
        } else {
            s.take(k).filter(pred)
        },
{
    reveal(Seq::filter);
    let t = s.take(k + 1);
    assert(t.drop_last() =~= s.take(k));
    assert(t.last() == s[k]);
    assert(t.len() > 0);
}

// ───────────────────────── cookies from a file ─────────────────────────

/// What a cookie file says of one cookie; the expiry in whole seconds.
#[derive(Debug, Clone)]
pub struct CookieEntry {
    pub name: Option<String>,
    pub value: Option<String>,
    pub domain: Option<String>,
    pub path: Option<String>,
    pub expires: Option<i64>,
    pub http_only: Option<bool>,
    pub secure: Option<bool>,
}

/// The cookie an entry gives: its domain without leading dots; none when
/// the name or that domain is empty. The path defaults to `/` and the flags
/// to false.
pub open spec fn entry_cookie(e: CookieEntry) -> Option<CookieView> {
    let name = text_or(e.name, Seq::empty());
    let domain = trim_start_char(text_or(e.domain, Seq::empty()), '.');
    if name.len() == 0 || domain.len() == 0 {
        None
    } else {
        Some(CookieView {
            name,
            value: text_or(e.value, Seq::empty()),
            domain,
            path: match e.path { Some(p) => p@, None => "/"@ },
            expires: e.expires,
            http_only: e.http_only == Some(true),
            secure: e.secure == Some(true),
        })
    }
}

/// The jar after storing the cookie of each entry that gives one, in order.
pub open spec fn loaded(jar: JarModel, es: Seq<CookieEntry>) -> JarModel
    decreases es.len(),
{
    if es.len() == 0 {
        jar
    } else {
        let before = loaded(jar, es.drop_last());
        match entry_cookie(es.last()) {
            Some(c) => put_cookie(before, c),
            None => before,
        }
    }
}

/// The number of entries that give a cookie.
pub open spec fn loaded_count(es: Seq<CookieEntry>) -> nat
    decreases es.len(),
{
    if es.len() == 0 {
        0
    } else {
        loaded_count(es.drop_last()) + if entry_cookie(es.last()) is Some { 1nat } else { 0nat }
    }
}

fn entry_to_cookie(e: &CookieEntry) -> (r: Option<GhostCookie>)
    ensures
        match r {
            Some(c) => entry_cookie(*e) == Some(c@),
            None => entry_cookie(*e) is None,
        },
{
    let name = match &e.name {
        Some(n) => n.clone(),
        None => String::new(),
    };
    let raw_domain = match &e.domain {
        Some(d) => chars_of(d.as_str()),
        None => Vec::new(),
    };
    let domain = trim_start_char_exec(raw_domain.as_slice(), '.');
    let name_chars = chars_of(name.as_str());
    if name_chars.len() == 0 || domain.len() == 0 {
        return None;
    }
    proof {
        reveal_strlit("/");
    }
    Some(GhostCookie {
        name,
        value: match &e.value {
            Some(v) => v.clone(),
            None => String::new(),
        },
        domain: string_of(domain.as_slice()),
        path: match &e.path {
            Some(p) => p.clone(),
            None => "/".to_owned(),
        },
        expires: e.expires,
        http_only: e.http_only == Some(true),
        secure: e.secure == Some(true),
    })
}

impl CookieJar {
    /// Stores the cookie of each entry that gives one, in order, and gives
    /// how many were stored.
    pub fn load_entries(&mut self, entries: &Vec<CookieEntry>) -> (n: usize)
        requires
            old(self).wf(),
        ensures
            final(self).wf(),
            final(self).model() == loaded(old(self).model(), entries@),
            n == loaded_count(entries@),
    {
        let mut n: usize = 0;
        let mut i: usize = 0;
        while i < entries.len()
            invariant
                i <= entries@.len(),
                self.wf(),
                self.model() == loaded(old(self).model(), entries@.take(i as int)),
                n == loaded_count(entries@.take(i as int)),
                n <= i,
            decreases entries@.len() - i,
        {
            assert(entries@.take(i + 1).drop_last() =~= entries@.take(i as int));
            match entry_to_cookie(&entries[i]) {
                Some(c) => {
                    self.put(c);
                    n = n + 1;
                },
                None => {},
            }
            i = i + 1;
        }
        assert(entries@.take(entries@.len() as int) =~= entries@);
        n
    }
}

// ───────────────────────── laws ─────────────────────────

proof fn lemma_pairs_for_push(jar: JarModel, e: (Seq<char>, Seq<CookieView>), d: Seq<char>)
    requires
        domain_applies(e.0, d),
    ensures
        pairs_for(jar.push(e), d) == pairs_for(jar, d) + cookie_pairs(e.1),
{
    assert(jar.push(e).drop_last() =~= jar);
}

proof fn lemma_pairs_for_update(jar: JarModel, i: int, e: (Seq<char>, Seq<CookieView>), d: Seq<char>, p: Seq<char>)
    requires
        0 <= i < jar.len(),
        domain_applies(e.0, d),
        cookie_pairs(e.1).contains(p),
    ensures
        pairs_for(jar.update(i, e), d).contains(p),
    decreases jar.len(),
{
    let j = jar.update(i, e);
    if i == jar.len() - 1 {
        assert(j.drop_last() =~= jar.drop_last());
        let rest = pairs_for(j.drop_last(), d);
        let k = choose|k: int| 0 <= k < cookie_pairs(e.1).len() && cookie_pairs(e.1)[k] == p;
        assert((rest + cookie_pairs(e.1))[rest.len() + k] == p);
    } else {
        assert(j.drop_last() =~= jar.drop_last().update(i, e));
        lemma_pairs_for_update(jar.drop_last(), i, e, d, p);
        let rest = pairs_for(j.drop_last(), d);
        let k = choose|k: int| 0 <= k < rest.len() && rest[k] == p;
        if domain_applies(j.last().0, d) {
            assert((rest + cookie_pairs(j.last().1))[k] == p);
        }
    }
}

/// A cookie put in the jar goes with every later request to its own
/// domain: its `name=value` pair is among those that domain is sent.
pub proof fn law_stored_cookie_is_sent(jar: JarModel, c: CookieView)
    ensures
        pairs_for(put_cookie(jar, c), c.domain).contains(cookie_pair(c)),
        header_for_domain(put_cookie(jar, c), c.domain) is Some,
{
    let p = cookie_pair(c);
    match domain_index(jar, c.domain) {
        Some(i) => {
            let e = (jar[i].0, jar[i].1.filter(not_named(c.name)).push(c));
            let ps = cookie_pairs(e.1);
            assert(ps[ps.len() - 1] == p);
            lemma_pairs_for_update(jar, i, e, c.domain, p);
        },
        None => {
            let e = (c.domain, seq![c]);
            lemma_pairs_for_push(jar, e, c.domain);
            let rest = pairs_for(jar, c.domain);
            assert((rest + cookie_pairs(e.1))[rest.len() as int] == p);
        },
    }
}

/// A cookie put in the jar replaces the one of the same name on its domain:
/// the domain's cookies end with it, and no other of them has its name.
pub proof fn law_same_name_replaced(jar: JarModel, c: CookieView)
    ensures
        exists|i: int| {
            &&& 0 <= i < put_cookie(jar, c).len()
            &&& #[trigger] put_cookie(jar, c)[i].0 == c.domain
            &&& put_cookie(jar, c)[i].1.len() > 0
            &&& put_cookie(jar, c)[i].1.last() == c
            &&& forall|k: int| 0 <= k < put_cookie(jar, c)[i].1.len() - 1
                ==> (#[trigger] put_cookie(jar, c)[i].1[k]).name != c.name
        },
{
    broadcast use vstd::seq_lib::group_filter_ensures;
    let j = put_cookie(jar, c);
    match domain_index(jar, c.domain) {
        Some(i) => {
            let kept = jar[i].1.filter(not_named(c.name));
            assert(j[i].1 == kept.push(c));
            assert forall|k: int| 0 <= k < j[i].1.len() - 1 implies (#[trigger] j[i].1[k]).name != c.name by {
                assert(j[i].1[k] == kept[k]);
                assert(not_named(c.name)(kept[k]));
            }
            assert(j[i].0 == c.domain);
        },
        None => {
            let i = jar.len() as int;
            assert(j[i].0 == c.domain);
            assert(j[i].1 == seq![c]);
        },
    }
}

/// No two cookies of a list share a name.
pub open spec fn names_unique(cs: Seq<CookieView>) -> bool {
    forall|a: int, b: int| 0 <= a < b < cs.len() ==> (#[trigger] cs[a]).name != (#[trigger] cs[b]).name
}

/// No domain of a jar holds two cookies of one name.
pub open spec fn jar_names_unique(jar: JarModel) -> bool {
    forall|i: int| 0 <= i < jar.len() ==> names_unique(#[trigger] jar[i].1)
}

proof fn lemma_filter_keeps_unique(s: Seq<CookieView>, p: spec_fn(CookieView) -> bool)
    requires
        names_unique(s),
    ensures
        names_unique(s.filter(p)),
        forall|i: int| 0 <= i < s.filter(p).len() ==> exists|j: int| 0 <= j < s.len() && #[trigger] s.filter(p)[i] == s[j],
    decreases s.len(),
{
    reveal(Seq::filter);
    if s.len() > 0 {
        let d = s.drop_last();
        assert forall|a: int, b: int| 0 <= a < b < d.len() implies (#[trigger] d[a]).name != (#[trigger] d[b]).name by {
            assert(d[a] == s[a] && d[b] == s[b]);
        }
        lemma_filter_keeps_unique(d, p);
        let f = d.filter(p);
        assert(s.filter(p) == if p(s.last()) { f.push(s.last()) } else { f });
        assert forall|i: int| 0 <= i < f.len() implies exists|j: int| 0 <= j < s.len() && #[trigger] f[i] == s[j] by {
            let j = choose|j: int| 0 <= j < d.len() && f[i] == d[j];
            assert(s[j] == d[j]);
        }
        if p(s.last()) {
            let g = f.push(s.last());
            assert forall|a: int, b: int| 0 <= a < b < g.len() implies (#[trigger] g[a]).name != (#[trigger] g[b]).name by {
                if b == g.len() - 1 {
                    let j = choose|j: int| 0 <= j < d.len() && f[a] == d[j];
                    assert(g[a] == s[j]);
                    assert(g[b] == s[s.len() - 1]);
                } else {
                    assert(g[a] == f[a] && g[b] == f[b]);
                }
            }
            assert forall|i: int| 0 <= i < g.len() implies exists|j: int| 0 <= j < s.len() && #[trigger] g[i] == s[j] by {
                if i == g.len() - 1 {
                    assert(g[i] == s[s.len() - 1]);
                } else {
                    assert(g[i] == f[i]);
                }
            }
        }
    }
}

/// Putting a cookie in a jar where no domain holds two cookies of one name
/// keeps it so.
pub proof fn law_put_keeps_names_unique(jar: JarModel, c: CookieView)
    requires
        jar_names_unique(jar),
    ensures
        jar_names_unique(put_cookie(jar, c)),
{
    broadcast use vstd::seq_lib::group_filter_ensures;
    let j = put_cookie(jar, c);
    match domain_index(jar, c.domain) {
        Some(i) => {
            let f = jar[i].1.filter(not_named(c.name));
            assert(names_unique(jar[i].1));
            lemma_filter_keeps_unique(jar[i].1, not_named(c.name));
            let g = f.push(c);
            assert forall|a: int, b: int| 0 <= a < b < g.len() implies (#[trigger] g[a]).name != (#[trigger] g[b]).name by {
                if b == g.len() - 1 {
                    assert(g[a] == f[a]);
                    assert(not_named(c.name)(f[a]));
                } else {
                    assert(g[a] == f[a] && g[b] == f[b]);
                }
            }
            assert forall|k: int| 0 <= k < j.len() implies names_unique(#[trigger] j[k].1) by {
                if k != i {
                    assert(j[k] == jar[k]);
                }
            }
        },
        None => {
            assert forall|k: int| 0 <= k < j.len() implies names_unique(#[trigger] j[k].1) by {
                if k < jar.len() {
                    assert(j[k] == jar[k]);
                }
            }
        },
    }
}

/// After any loads into a jar where no domain holds two cookies of one
/// name, still no domain does.
pub proof fn law_loaded_names_unique(jar: JarModel, es: Seq<CookieEntry>)
    requires
        jar_names_unique(jar),
    ensures
        jar_names_unique(loaded(jar, es)),
    decreases es.len(),
{
    if es.len() > 0 {
        law_loaded_names_unique(jar, es.drop_last());
        match entry_cookie(es.last()) {
            Some(c) => law_put_keeps_names_unique(loaded(jar, es.drop_last()), c),
            None => {},
        }
    }
}

/// Putting a cookie in a jar with one entry per domain keeps one entry per
/// domain.
pub proof fn law_put_keeps_domains_distinct(jar: JarModel, c: CookieView)
    requires
        domains_distinct(jar),
    ensures
        domains_distinct(put_cookie(jar, c)),
{
    let j = put_cookie(jar, c);
    match domain_index(jar, c.domain) {
        Some(i) => {
            assert forall|a: int, b: int| 0 <= a < j.len() && 0 <= b < j.len() && a != b implies j[a].0 != j[b].0 by {
                assert(j[a].0 == jar[a].0 && j[b].0 == jar[b].0);
            }
        },
        None => {
            assert forall|a: int, b: int| 0 <= a < j.len() && 0 <= b < j.len() && a != b implies j[a].0 != j[b].0 by {
                if a < jar.len() && b < jar.len() {
                    assert(j[a] == jar[a] && j[b] == jar[b]);
                } else if a < jar.len() {
                    assert(j[a] == jar[a]);
                } else {
                    assert(j[b] == jar[b]);
                }
            }
        },
    }
}

/// Loading entries into a jar with one entry per domain keeps one entry
/// per domain.
pub proof fn law_loaded_keeps_domains_distinct(jar: JarModel, es: Seq<CookieEntry>)
    requires
        domains_distinct(jar),
    ensures
        domains_distinct(loaded(jar, es)),
    decreases es.len(),
{
    if es.len() > 0 {
        law_loaded_keeps_domains_distinct(jar, es.drop_last());
        match entry_cookie(es.last()) {
            Some(c) => law_put_keeps_domains_distinct(loaded(jar, es.drop_last()), c),
            None => {},
        }
    }
}

/// One thing done to a cookie jar: a Set-Cookie header received from a
/// domain, or a cookie file's entries loaded.
pub enum JarStep {
    Header { domain: Seq<char>, header: Seq<char> },
    Load { entries: Seq<CookieEntry> },
}

/// The jar after one step, as `CookieJar::store_from_header` and
/// `CookieJar::load_entries` leave it.
pub open spec fn jar_step(jar: JarModel, step: JarStep) -> JarModel {
    match step {
        JarStep::Header { domain, header } => match parse_set_cookie(domain, header) {
            Some(c) => put_cookie(jar, c),
            None => jar,
        },
        JarStep::Load { entries } => loaded(jar, entries),
    }
}

/// The jar after a run of steps from `jar`.
pub open spec fn jar_after(jar: JarModel, steps: Seq<JarStep>) -> JarModel
    decreases steps.len(),
{
    if steps.len() == 0 {
        jar
    } else {
        jar_step(jar_after(jar, steps.drop_last()), steps.last())
    }
}

/// The (domain, name) pairs of the cookies of one jar entry.
pub open spec fn entry_pairs(e: (Seq<char>, Seq<CookieView>)) -> Set<(Seq<char>, Seq<char>)> {
    e.1.map_values(|c: CookieView| (e.0, c.name)).to_set()
}

/// The (domain, name) pairs of all cookies of a jar.
pub open spec fn stored_pairs(jar: JarModel) -> Set<(Seq<char>, Seq<char>)>
    decreases jar.len(),
{
    if jar.len() == 0 {
        Set::empty()
    } else {
        stored_pairs(jar.drop_last()).union(entry_pairs(jar.last()))
    }
}

proof fn lemma_stored_pairs_domains(jar: JarModel, p: (Seq<char>, Seq<char>))
    requires
        stored_pairs(jar).contains(p),
    ensures
        exists|i: int| 0 <= i < jar.len() && jar[i].0 == p.0,
    decreases jar.len(),
{
    if stored_pairs(jar.drop_last()).contains(p) {
        lemma_stored_pairs_domains(jar.drop_last(), p);
        let i = choose|i: int| 0 <= i < jar.drop_last().len() && jar.drop_last()[i].0 == p.0;
        assert(jar[i] == jar.drop_last()[i]);
    } else {
        let e = jar.last();
        let s = e.1.map_values(|c: CookieView| (e.0, c.name));
        assert(s.to_set().contains(p));
        assert(s.contains(p));
        let k = choose|k: int| 0 <= k < s.len() && s[k] == p;
        assert(jar[jar.len() - 1].0 == p.0);
    }
}

/// In a jar with one entry per domain and no two cookies of one name in a
/// domain, the number of cookies is the number of distinct (domain, name)
/// pairs stored.
pub proof fn law_count_is_distinct_pairs(jar: JarModel)
    requires
        domains_distinct(jar),
        jar_names_unique(jar),
    ensures
        stored_pairs(jar).finite(),
        cookie_count(jar) == stored_pairs(jar).len(),
    decreases jar.len(),
{
    broadcast use vstd::seq_lib::seq_to_set_is_finite;
    if jar.len() > 0 {
        let d = jar.drop_last();
        assert forall|a: int, b: int| 0 <= a < d.len() && 0 <= b < d.len() && a != b implies d[a].0 != d[b].0 by {
            assert(d[a] == jar[a] && d[b] == jar[b]);
        }
        assert forall|k: int| 0 <= k < d.len() implies names_unique(#[trigger] d[k].1) by {
            assert(d[k] == jar[k]);
        }
        law_count_is_distinct_pairs(d);
        let e = jar.last();
        let s = e.1.map_values(|c: CookieView| (e.0, c.name));
        assert(names_unique(jar[jar.len() - 1].1));
        assert forall|a: int, b: int| 0 <= a < s.len() && 0 <= b < s.len() && a != b implies s[a] != s[b] by {
            if a < b {
                assert(e.1[a].name != e.1[b].name);
            } else {
                assert(e.1[b].name != e.1[a].name);
            }
        }
        assert(s.no_duplicates());
        s.unique_seq_to_set();
        assert(stored_pairs(d).disjoint(entry_pairs(e))) by {
            assert forall|p: (Seq<char>, Seq<char>)| stored_pairs(d).contains(p) implies !entry_pairs(e).contains(p) by {
                lemma_stored_pairs_domains(d, p);
                let i = choose|i: int| 0 <= i < d.len() && d[i].0 == p.0;
                assert(d[i] == jar[i]);
                if entry_pairs(e).contains(p) {
                    assert(s.contains(p));
                    let k = choose|k: int| 0 <= k < s.len() && s[k] == p;
                    assert(jar[jar.len() - 1].0 == p.0);
                    assert(false);
                }
            }
        }
        vstd::set_lib::lemma_set_disjoint_lens(stored_pairs(d), entry_pairs(e));
    }
}

/// Whatever Set-Cookie headers and cookie files a fresh jar takes, in any
/// order, it keeps one entry per domain, no domain holds two cookies of one
/// name, and its count is the number of distinct (domain, name) pairs.
pub proof fn law_jar_steps_count_distinct_pairs(steps: Seq<JarStep>)
    ensures
        domains_distinct(jar_after(Seq::empty(), steps)),
        jar_names_unique(jar_after(Seq::empty(), steps)),
        stored_pairs(jar_after(Seq::empty(), steps)).finite(),
        cookie_count(jar_after(Seq::empty(), steps)) == stored_pairs(jar_after(Seq::empty(), steps)).len(),
    decreases steps.len(),
{
    if steps.len() > 0 {
        law_jar_steps_count_distinct_pairs(steps.drop_last());
        let before = jar_after(Seq::empty(), steps.drop_last());
        match steps.last() {
            JarStep::Header { domain, header } => match parse_set_cookie(domain, header) {
                Some(c) => {
                    law_put_keeps_domains_distinct(before, c);
                    law_put_keeps_names_unique(before, c);
                },
                None => {},
            },
            JarStep::Load { entries } => {
                law_loaded_keeps_domains_distinct(before, entries);
                law_loaded_names_unique(before, entries);
            },
        }
    }
    law_count_is_distinct_pairs(jar_after(Seq::empty(), steps));
}

} // verus!
