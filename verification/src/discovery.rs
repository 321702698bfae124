//! Discovering a page's API endpoints from its scripts: which script URLs
//! are fetched in each of the two rounds (the page's scripts, then the
//! modules they import), the name each script's endpoints are tagged with,
//! and the final list with one endpoint per URL in URL order.
use vstd::prelude::*;
use crate::text::{last_index_of, str_eq, chars_of, rfind_char, slice_vec, string_of};
use crate::page::{ApiEndpoint, ApiView};
use crate::api_discovery::{apis_view, scanned_apis, scan_js_for_apis, extract_js_imports, imports_from, import_patterns, regex_captures};

verus! {

// ───────────────────────── script names ─────────────────────────

/// The name a script's endpoints are tagged with: the text after the last
/// `/` of its URL, the whole URL when it has none.
pub open spec fn script_name(url: Seq<char>) -> Seq<char> {
    match last_index_of(url, '/') {
        Some(i) => url.skip(i + 1),
        None => url,
    }
}

/// The name a script's endpoints are tagged with.
pub fn script_source_name(url: &str) -> (r: String)
    ensures
        r@ == script_name(url@),
{
    let cs = chars_of(url);
    match rfind_char(cs.as_slice(), '/') {
        Some(i) => {
            let t = slice_vec(cs.as_slice(), i + 1, cs.len());
            assert(t@ =~= cs@.skip(i + 1));
            string_of(t.as_slice())
        },
        None => url.to_owned(),
    }
}

// ───────────────────────── rounds ─────────────────────────

/// The texts of a list of strings.
pub open spec fn url_texts(v: Seq<String>) -> Seq<Seq<char>> {
    v.map_values(|s: String| s@)
}

/// The scripts fetched in a round: among the first ten candidates, each
/// that was not fetched before (in an earlier round or earlier in this
/// one), in order.
pub open spec fn round_batch(candidates: Seq<Seq<char>>, fetched: Seq<Seq<char>>) -> Seq<Seq<char>> {
    new_in_order(first_ten(candidates), fetched)
}

/// The first ten of a list, all of it when it is shorter.
pub open spec fn first_ten<A>(s: Seq<A>) -> Seq<A> {
    if s.len() <= 10 {
        s
    } else {
        s.take(10)
    }
}

/// Whether a list of strings holds a text.
pub fn holds_text(v: &Vec<String>, t: &str) -> (r: bool)
    ensures
        r == url_texts(v@).contains(t@),
{
    let mut j: usize = 0;
    while j < v.len()
        invariant
            j <= v@.len(),
            forall|k: int| 0 <= k < j ==> url_texts(v@)[k] != t@,
        decreases v@.len() - j,
    {
        if str_eq(v[j].as_str(), t) {
            assert(url_texts(v@)[j as int] == t@);
            return true;
        }
        j = j + 1;
    }
    false
}

/// The candidates not fetched before, each once, in order.
pub open spec fn new_in_order(candidates: Seq<Seq<char>>, fetched: Seq<Seq<char>>) -> Seq<Seq<char>>
    decreases candidates.len(),
{
    if candidates.len() == 0 {
        Seq::empty()
    } else {
        let prev = new_in_order(candidates.drop_last(), fetched);
        let last = candidates.last();
        if fetched.contains(last) || prev.contains(last) {
            prev
        } else {
            prev.push(last)
        }
    }
}

/// The scripts to fetch in a round, given the candidates and what was
/// fetched before; `fetched` gains them.
pub fn next_batch(candidates: &Vec<String>, fetched: &mut Vec<String>) -> (r: Vec<String>)
    ensures
        url_texts(r@) == round_batch(url_texts(candidates@), url_texts(old(fetched)@)),
        url_texts(final(fetched)@) == url_texts(old(fetched)@) + url_texts(r@),
{
    let ghost cs = url_texts(candidates@);
    let ghost f0 = url_texts(fetched@);
    let n: usize = if candidates.len() < 10 { candidates.len() } else { 10 };
    let mut batch: Vec<String> = Vec::new();
    let mut i: usize = 0;
    proof {
        if candidates@.len() <= 10 {
            assert(cs =~= cs.take(n as int));
        }
    }
    while i < n
        invariant
            n <= candidates@.len(),
            n <= 10,
            cs == url_texts(candidates@),
            first_ten(cs) == cs.take(n as int),
            i <= n,
            url_texts(batch@) == new_in_order(cs.take(i as int), f0),
            url_texts(fetched@) == f0 + url_texts(batch@),
        decreases n - i,
    {
        let u = &candidates[i];
        let seen = holds_text(fetched, u.as_str());
        proof {
            let t = cs.take(i + 1);
            assert(t.drop_last() =~= cs.take(i as int));
            assert(t.last() == u@);
            let fb = url_texts(fetched@);
            let bt = url_texts(batch@);
            assert(fb == f0 + bt);
            if f0.contains(u@) {
                let k = choose|k: int| 0 <= k < f0.len() && f0[k] == u@;
                assert(fb[k] == u@);
            }
            if bt.contains(u@) {
                let k = choose|k: int| 0 <= k < bt.len() && bt[k] == u@;
                assert(fb[f0.len() + k] == u@);
            }
            if fb.contains(u@) {
                let k = choose|k: int| 0 <= k < fb.len() && fb[k] == u@;
                if k < f0.len() {
                    assert(f0[k] == u@);
                } else {
                    assert(bt[k - f0.len()] == u@);
                }
            }
            assert(seen == (f0.contains(u@) || bt.contains(u@)));
        }
        if !seen {
            let ghost fb0 = url_texts(fetched@);
            let ghost bt0 = url_texts(batch@);
            fetched.push(u.clone());
            batch.push(u.clone());
            proof {
                assert(url_texts(fetched@) =~= fb0.push(u@));
                assert(url_texts(batch@) =~= bt0.push(u@));
                assert(url_texts(batch@) =~= new_in_order(cs.take(i as int), f0).push(u@));
                assert(url_texts(fetched@) =~= f0 + url_texts(batch@));
            }
        }
        i = i + 1;
    }
    batch
}

// ───────────────────────── one endpoint per URL ─────────────────────────

/// `a` sorts before `b`: the first char where they differ is smaller in
/// `a`, or `a` is a proper prefix of `b` (the order of `str::cmp`).
pub open spec fn text_lt(a: Seq<char>, b: Seq<char>) -> bool
    decreases a.len(),
{
    if a.len() == 0 {
        b.len() > 0
    } else if b.len() == 0 {
        false
    } else if a[0] != b[0] {
        a[0] < b[0]
    } else {
        text_lt(a.drop_first(), b.drop_first())
    }
}

/// No text sorts before itself.
pub proof fn lemma_text_lt_irreflexive(a: Seq<char>)
    ensures
        !text_lt(a, a),
    decreases a.len(),
{
    if a.len() > 0 {
        lemma_text_lt_irreflexive(a.drop_first());
    }
}

/// Of two different texts, one sorts before the other, and not both ways.
pub proof fn lemma_text_lt_total(a: Seq<char>, b: Seq<char>)
    ensures
        a != b ==> (text_lt(a, b) || text_lt(b, a)),
        !(text_lt(a, b) && text_lt(b, a)),
    decreases a.len(),
{
    if a.len() > 0 && b.len() > 0 {
        if a[0] == b[0] {
            lemma_text_lt_total(a.drop_first(), b.drop_first());
            if a != b {
                assert(a.drop_first() != b.drop_first()) by {
                    if a.drop_first() == b.drop_first() {
                        assert(a =~= seq![a[0]] + a.drop_first());
                        assert(b =~= seq![b[0]] + b.drop_first());
                    }
                }
            }
        }
    } else if a.len() == 0 && b.len() == 0 {
        assert(a =~= b);
    }
}

/// The order of texts is transitive.
pub proof fn lemma_text_lt_transitive(a: Seq<char>, b: Seq<char>, c: Seq<char>)
    requires
        text_lt(a, b),
        text_lt(b, c),
    ensures
        text_lt(a, c),
    decreases a.len(),
{
    if a.len() > 0 && b.len() > 0 && c.len() > 0 {
        if a[0] == b[0] && b[0] == c[0] {
            lemma_text_lt_transitive(a.drop_first(), b.drop_first(), c.drop_first());
        }
    }
}

fn text_lt_exec(a: &[char], b: &[char]) -> (r: bool)
    ensures
        r == text_lt(a@, b@),
{
    let mut i: usize = 0;
    assert(a@.skip(0) =~= a@);
    assert(b@.skip(0) =~= b@);
    while i < a.len() && i < b.len()
        invariant
            i <= a@.len(),
            i <= b@.len(),
            text_lt(a@, b@) == text_lt(a@.skip(i as int), b@.skip(i as int)),
        decreases a@.len() - i,
    {
        let ghost x = a@.skip(i as int);
        let ghost y = b@.skip(i as int);
        assert(x[0] == a@[i as int]);
        assert(y[0] == b@[i as int]);
        if a[i] != b[i] {
            return a[i] < b[i];
        }
        assert(x.drop_first() =~= a@.skip(i + 1));
        assert(y.drop_first() =~= b@.skip(i + 1));
        i = i + 1;
    }
    i < b.len()
}

/// Entries sorted by URL, no URL twice.
pub open spec fn sorted_by_url(r: Seq<ApiView>) -> bool {
    forall|i: int, j: int| 0 <= i < j < r.len() ==> text_lt(r[i].url, r[j].url)
}

/// `e` is the first entry of `apis` with its URL.
pub open spec fn first_of_url(apis: Seq<ApiView>, e: ApiView) -> bool {
    exists|k: int| 0 <= k < apis.len() && apis[k] == e && forall|j: int| 0 <= j < k ==> apis[j].url != e.url
}

/// `r` lists, for each URL among `apis`, the first entry with it, sorted by
/// URL: what a stable sort by URL followed by dropping repeated URLs gives.
pub open spec fn one_per_url(apis: Seq<ApiView>, r: Seq<ApiView>) -> bool {
    &&& sorted_by_url(r)
    &&& forall|i: int| 0 <= i < r.len() ==> first_of_url(apis, #[trigger] r[i])
    &&& forall|k: int| 0 <= k < apis.len() ==> url_listed(r, #[trigger] apis[k].url)
}

/// Some entry has the URL.
pub open spec fn url_listed(r: Seq<ApiView>, u: Seq<char>) -> bool {
    exists|i: int| 0 <= i < r.len() && r[i].url == u
}

proof fn lemma_first_of_url_grows(done: Seq<ApiView>, a: ApiView, e: ApiView)
    requires
        first_of_url(done, e),
    ensures
        first_of_url(done.push(a), e),
{
    let k = choose|k: int| 0 <= k < done.len() && done[k] == e && forall|j: int| 0 <= j < k ==> done[j].url != e.url;
    assert(done.push(a)[k] == e);
    assert forall|j: int| 0 <= j < k implies done.push(a)[j].url != e.url by {
        assert(done.push(a)[j] == done[j]);
    }
}

proof fn lemma_keep(done: Seq<ApiView>, ov: Seq<ApiView>, a: ApiView, p: int)
    requires
        one_per_url(done, ov),
        0 <= p < ov.len(),
        ov[p].url == a.url,
    ensures
        one_per_url(done.push(a), ov),
{
    let d2 = done.push(a);
    assert forall|i: int| 0 <= i < ov.len() implies first_of_url(d2, #[trigger] ov[i]) by {
        lemma_first_of_url_grows(done, a, ov[i]);
    }
    assert forall|k: int| 0 <= k < d2.len() implies url_listed(ov, #[trigger] d2[k].url) by {
        if k < done.len() {
            assert(d2[k] == done[k]);
            assert(url_listed(ov, done[k].url));
        } else {
            assert(ov[p].url == d2[k].url);
        }
    }
}

proof fn lemma_insert(done: Seq<ApiView>, ov: Seq<ApiView>, a: ApiView, p: int)
    requires
        one_per_url(done, ov),
        0 <= p <= ov.len(),
        forall|i: int| 0 <= i < p ==> text_lt(ov[i].url, a.url),
        p < ov.len() ==> !text_lt(ov[p].url, a.url) && ov[p].url != a.url,
    ensures
        one_per_url(done.push(a), ov.insert(p, a)),
{
    let d2 = done.push(a);
    let nv = ov.insert(p, a);
    if p < ov.len() {
        lemma_text_lt_total(ov[p].url, a.url);
    }
    assert forall|j: int| p < j < nv.len() implies text_lt(a.url, #[trigger] nv[j].url) by {
        assert(nv[j] == ov[j - 1]);
        if j - 1 > p {
            assert(text_lt(ov[p].url, ov[j - 1].url));
            lemma_text_lt_transitive(a.url, ov[p].url, ov[j - 1].url);
        }
    }
    assert forall|i: int, j: int| 0 <= i < j < nv.len() implies text_lt(nv[i].url, nv[j].url) by {
        if j < p {
            assert(nv[i] == ov[i] && nv[j] == ov[j]);
        } else if j == p {
            assert(nv[i] == ov[i]);
        } else if i < p {
            assert(nv[i] == ov[i]);
            assert(text_lt(a.url, nv[j].url));
            lemma_text_lt_transitive(ov[i].url, a.url, nv[j].url);
        } else if i == p {
        } else {
            assert(nv[i] == ov[i - 1] && nv[j] == ov[j - 1]);
        }
    }
    assert forall|j: int| 0 <= j < done.len() implies done[j].url != a.url by {
        if done[j].url == a.url {
            assert(url_listed(ov, done[j].url));
            let i = choose|i: int| 0 <= i < ov.len() && ov[i].url == done[j].url;
            if i < p {
                lemma_text_lt_irreflexive(a.url);
            } else if i > p {
                assert(text_lt(ov[p].url, ov[i].url));
            }
        }
    }
    assert forall|i: int| 0 <= i < nv.len() implies first_of_url(d2, #[trigger] nv[i]) by {
        if i < p {
            assert(nv[i] == ov[i]);
            lemma_first_of_url_grows(done, a, ov[i]);
        } else if i == p {
            let k = done.len() as int;
            assert(d2[k] == a);
            assert forall|j: int| 0 <= j < k implies d2[j].url != a.url by {
                assert(d2[j] == done[j]);
            }
        } else {
            assert(nv[i] == ov[i - 1]);
            lemma_first_of_url_grows(done, a, ov[i - 1]);
        }
    }
    assert forall|k: int| 0 <= k < d2.len() implies url_listed(nv, #[trigger] d2[k].url) by {
        if k < done.len() {
            assert(d2[k] == done[k]);
            assert(url_listed(ov, done[k].url));
            let i = choose|i: int| 0 <= i < ov.len() && ov[i].url == done[k].url;
            if i < p {
                assert(nv[i] == ov[i]);
            } else {
                assert(nv[i + 1] == ov[i]);
            }
        } else {
            assert(nv[p] == a);
        }
    }
}

/// The endpoints with one per URL, the first found, in URL order.
pub fn dedup_by_url(apis: Vec<ApiEndpoint>) -> (r: Vec<ApiEndpoint>)
    ensures
        one_per_url(apis_view(apis@), apis_view(r@)),
{
    let ghost src = apis_view(apis@);
    let ghost total = apis@.len();
    let mut rest = apis;
    let mut out: Vec<ApiEndpoint> = Vec::new();
    assert(apis_view(rest@) =~= src.skip(0));
    assert(src.take(0) =~= Seq::<ApiView>::empty());
    assert(apis_view(out@) =~= Seq::<ApiView>::empty());
    while rest.len() > 0
        invariant
            total == src.len(),
            rest@.len() <= total,
            apis_view(rest@) == src.skip(total - rest@.len()),
            one_per_url(src.take(total - rest@.len()), apis_view(out@)),
        decreases rest@.len(),
    {
        let ghost k = total - rest@.len();
        let ghost done = src.take(k);
        let ghost ov = apis_view(out@);
        let ghost rv = apis_view(rest@);
        let ghost old_rest = rest@;
        let a = rest.remove(0);
        assert(rv[0] == a@);
        assert(a@ == src[k]);
        assert(rest@ =~= old_rest.subrange(1, old_rest.len() as int));
        assert forall|i: int| 0 <= i < rest@.len() implies apis_view(rest@)[i] == src.skip(k + 1)[i] by {
            assert(rest@[i] == old_rest[i + 1]);
            assert(rv[i + 1] == old_rest[i + 1]@);
        }
        assert(apis_view(rest@) =~= src.skip(k + 1));
        assert(src.take(k + 1) =~= done.push(a@));
        let ac = chars_of(a.url.as_str());
        let mut p: usize = 0;
        let mut stop = false;
        while !stop && p < out.len()
            invariant
                p <= out@.len(),
                ov == apis_view(out@),
                ac@ == a.url@,
                forall|i: int| 0 <= i < p ==> text_lt(ov[i].url, a@.url),
                stop ==> p < out@.len() && !text_lt(ov[p as int].url, a@.url),
            decreases out@.len() - p + (if stop { 0int } else { 1int }),
        {
            let oc = chars_of(out[p].url.as_str());
            if !text_lt_exec(oc.as_slice(), ac.as_slice()) {
                stop = true;
            } else {
                p = p + 1;
            }
        }
        let same = p < out.len() && str_eq(out[p].url.as_str(), a.url.as_str());
        if same {
            proof {
                lemma_keep(done, ov, a@, p as int);
            }
        } else {
            let ghost av = a@;
            out.insert(p, a);
            proof {
                lemma_insert(done, ov, av, p as int);
                assert(apis_view(out@) =~= ov.insert(p as int, av));
            }
        }
    }
    assert(src.take(total as int) =~= src);
    out
}

// ───────────────────────── the rounds ─────────────────────────

/// What scanning one fetched script gives: its endpoints, tagged with the
/// script's name, and the modules it imports, resolved against its URL.
pub fn scan_script(url: &str, js: &str) -> (r: (Vec<ApiEndpoint>, Vec<String>))
    ensures
        apis_view(r.0@) == scanned_apis(js@, script_name(url@)),
        url_texts(r.1@) == imports_from(import_patterns().map_values(|p: Seq<char>| regex_captures(p, js@)), url@),
{
    let source = script_source_name(url);
    let apis = scan_js_for_apis(js, source.as_str());
    let imports = extract_js_imports(js, url);
    (apis, imports)
}

/// The endpoints of a round's results, in order.
pub open spec fn round_apis(results: Seq<(Vec<ApiEndpoint>, Vec<String>)>) -> Seq<ApiView>
    decreases results.len(),
{
    if results.len() == 0 {
        Seq::empty()
    } else {
        round_apis(results.drop_last()) + apis_view(results.last().0@)
    }
}

/// The imports of a round's results, in order.
pub open spec fn round_imports(results: Seq<(Vec<ApiEndpoint>, Vec<String>)>) -> Seq<Seq<char>>
    decreases results.len(),
{
    if results.len() == 0 {
        Seq::empty()
    } else {
        round_imports(results.drop_last()) + url_texts(results.last().1@)
    }
}

/// Endpoint discovery in progress: the endpoints found so far, the scripts
/// fetched so far, the candidates of the next round, and how many rounds
/// are done. The page's own scripts make the first round, the modules
/// they import the second.
pub struct Discovery {
    pub apis: Vec<ApiEndpoint>,
    pub fetched: Vec<String>,
    pub to_fetch: Vec<String>,
    pub rounds: usize,
}

impl Discovery {
    /// Discovery of a page with the endpoints of its inline scripts and
    /// the URLs of its external scripts.
    pub fn new(inline_apis: Vec<ApiEndpoint>, script_urls: Vec<String>) -> (d: Self)
        ensures
            d.apis@ == inline_apis@,
            d.fetched@.len() == 0,
            d.to_fetch@ == script_urls@,
            d.rounds == 0,
    {
        Discovery { apis: inline_apis, fetched: Vec::new(), to_fetch: script_urls, rounds: 0 }
    }

    /// The scripts to fetch next: none after two rounds or when there are
    /// no candidates, else the round's batch of new scripts.
    pub fn next_round(&mut self) -> (r: Option<Vec<String>>)
        ensures
            old(self).rounds >= 2 || old(self).to_fetch@.len() == 0 ==> r is None && *final(self) == *old(self),
            old(self).rounds < 2 && old(self).to_fetch@.len() > 0 ==> (r matches Some(b)
                && url_texts(b@) == round_batch(url_texts(old(self).to_fetch@), url_texts(old(self).fetched@))
                && url_texts(final(self).fetched@) == url_texts(old(self).fetched@) + url_texts(b@)
                && final(self).apis == old(self).apis
                && final(self).to_fetch == old(self).to_fetch
                && final(self).rounds == old(self).rounds),
    {
        if self.rounds >= 2 || self.to_fetch.len() == 0 {
            return None;
        }
        let b = next_batch(&self.to_fetch, &mut self.fetched);
        Some(b)
    }

    /// Takes in what the round's scripts gave, in batch order (a script
    /// that could not be fetched gives nothing): their endpoints join the
    /// list, and after the first round their imports are the next
    /// candidates.
    pub fn absorb(&mut self, results: Vec<(Vec<ApiEndpoint>, Vec<String>)>)
        requires
            old(self).rounds < 2,
        ensures
            apis_view(final(self).apis@) == apis_view(old(self).apis@) + round_apis(results@),
            old(self).rounds == 0 ==> url_texts(final(self).to_fetch@) == round_imports(results@),
            old(self).rounds != 0 ==> final(self).to_fetch@.len() == 0,
            final(self).fetched == old(self).fetched,
            final(self).rounds == old(self).rounds + 1,
    {
        let ghost rs = results@;
        let ghost a0 = apis_view(self.apis@);
        let first = self.rounds == 0;
        let mut next: Vec<String> = Vec::new();
        let mut rest = results;
        let ghost total = rs.len();
        assert(rs.skip(0) =~= rs);
        while rest.len() > 0
            invariant
                total == rs.len(),
                rest@.len() <= total,
                rest@ == rs.skip(total - rest@.len()),
                apis_view(self.apis@) == a0 + round_apis(rs.take(total - rest@.len())),
                first ==> url_texts(next@) == round_imports(rs.take(total - rest@.len())),
                !first ==> next@.len() == 0,
                self.fetched == old(self).fetched,
                self.rounds == old(self).rounds,
                first == (old(self).rounds == 0),
                a0 == apis_view(old(self).apis@),
            decreases rest@.len(),
        {
            let ghost k = total - rest@.len();
            let (found, imports) = rest.remove(0);
            proof {
                assert(rest@ =~= rs.skip(k + 1));
                let t = rs.take(k + 1);
                assert(t.drop_last() =~= rs.take(k));
                assert(t.last() == (found, imports));
            }
            let ghost av = apis_view(self.apis@);
            let mut f = found;
            self.apis.append(&mut f);
            assert(apis_view(self.apis@) =~= av + apis_view(found@));
            if first {
                let ghost nv = url_texts(next@);
                let mut im = imports;
                next.append(&mut im);
                assert(url_texts(next@) =~= nv + url_texts(imports@));
            }
        }
        assert(rs.take(total as int) =~= rs);
        self.to_fetch = next;
        self.rounds = self.rounds + 1;
    }

    /// The endpoints found, one per URL (the first found) in URL order.
    pub fn finish(self) -> (r: Vec<ApiEndpoint>)
        ensures
            one_per_url(apis_view(self.apis@), apis_view(r@)),
    {
        dedup_by_url(self.apis)
    }
}

// ───────────────────────── laws ─────────────────────────

/// Two URLs listed in the same sorted list are at different places.
pub proof fn law_no_repeated_url(apis: Seq<ApiView>, r: Seq<ApiView>, i: int, j: int)
    requires
        one_per_url(apis, r),
        0 <= i < j < r.len(),
    ensures
        r[i].url != r[j].url,
{
    lemma_text_lt_irreflexive(r[i].url);
}

/// Every endpoint kept is one that was found.
pub proof fn law_only_found_endpoints(apis: Seq<ApiView>, r: Seq<ApiView>, i: int)
    requires
        one_per_url(apis, r),
        0 <= i < r.len(),
    ensures
        apis.contains(r[i]),
{
    assert(first_of_url(apis, r[i]));
    let k = choose|k: int| 0 <= k < apis.len() && apis[k] == r[i] && forall|j: int| 0 <= j < k ==> apis[j].url != r[i].url;
    assert(apis[k] == r[i]);
}

/// Keeping one endpoint per URL of a list that has one per URL already
/// gives that list back.
pub proof fn law_dedup_again_keeps_all(apis: Seq<ApiView>, r: Seq<ApiView>)
    requires
        one_per_url(apis, r),
    ensures
        one_per_url(r, r),
{
    assert forall|i: int| 0 <= i < r.len() implies first_of_url(r, #[trigger] r[i]) by {
        assert forall|j: int| 0 <= j < i implies r[j].url != r[i].url by {
            law_no_repeated_url(apis, r, j, i);
        }
    }
    assert forall|k: int| 0 <= k < r.len() implies url_listed(r, #[trigger] r[k].url) by {
        assert(r[k].url == r[k].url);
    }
}

proof fn lemma_sorted_tail(r: Seq<ApiView>)
    requires
        sorted_by_url(r),
        r.len() > 0,
    ensures
        sorted_by_url(r.drop_first()),
{
    assert forall|i: int, j: int| 0 <= i < j < r.drop_first().len() implies text_lt(r.drop_first()[i].url, r.drop_first()[j].url) by {
        assert(r.drop_first()[i] == r[i + 1]);
        assert(r.drop_first()[j] == r[j + 1]);
    }
}

proof fn lemma_same_urls_same_order(r1: Seq<ApiView>, r2: Seq<ApiView>)
    requires
        sorted_by_url(r1),
        sorted_by_url(r2),
        forall|u: Seq<char>| url_listed(r1, u) <==> url_listed(r2, u),
    ensures
        r1.len() == r2.len(),
        forall|i: int| 0 <= i < r1.len() ==> #[trigger] r1[i].url == r2[i].url,
    decreases r1.len() + r2.len(),
{
    if r1.len() == 0 {
        if r2.len() > 0 {
            assert(url_listed(r2, r2[0].url));
        }
    } else if r2.len() == 0 {
        assert(url_listed(r1, r1[0].url));
    } else {
        let u = r1[0].url;
        let v = r2[0].url;
        assert(url_listed(r1, u));
        assert(url_listed(r2, v));
        let p = choose|p: int| 0 <= p < r2.len() && r2[p].url == u;
        let q = choose|q: int| 0 <= q < r1.len() && r1[q].url == v;
        if p > 0 {
            // then v sorts before u, and u before v
            assert(text_lt(v, u));
            if q == 0 {
                lemma_text_lt_irreflexive(u);
            } else {
                assert(text_lt(u, v));
                lemma_text_lt_total(u, v);
            }
        }
        assert(u == v);
        let t1 = r1.drop_first();
        let t2 = r2.drop_first();
        lemma_sorted_tail(r1);
        lemma_sorted_tail(r2);
        assert forall|w: Seq<char>| url_listed(t1, w) <==> url_listed(t2, w) by {
            if url_listed(t1, w) {
                let a = choose|a: int| 0 <= a < t1.len() && t1[a].url == w;
                assert(r1[a + 1].url == w);
                assert(url_listed(r1, w));
                assert(url_listed(r2, w));
                let b = choose|b: int| 0 <= b < r2.len() && r2[b].url == w;
                assert(text_lt(u, w));
                if b == 0 {
                    lemma_text_lt_irreflexive(u);
                }
                assert(t2[b - 1].url == w);
            }
            if url_listed(t2, w) {
                let a = choose|a: int| 0 <= a < t2.len() && t2[a].url == w;
                assert(r2[a + 1].url == w);
                assert(url_listed(r2, w));
                assert(url_listed(r1, w));
                let b = choose|b: int| 0 <= b < r1.len() && r1[b].url == w;
                assert(text_lt(v, w));
                if b == 0 {
                    lemma_text_lt_irreflexive(v);
                }
                assert(t1[b - 1].url == w);
            }
        }
        lemma_same_urls_same_order(t1, t2);
        assert forall|i: int| 0 <= i < r1.len() implies #[trigger] r1[i].url == r2[i].url by {
            if i > 0 {
                assert(t1[i - 1].url == t2[i - 1].url);
            }
        }
    }
}

/// The endpoints kept are determined by those found: any two lists with
/// one endpoint per URL of the same found list are the same list.
pub proof fn law_one_per_url_unique(apis: Seq<ApiView>, r1: Seq<ApiView>, r2: Seq<ApiView>)
    requires
        one_per_url(apis, r1),
        one_per_url(apis, r2),
    ensures
        r1 == r2,
{
    assert forall|u: Seq<char>| url_listed(r1, u) <==> url_listed(r2, u) by {
        if url_listed(r1, u) {
            let i = choose|i: int| 0 <= i < r1.len() && r1[i].url == u;
            assert(first_of_url(apis, r1[i]));
            let k = choose|k: int| 0 <= k < apis.len() && apis[k] == r1[i] && forall|j: int| 0 <= j < k ==> apis[j].url != r1[i].url;
            assert(url_listed(r2, apis[k].url));
        }
        if url_listed(r2, u) {
            let i = choose|i: int| 0 <= i < r2.len() && r2[i].url == u;
            assert(first_of_url(apis, r2[i]));
            let k = choose|k: int| 0 <= k < apis.len() && apis[k] == r2[i] && forall|j: int| 0 <= j < k ==> apis[j].url != r2[i].url;
            assert(url_listed(r1, apis[k].url));
        }
    }
    lemma_same_urls_same_order(r1, r2);
    assert forall|i: int| 0 <= i < r1.len() implies r1[i] == r2[i] by {
        assert(r1[i].url == r2[i].url);
        assert(first_of_url(apis, r1[i]));
        assert(first_of_url(apis, r2[i]));
        let k1 = choose|k: int| 0 <= k < apis.len() && apis[k] == r1[i] && forall|j: int| 0 <= j < k ==> apis[j].url != r1[i].url;
        let k2 = choose|k: int| 0 <= k < apis.len() && apis[k] == r2[i] && forall|j: int| 0 <= j < k ==> apis[j].url != r2[i].url;
        if k1 < k2 {
            assert(apis[k1].url == r2[i].url);
        } else if k2 < k1 {
            assert(apis[k2].url == r1[i].url);
        }
    }
    assert(r1 =~= r2);
}

} // verus!
