//! API discovery in JavaScript: the AI's "render" of a single-page app.
//!
//! The regular expressions run in `regex_lite`; what they match is named
//! (`regex_captures`), and everything done with the matches is verified.
use vstd::prelude::*;
use crate::page::{ApiEndpoint, ApiView};
use crate::text::{
    chars_of, contains, contains_str, ends_with, ends_with_str, has_char, has_char_exec,
    last_index_of, rfind_char, slice_vec, starts_with, starts_with_str, str_byte_len, str_eq,
    string_of, to_uppercase, trim_end_char, trim_end_char_exec, upper_text, utf8_len, push_str,
    push_chars,
};

verus! {

/// The groups of one match: group 0 is the whole match.
pub type Groups = Seq<Option<Seq<char>>>;

/// What `regex_lite` finds: for a pattern that compiles, the groups of each
/// successive non-overlapping match of `pattern` in `text`
/// (`Regex::new(pattern)` then `captures_iter(text)`); `None` when the
/// pattern does not compile.
pub uninterp spec fn regex_captures(pattern: Seq<char>, text: Seq<char>) -> Option<Seq<Groups>>;

/// The text of one match's groups.
pub open spec fn groups_view(m: Vec<Option<String>>) -> Groups {
    m@.map_values(|g: Option<String>| match g {
        Some(s) => Some(s@),
        None => None,
    })
}

/// The text of all matches.
pub open spec fn matches_view(ms: Vec<Vec<Option<String>>>) -> Seq<Groups> {
    ms@.map_values(|m: Vec<Option<String>>| groups_view(m))
}

/// The text of a regex result.
pub open spec fn result_view(r: Option<Vec<Vec<Option<String>>>>) -> Option<Seq<Groups>> {
    match r {
        Some(ms) => Some(matches_view(ms)),
        None => None,
    }
}

/// The texts of several regex results.
pub open spec fn results_view(rs: Seq<Option<Vec<Vec<Option<String>>>>>) -> Seq<Option<Seq<Groups>>> {
    rs.map_values(|r: Option<Vec<Vec<Option<String>>>>| result_view(r))
}

/// `regex_lite::Regex::new` and `captures_iter`, each match taken as its
/// list of groups; the result is named `regex_captures`.
#[verifier::external_body]
fn find_captures(pattern: &str, text: &str) -> (r: Option<Vec<Vec<Option<String>>>>)
    ensures
        result_view(r) == regex_captures(pattern@, text@),
{
    match regex_lite::Regex::new(pattern) {
        Ok(re) => Some(
            re.captures_iter(text).map(
                |c| (0..c.len()).map(|i| c.get(i).map(|m| m.as_str().to_string())).collect(),
            ).collect(),
        ),
        Err(_) => None,
    }
}

/// Group `i` of a match, if it took part.
pub open spec fn group(m: Groups, i: int) -> Option<Seq<char>> {
    if 0 <= i < m.len() {
        m[i]
    } else {
        None
    }
}

/// Group `i` of a match, empty if it did not take part.
pub open spec fn group_text(m: Groups, i: int) -> Seq<char> {
    match group(m, i) {
        Some(g) => g,
        None => Seq::empty(),
    }
}

fn group_exec(m: &Vec<Option<String>>, i: usize) -> (r: Option<String>)
    ensures
        match r {
            Some(s) => group(groups_view(*m), i as int) == Some(s@),
            None => group(groups_view(*m), i as int) is None,
        },
{
    if i < m.len() {
        match &m[i] {
            Some(s) => Some(s.clone()),
            None => None,
        }
    } else {
        None
    }
}

// ───────────────────────── noise filters ─────────────────────────

/// Paths that look like APIs but are MIME types, bundler artefacts,
/// package names or local URLs.
pub open spec fn noise_path(p: Seq<char>) -> bool {
    starts_with(p, "text/"@) || starts_with(p, "image/"@) || starts_with(p, "video/"@)
        || starts_with(p, "audio/"@) || starts_with(p, "application/"@) || starts_with(
        p,
        "font/"@,
    ) || starts_with(p, "multipart/"@) || starts_with(p, "http"@) || starts_with(p, "node_"@)
        || starts_with(p, "@"@) || contains(p, "sentry"@) || contains(p, "webpack"@) || contains(
        p,
        "babel"@,
    ) || contains(p, "polyfill"@) || contains(p, "chunk"@) || contains(p, "source-map"@)
        || contains(p, "localhost"@)
}

/// URLs of static assets, bundler artefacts, trackers and schemas.
pub open spec fn noise_url(u: Seq<char>) -> bool {
    ends_with(u, ".js"@) || ends_with(u, ".css"@) || ends_with(u, ".png"@) || ends_with(u, ".jpg"@)
        || ends_with(u, ".svg"@) || ends_with(u, ".woff"@) || ends_with(u, ".map"@) || contains(
        u,
        "webpack"@,
    ) || contains(u, "polyfill"@) || contains(u, "sentry.io"@) || contains(u, "amplitude.com"@)
        || contains(u, "localhost"@) || contains(u, "example.com"@) || contains(u, "w3.org"@)
        || contains(u, "json-schema.org"@)
}

/// Filter out noise: paths that look like APIs but aren't.
pub fn is_noise_path(path: &str) -> (r: bool)
    ensures
        r == noise_path(path@),
{
    let p = chars_of(path);
    let p = p.as_slice();
    starts_with_str(p, "text/") || starts_with_str(p, "image/") || starts_with_str(p, "video/")
        || starts_with_str(p, "audio/") || starts_with_str(p, "application/") || starts_with_str(
        p,
        "font/",
    ) || starts_with_str(p, "multipart/") || starts_with_str(p, "http") || starts_with_str(
        p,
        "node_",
    ) || starts_with_str(p, "@") || contains_str(p, "sentry") || contains_str(p, "webpack")
        || contains_str(p, "babel") || contains_str(p, "polyfill") || contains_str(p, "chunk")
        || contains_str(p, "source-map") || contains_str(p, "localhost")
}

/// Filter out URLs of assets, bundler artefacts, trackers and schemas.
pub fn is_noise_url(url: &str) -> (r: bool)
    ensures
        r == noise_url(url@),
{
    let u = chars_of(url);
    let u = u.as_slice();
    ends_with_str(u, ".js") || ends_with_str(u, ".css") || ends_with_str(u, ".png")
        || ends_with_str(u, ".jpg") || ends_with_str(u, ".svg") || ends_with_str(u, ".woff")
        || ends_with_str(u, ".map") || contains_str(u, "webpack") || contains_str(u, "polyfill")
        || contains_str(u, "sentry.io") || contains_str(u, "amplitude.com") || contains_str(
        u,
        "localhost",
    ) || contains_str(u, "example.com") || contains_str(u, "w3.org") || contains_str(
        u,
        "json-schema.org",
    )
}

// ───────────────────────── module imports ─────────────────────────

/// The directory of a script URL: up to and including its last `/`, or the
/// whole URL without one.
pub open spec fn script_base(script_url: Seq<char>) -> Seq<char> {
    match last_index_of(script_url, '/') {
        Some(i) => script_url.take(i + 1),
        None => script_url,
    }
}

/// A relative import resolved against the script's directory.
pub open spec fn resolve_import(base: Seq<char>, relative: Seq<char>) -> Seq<char> {
    if starts_with(relative, "./"@) {
        base + relative.skip(2)
    } else {
        base + relative
    }
}

/// The resolved import of each match, in order.
pub open spec fn match_imports(ms: Seq<Groups>, base: Seq<char>) -> Seq<Seq<char>>
    decreases ms.len(),
{
    if ms.len() == 0 {
        Seq::empty()
    } else {
        let rest = match_imports(ms.drop_last(), base);
        match group(ms.last(), 1) {
            Some(rel) => rest.push(resolve_import(base, rel)),
            None => rest,
        }
    }
}

/// The resolved imports of each pattern's matches, pattern by pattern.
pub open spec fn all_imports(rs: Seq<Option<Seq<Groups>>>, base: Seq<char>) -> Seq<Seq<char>>
    decreases rs.len(),
{
    if rs.len() == 0 {
        Seq::empty()
    } else {
        let rest = all_imports(rs.drop_last(), base);
        match rs.last() {
            Some(ms) => rest + match_imports(ms, base),
            None => rest,
        }
    }
}

/// The items without repeats, each kept at its first place.
pub open spec fn unique_in_order(xs: Seq<Seq<char>>) -> Seq<Seq<char>>
    decreases xs.len(),
{
    if xs.len() == 0 {
        Seq::empty()
    } else {
        let r = unique_in_order(xs.drop_last());
        if r.contains(xs.last()) {
            r
        } else {
            r.push(xs.last())
        }
    }
}

/// The four patterns of ES module imports: `import"./x.js"`, `import './x.js'`,
/// `import("./x.js")` and `import('./x.js')`.
pub open spec fn import_patterns() -> Seq<Seq<char>> {
    seq![
        "import\\s*\"(\\./[^\"]+)\""@,
        "import\\s*'(\\./[^']+)'"@,
        "import\\(\\s*\"(\\./[^\"]+)\""@,
        "import\\(\\s*'(\\./[^']+)'"@,
    ]
}

/// The imports that a script's regex results give, resolved against the
/// script URL, first occurrence kept.
pub open spec fn imports_from(rs: Seq<Option<Seq<Groups>>>, script_url: Seq<char>) -> Seq<Seq<char>> {
    unique_in_order(all_imports(rs, script_base(script_url)))
}

/// The imports that the matches of the import patterns give, resolved
/// against `script_url`, each once in order of first occurrence.
pub fn imports_from_matches(results: &Vec<Option<Vec<Vec<Option<String>>>>>, script_url: &str) -> (r: Vec<String>)
    ensures
        r@.map_values(|s: String| s@) == imports_from(results_view(results@), script_url@),
{
    let su = chars_of(script_url);
    let base: Vec<char> = match rfind_char(su.as_slice(), '/') {
        Some(i) => slice_vec(su.as_slice(), 0, i + 1),
        None => su.clone(),
    };
    assert(base@ =~= script_base(script_url@));
    let ghost rsv = results_view(results@);
    let mut cands: Vec<Vec<char>> = Vec::new();
    let mut i: usize = 0;
    assert(rsv.take(0) =~= Seq::<Option<Seq<Groups>>>::empty());
    while i < results.len()
        invariant
            rsv == results_view(results@),
            base@ == script_base(script_url@),
            i <= results@.len(),
            crate::text::char_views(cands@) == all_imports(rsv.take(i as int), base@),
        decreases results@.len() - i,
    {
        assert(rsv.take(i + 1).drop_last() =~= rsv.take(i as int));
        match &results[i] {
            Some(ms) => {
                let ghost before = crate::text::char_views(cands@);
                let ghost msv = matches_view(*ms);
                let mut k: usize = 0;
                assert(msv.take(0) =~= Seq::<Groups>::empty());
                while k < ms.len()
                    invariant
                        msv == matches_view(*ms),
                        base@ == script_base(script_url@),
                        k <= ms@.len(),
                        crate::text::char_views(cands@) == before + match_imports(msv.take(k as int), base@),
                    decreases ms@.len() - k,
                {
                    assert(msv.take(k + 1).drop_last() =~= msv.take(k as int));
                    match group_exec(&ms[k], 1) {
                        Some(rel) => {
                            let rc = chars_of(rel.as_str());
                            let mut full = base.clone();
                            if starts_with_str(rc.as_slice(), "./") {
                                proof {
                                    reveal_strlit("./");
                                }
                                let tail = slice_vec(rc.as_slice(), 2, rc.len());
                                full.extend_from_slice(tail.as_slice());
                                assert(full@ =~= resolve_import(base@, rel@));
                            } else {
                                full.extend_from_slice(rc.as_slice());
                                assert(full@ =~= resolve_import(base@, rel@));
                            }
                            let ghost prev = cands@;
                            cands.push(full);
                            proof {
                                crate::text::lemma_char_views_push(prev, full);
                            }
                            assert(crate::text::char_views(cands@) =~= before + match_imports(msv.take(k + 1), base@));
                        },
                        None => {},
                    }
                    k = k + 1;
                }
                assert(msv.take(ms@.len() as int) =~= msv);
            },
            None => {},
        }
        i = i + 1;
    }
    assert(rsv.take(results@.len() as int) =~= rsv);
    let ghost cv = crate::text::char_views(cands@);
    let mut out: Vec<String> = Vec::new();
    let mut outc: Vec<Vec<char>> = Vec::new();
    let mut j: usize = 0;
    assert(cv.take(0) =~= Seq::<Seq<char>>::empty());
    while j < cands.len()
        invariant
            cv == crate::text::char_views(cands@),
            j <= cands@.len(),
            crate::text::char_views(outc@) == unique_in_order(cv.take(j as int)),
            out@.map_values(|s: String| s@) == crate::text::char_views(outc@),
        decreases cands@.len() - j,
    {
        assert(cv.take(j + 1).drop_last() =~= cv.take(j as int));
        let mut seen = false;
        let mut q: usize = 0;
        while q < outc.len()
            invariant
                q <= outc@.len(),
                j < cands@.len(),
                seen == exists|t: int| 0 <= t < q && outc@[t]@ == cands@[j as int]@,
            decreases outc@.len() - q,
        {
            if crate::text::chars_eq(outc[q].as_slice(), cands[j].as_slice()) {
                seen = true;
            }
            q = q + 1;
        }
        proof {
            let u = crate::text::char_views(outc@);
            if seen {
                let t = choose|t: int| 0 <= t < outc@.len() && outc@[t]@ == cands@[j as int]@;
                assert(u[t] == cv[j as int]);
            } else {
                assert forall|t: int| 0 <= t < u.len() implies u[t] != cv[j as int] by {
                    assert(u[t] == outc@[t]@);
                }
            }
        }
        if !seen {
            let item = cands[j].clone();
            let s = string_of(item.as_slice());
            let ghost prev_out = out@;
            let ghost prev_outc = outc@;
            out.push(s);
            outc.push(item);
            proof {
                crate::text::lemma_char_views_push(prev_outc, item);
                assert(out@.map_values(|s: String| s@) =~= prev_out.map_values(|s: String| s@).push(s@));
            }
        }
        j = j + 1;
    }
    assert(cv.take(cands@.len() as int) =~= cv);
    out
}

/// Extract ES module imports from JS source (`import"./main.js"`,
/// `import("./chunk.js")`), resolved against the script's URL.
pub fn extract_js_imports(js: &str, script_url: &str) -> (r: Vec<String>)
    ensures
        r@.map_values(|s: String| s@) == imports_from(
            import_patterns().map_values(|p: Seq<char>| regex_captures(p, js@)),
            script_url@,
        ),
{
    let mut results: Vec<Option<Vec<Vec<Option<String>>>>> = Vec::new();
    results.push(find_captures("import\\s*\"(\\./[^\"]+)\"", js));
    results.push(find_captures("import\\s*'(\\./[^']+)'", js));
    results.push(find_captures("import\\(\\s*\"(\\./[^\"]+)\"", js));
    results.push(find_captures("import\\(\\s*'(\\./[^']+)'", js));
    assert(results_view(results@) =~= import_patterns().map_values(
        |p: Seq<char>| regex_captures(p, js@),
    ));
    imports_from_matches(&results, script_url)
}


// ───────────────────────── endpoint scan ─────────────────────────

/// What the scan has found so far: the endpoints, and the base URLs of the
/// first pass.
pub struct ScanState {
    pub apis: Seq<ApiView>,
    pub bases: Seq<Seq<char>>,
}

/// An endpoint without context.
pub open spec fn endpoint(url: Seq<char>, method: Seq<char>, source: Seq<char>) -> ApiView {
    ApiView { url, method, context: Seq::empty(), source }
}

/// A base URL match: kept when nonempty and shorter than 200 bytes, both as
/// a base and as a `BASE` endpoint.
pub open spec fn base_step(st: ScanState, m: Groups, source: Seq<char>) -> ScanState {
    match group(m, 1) {
        Some(u) => if u.len() > 0 && utf8_len(u) < 200 {
            ScanState { apis: st.apis.push(endpoint(u, "BASE"@, source)), bases: st.bases.push(u) }
        } else {
            st
        },
        None => st,
    }
}

/// The base URL matches in order.
pub open spec fn base_matches(st: ScanState, ms: Seq<Groups>, source: Seq<char>) -> ScanState
    decreases ms.len(),
{
    if ms.len() == 0 {
        st
    } else {
        base_step(base_matches(st, ms.drop_last(), source), ms.last(), source)
    }
}

/// The first pass over the results of the base URL patterns.
pub open spec fn base_pass(st: ScanState, rs: Seq<Option<Seq<Groups>>>, source: Seq<char>) -> ScanState
    decreases rs.len(),
{
    if rs.len() == 0 {
        st
    } else {
        let prev = base_pass(st, rs.drop_last(), source);
        match rs.last() {
            Some(ms) => base_matches(prev, ms, source),
            None => prev,
        }
    }
}

/// A relative path joined to the first base URL, if there is one.
pub open spec fn with_base(bases: Seq<Seq<char>>, path: Seq<char>) -> Seq<char> {
    if bases.len() > 0 {
        trim_end_char(bases[0], '/') + "/"@ + path
    } else {
        path
    }
}

/// Some endpoint already has this URL.
pub open spec fn has_url(apis: Seq<ApiView>, u: Seq<char>) -> bool {
    exists|i: int| 0 <= i < apis.len() && apis[i].url == u
}

/// An HTTP method call `.get("path")` and so on: kept for a path of 4 to 100
/// bytes with a `/` (or ending in `-me`) that is not noise.
pub open spec fn call_step(st: ScanState, m: Groups, source: Seq<char>) -> ScanState {
    let method = match group(m, 1) {
        Some(g) => upper_text(g),
        None => Seq::empty(),
    };
    let path = group_text(m, 2);
    if utf8_len(path) < 4 || utf8_len(path) > 100 {
        st
    } else if !has_char(path, '/') && !ends_with(path, "-me"@) {
        st
    } else if noise_path(path) {
        st
    } else {
        ScanState { apis: st.apis.push(endpoint(with_base(st.bases, path), method, source)), ..st }
    }
}

/// The method call matches in order.
pub open spec fn call_matches(st: ScanState, ms: Seq<Groups>, source: Seq<char>) -> ScanState
    decreases ms.len(),
{
    if ms.len() == 0 {
        st
    } else {
        call_step(call_matches(st, ms.drop_last(), source), ms.last(), source)
    }
}

/// A path-like string literal: kept as a GET endpoint for 5 to 80 bytes, not
/// noise, without a dot, and not found before.
pub open spec fn path_step(st: ScanState, m: Groups, source: Seq<char>) -> ScanState {
    let path = group_text(m, 1);
    let full = with_base(st.bases, path);
    if utf8_len(path) < 5 || utf8_len(path) > 80 {
        st
    } else if noise_path(path) {
        st
    } else if has_char(path, '.') {
        st
    } else if has_url(st.apis, full) {
        st
    } else {
        ScanState { apis: st.apis.push(endpoint(full, "GET"@, source)), ..st }
    }
}

/// The path literal matches in order.
pub open spec fn path_matches(st: ScanState, ms: Seq<Groups>, source: Seq<char>) -> ScanState
    decreases ms.len(),
{
    if ms.len() == 0 {
        st
    } else {
        path_step(path_matches(st, ms.drop_last(), source), ms.last(), source)
    }
}

/// An absolute URL: kept with the pattern's method when at least 8 bytes,
/// not noise and not found before.
pub open spec fn abs_step(st: ScanState, m: Groups, method: Seq<char>, source: Seq<char>) -> ScanState {
    let url = group_text(m, 1);
    if url.len() == 0 || utf8_len(url) < 8 {
        st
    } else if noise_url(url) {
        st
    } else if has_url(st.apis, url) {
        st
    } else {
        ScanState { apis: st.apis.push(endpoint(url, method, source)), ..st }
    }
}

/// The absolute URL matches of one pattern in order.
pub open spec fn abs_matches(st: ScanState, ms: Seq<Groups>, method: Seq<char>, source: Seq<char>) -> ScanState
    decreases ms.len(),
{
    if ms.len() == 0 {
        st
    } else {
        abs_step(abs_matches(st, ms.drop_last(), method, source), ms.last(), method, source)
    }
}

/// The fourth pass over the results of the absolute URL patterns, each with
/// its method.
pub open spec fn abs_pass(st: ScanState, rs: Seq<(Option<Seq<Groups>>, Seq<char>)>, source: Seq<char>) -> ScanState
    decreases rs.len(),
{
    if rs.len() == 0 {
        st
    } else {
        let prev = abs_pass(st, rs.drop_last(), source);
        match rs.last().0 {
            Some(ms) => abs_matches(prev, ms, rs.last().1, source),
            None => prev,
        }
    }
}

/// The endpoints that the four passes find.
pub open spec fn scan_apis(
    base_rs: Seq<Option<Seq<Groups>>>,
    call_r: Option<Seq<Groups>>,
    path_r: Option<Seq<Groups>>,
    abs_rs: Seq<(Option<Seq<Groups>>, Seq<char>)>,
    source: Seq<char>,
) -> Seq<ApiView> {
    let s1 = base_pass(ScanState { apis: Seq::empty(), bases: Seq::empty() }, base_rs, source);
    let s2 = match call_r {
        Some(ms) => call_matches(s1, ms, source),
        None => s1,
    };
    let s3 = match path_r {
        Some(ms) => path_matches(s2, ms, source),
        None => s2,
    };
    abs_pass(s3, abs_rs, source).apis
}

/// The endpoints of a list.
pub open spec fn apis_view(v: Seq<ApiEndpoint>) -> Seq<ApiView> {
    v.map_values(|a: ApiEndpoint| a@)
}

/// The texts of a list of strings.
pub open spec fn strings_view(v: Seq<String>) -> Seq<Seq<char>> {
    v.map_values(|s: String| s@)
}

/// The texts of a list of (regex result, method) pairs.
pub open spec fn tagged_results_view(rs: Seq<(Option<Vec<Vec<Option<String>>>>, String)>) -> Seq<(Option<Seq<Groups>>, Seq<char>)> {
    rs.map_values(|r: (Option<Vec<Vec<Option<String>>>>, String)| (result_view(r.0), r.1@))
}

fn make_endpoint(url: String, method: String, source: &str) -> (a: ApiEndpoint)
    ensures
        a@ == endpoint(url@, method@, source@),
{
    ApiEndpoint { url, method, context: String::new(), source: source.to_owned() }
}

fn push_api(apis: &mut Vec<ApiEndpoint>, a: ApiEndpoint)
    ensures
        apis_view(final(apis)@) == apis_view(old(apis)@).push(a@),
{
    apis.push(a);
    assert(apis_view(apis@) =~= apis_view(old(apis)@).push(a@));
}

fn push_string(v: &mut Vec<String>, s: String)
    ensures
        strings_view(final(v)@) == strings_view(old(v)@).push(s@),
{
    v.push(s);
    assert(strings_view(v@) =~= strings_view(old(v)@).push(s@));
}

fn with_base_exec(bases: &Vec<String>, path: &String) -> (r: String)
    ensures
        r@ == with_base(strings_view(bases@), path@),
{
    if bases.len() > 0 {
        let b = chars_of(bases[0].as_str());
        let t = trim_end_char_exec(b.as_slice(), '/');
        let mut r = string_of(t.as_slice());
        push_str(&mut r, "/");
        push_str(&mut r, path.as_str());
        r
    } else {
        path.clone()
    }
}

fn has_url_exec(apis: &Vec<ApiEndpoint>, u: &String) -> (r: bool)
    ensures
        r == has_url(apis_view(apis@), u@),
{
    let mut i: usize = 0;
    while i < apis.len()
        invariant
            i <= apis@.len(),
            forall|k: int| 0 <= k < i ==> apis@[k].url@ != u@,
        decreases apis@.len() - i,
    {
        if str_eq(apis[i].url.as_str(), u.as_str()) {
            assert(apis_view(apis@)[i as int].url == u@);
            return true;
        }
        i = i + 1;
    }
    assert forall|k: int| 0 <= k < apis_view(apis@).len() implies apis_view(apis@)[k].url != u@ by {
        assert(apis_view(apis@)[k] == apis@[k]@);
    }
    false
}

fn text_of(o: Option<String>) -> (r: String)
    ensures
        r@ == match o {
            Some(s) => s@,
            None => Seq::<char>::empty(),
        },
{
    match o {
        Some(s) => s,
        None => String::new(),
    }
}

fn base_matches_exec(apis: &mut Vec<ApiEndpoint>, bases: &mut Vec<String>, ms: &Vec<Vec<Option<String>>>, source: &str)
    ensures
        ({
            let st = base_matches(
                ScanState { apis: apis_view(old(apis)@), bases: strings_view(old(bases)@) },
                matches_view(*ms),
                source@,
            );
            apis_view(final(apis)@) == st.apis && strings_view(final(bases)@) == st.bases
        }),
{
    let ghost st0 = ScanState { apis: apis_view(apis@), bases: strings_view(bases@) };
    let ghost msv = matches_view(*ms);
    let mut k: usize = 0;
    assert(msv.take(0) =~= Seq::<Groups>::empty());
    while k < ms.len()
        invariant
            msv == matches_view(*ms),
            k <= ms@.len(),
            ({
                let st = base_matches(st0, msv.take(k as int), source@);
                apis_view(apis@) == st.apis && strings_view(bases@) == st.bases
            }),
        decreases ms@.len() - k,
    {
        assert(msv.take(k + 1).drop_last() =~= msv.take(k as int));
        match group_exec(&ms[k], 1) {
            Some(u) => {
                if u.as_str().unicode_len() > 0 && str_byte_len(u.as_str()) < 200 {
                    let a = make_endpoint(u.clone(), "BASE".to_owned(), source);
                    push_api(apis, a);
                    push_string(bases, u);
                }
            },
            None => {},
        }
        k = k + 1;
    }
    assert(msv.take(ms@.len() as int) =~= msv);
}

fn call_matches_exec(apis: &mut Vec<ApiEndpoint>, bases: &Vec<String>, ms: &Vec<Vec<Option<String>>>, source: &str)
    ensures
        apis_view(final(apis)@) == call_matches(
            ScanState { apis: apis_view(old(apis)@), bases: strings_view(bases@) },
            matches_view(*ms),
            source@,
        ).apis,
        call_matches(
            ScanState { apis: apis_view(old(apis)@), bases: strings_view(bases@) },
            matches_view(*ms),
            source@,
        ).bases == strings_view(bases@),
{
    let ghost st0 = ScanState { apis: apis_view(apis@), bases: strings_view(bases@) };
    let ghost msv = matches_view(*ms);
    let mut k: usize = 0;
    assert(msv.take(0) =~= Seq::<Groups>::empty());
    while k < ms.len()
        invariant
            msv == matches_view(*ms),
            k <= ms@.len(),
            apis_view(apis@) == call_matches(st0, msv.take(k as int), source@).apis,
            call_matches(st0, msv.take(k as int), source@).bases == strings_view(bases@),
            st0.bases == strings_view(bases@),
        decreases ms@.len() - k,
    {
        assert(msv.take(k + 1).drop_last() =~= msv.take(k as int));
        let method = match group_exec(&ms[k], 1) {
            Some(g) => to_uppercase(g.as_str()),
            None => String::new(),
        };
        let path = text_of(group_exec(&ms[k], 2));
        let pc = chars_of(path.as_str());
        let n = str_byte_len(path.as_str());
        if n < 4 || n > 100 {
        } else if !has_char_exec(pc.as_slice(), '/') && !ends_with_str(pc.as_slice(), "-me") {
        } else if is_noise_path(path.as_str()) {
        } else {
            let full = with_base_exec(bases, &path);
            let a = make_endpoint(full, method, source);
            push_api(apis, a);
        }
        k = k + 1;
    }
    assert(msv.take(ms@.len() as int) =~= msv);
}

fn path_matches_exec(apis: &mut Vec<ApiEndpoint>, bases: &Vec<String>, ms: &Vec<Vec<Option<String>>>, source: &str)
    ensures
        apis_view(final(apis)@) == path_matches(
            ScanState { apis: apis_view(old(apis)@), bases: strings_view(bases@) },
            matches_view(*ms),
            source@,
        ).apis,
        path_matches(
            ScanState { apis: apis_view(old(apis)@), bases: strings_view(bases@) },
            matches_view(*ms),
            source@,
        ).bases == strings_view(bases@),
{
    let ghost st0 = ScanState { apis: apis_view(apis@), bases: strings_view(bases@) };
    let ghost msv = matches_view(*ms);
    let mut k: usize = 0;
    assert(msv.take(0) =~= Seq::<Groups>::empty());
    while k < ms.len()
        invariant
            msv == matches_view(*ms),
            k <= ms@.len(),
            apis_view(apis@) == path_matches(st0, msv.take(k as int), source@).apis,
            path_matches(st0, msv.take(k as int), source@).bases == strings_view(bases@),
            st0.bases == strings_view(bases@),
        decreases ms@.len() - k,
    {
        assert(msv.take(k + 1).drop_last() =~= msv.take(k as int));
        let path = text_of(group_exec(&ms[k], 1));
        let pc = chars_of(path.as_str());
        let n = str_byte_len(path.as_str());
        if n < 5 || n > 80 {
        } else if is_noise_path(path.as_str()) {
        } else if has_char_exec(pc.as_slice(), '.') {
        } else {
            let full = with_base_exec(bases, &path);
            if !has_url_exec(apis, &full) {
                let a = make_endpoint(full, "GET".to_owned(), source);
                push_api(apis, a);
            }
        }
        k = k + 1;
    }
    assert(msv.take(ms@.len() as int) =~= msv);
}

fn abs_matches_exec(apis: &mut Vec<ApiEndpoint>, bases: &Vec<String>, ms: &Vec<Vec<Option<String>>>, method: &String, source: &str)
    ensures
        apis_view(final(apis)@) == abs_matches(
            ScanState { apis: apis_view(old(apis)@), bases: strings_view(bases@) },
            matches_view(*ms),
            method@,
            source@,
        ).apis,
        abs_matches(
            ScanState { apis: apis_view(old(apis)@), bases: strings_view(bases@) },
            matches_view(*ms),
            method@,
            source@,
        ).bases == strings_view(bases@),
{
    let ghost st0 = ScanState { apis: apis_view(apis@), bases: strings_view(bases@) };
    let ghost msv = matches_view(*ms);
    let mut k: usize = 0;
    assert(msv.take(0) =~= Seq::<Groups>::empty());
    while k < ms.len()
        invariant
            msv == matches_view(*ms),
            k <= ms@.len(),
            apis_view(apis@) == abs_matches(st0, msv.take(k as int), method@, source@).apis,
            abs_matches(st0, msv.take(k as int), method@, source@).bases == strings_view(bases@),
            st0.bases == strings_view(bases@),
        decreases ms@.len() - k,
    {
        assert(msv.take(k + 1).drop_last() =~= msv.take(k as int));
        let url = text_of(group_exec(&ms[k], 1));
        let n = str_byte_len(url.as_str());
        if url.as_str().unicode_len() == 0 || n < 8 {
        } else if is_noise_url(url.as_str()) {
        } else if has_url_exec(apis, &url) {
        } else {
            let a = make_endpoint(url, method.clone(), source);
            push_api(apis, a);
        }
        k = k + 1;
    }
    assert(msv.take(ms@.len() as int) =~= msv);
}

/// The endpoints that the matches of the four passes give: base URLs,
/// HTTP method calls with relative paths, path-like literals, and absolute
/// URLs with each pattern's method.
pub fn apis_from_matches(
    base_results: &Vec<Option<Vec<Vec<Option<String>>>>>,
    call_result: &Option<Vec<Vec<Option<String>>>>,
    path_result: &Option<Vec<Vec<Option<String>>>>,
    abs_results: &Vec<(Option<Vec<Vec<Option<String>>>>, String)>,
    source: &str,
) -> (r: Vec<ApiEndpoint>)
    ensures
        apis_view(r@) == scan_apis(
            results_view(base_results@),
            result_view(*call_result),
            result_view(*path_result),
            tagged_results_view(abs_results@),
            source@,
        ),
{
    let mut apis: Vec<ApiEndpoint> = Vec::new();
    let mut bases: Vec<String> = Vec::new();
    let ghost empty = ScanState { apis: Seq::empty(), bases: Seq::empty() };
    assert(apis_view(apis@) =~= Seq::<ApiView>::empty());
    assert(strings_view(bases@) =~= Seq::<Seq<char>>::empty());
    // Pass 1: base URLs
    let ghost brs = results_view(base_results@);
    let mut i: usize = 0;
    assert(brs.take(0) =~= Seq::<Option<Seq<Groups>>>::empty());
    while i < base_results.len()
        invariant
            brs == results_view(base_results@),
            i <= base_results@.len(),
            empty == (ScanState { apis: Seq::empty(), bases: Seq::empty() }),
            ({
                let st = base_pass(empty, brs.take(i as int), source@);
                apis_view(apis@) == st.apis && strings_view(bases@) == st.bases
            }),
        decreases base_results@.len() - i,
    {
        assert(brs.take(i + 1).drop_last() =~= brs.take(i as int));
        match &base_results[i] {
            Some(ms) => base_matches_exec(&mut apis, &mut bases, ms, source),
            None => {},
        }
        i = i + 1;
    }
    assert(brs.take(base_results@.len() as int) =~= brs);
    let ghost s1 = ScanState { apis: apis_view(apis@), bases: strings_view(bases@) };
    // Pass 2: HTTP method calls
    match call_result {
        Some(ms) => call_matches_exec(&mut apis, &bases, ms, source),
        None => {},
    }
    // Pass 3: path-like literals
    match path_result {
        Some(ms) => path_matches_exec(&mut apis, &bases, ms, source),
        None => {},
    }
    let ghost s3 = ScanState { apis: apis_view(apis@), bases: strings_view(bases@) };
    // Pass 4: absolute URLs
    let ghost ars = tagged_results_view(abs_results@);
    let mut j: usize = 0;
    assert(ars.take(0) =~= Seq::<(Option<Seq<Groups>>, Seq<char>)>::empty());
    while j < abs_results.len()
        invariant
            ars == tagged_results_view(abs_results@),
            j <= abs_results@.len(),
            s3.bases == strings_view(bases@),
            apis_view(apis@) == abs_pass(s3, ars.take(j as int), source@).apis,
            abs_pass(s3, ars.take(j as int), source@).bases == strings_view(bases@),
        decreases abs_results@.len() - j,
    {
        assert(ars.take(j + 1).drop_last() =~= ars.take(j as int));
        match &abs_results[j].0 {
            Some(ms) => abs_matches_exec(&mut apis, &bases, ms, &abs_results[j].1, source),
            None => {},
        }
        j = j + 1;
    }
    assert(ars.take(abs_results@.len() as int) =~= ars);
    apis
}

/// The five patterns that find base URLs.
pub open spec fn base_patterns() -> Seq<Seq<char>> {
    seq![
        r#"API_URL\s*[:=]\s*"([^"]+)""#@,
        r#"api_?[Uu]rl\s*[:=]\s*"([^"]+)""#@,
        r#"base_?[Uu][Rr][Ll]\s*[:=]\s*"([^"]+)""#@,
        r#"BASE_URL\s*[:=]\s*"([^"]+)""#@,
        r#"apiBase\s*[:=]\s*"([^"]+)""#@,
    ]
}

/// The pattern of HTTP method calls with a relative path.
pub open spec fn call_pattern() -> Seq<char> {
    r#"\.(get|post|put|delete|patch)\(\s*"([a-z][a-z0-9/_-]+[a-z0-9])""#@
}

/// The pattern of path-like string literals.
pub open spec fn path_pattern() -> Seq<char> {
    r#""([a-z][a-z-]+/[a-z][a-z0-9/_-]+)""#@
}

/// The patterns of absolute URLs with the method each implies.
pub open spec fn abs_patterns() -> Seq<(Seq<char>, Seq<char>)> {
    seq![
        (r#"fetch\s*\(\s*"(https?://[^"]+)""#@, "GET"@),
        (r#""(https?://api[^"]+)""#@, "GET"@),
        (r#""(/api/v?\d*/[a-zA-Z][a-zA-Z0-9/_-]+)""#@, "GET"@),
        (r#""(/v[1-9]/[a-zA-Z][a-zA-Z0-9/_-]+)""#@, "GET"@),
        (r#""(/graphql[^"]*)""#@, "POST"@),
        (r#""(wss?://[^"]+)""#@, "WS"@),
    ]
}

/// The endpoints that scanning `js` finds, each tagged with `source`: the
/// scan over what each pattern of the scan matches in `js`.
pub open spec fn scanned_apis(js: Seq<char>, source: Seq<char>) -> Seq<ApiView> {
    scan_apis(
        base_patterns().map_values(|p: Seq<char>| regex_captures(p, js)),
        regex_captures(call_pattern(), js),
        regex_captures(path_pattern(), js),
        abs_patterns().map_values(|p: (Seq<char>, Seq<char>)| (regex_captures(p.0, js), p.1)),
        source,
    )
}

/// Scan JS source code for API endpoint patterns: base URLs, relative paths
/// used with HTTP methods, path-like literals, and absolute URLs.
pub fn scan_js_for_apis(js: &str, source: &str) -> (r: Vec<ApiEndpoint>)
    ensures
        apis_view(r@) == scanned_apis(js@, source@),
{
    let mut base_results: Vec<Option<Vec<Vec<Option<String>>>>> = Vec::new();
    base_results.push(find_captures(r#"API_URL\s*[:=]\s*"([^"]+)""#, js));
    base_results.push(find_captures(r#"api_?[Uu]rl\s*[:=]\s*"([^"]+)""#, js));
    base_results.push(find_captures(r#"base_?[Uu][Rr][Ll]\s*[:=]\s*"([^"]+)""#, js));
    base_results.push(find_captures(r#"BASE_URL\s*[:=]\s*"([^"]+)""#, js));
    base_results.push(find_captures(r#"apiBase\s*[:=]\s*"([^"]+)""#, js));
    assert(results_view(base_results@) =~= base_patterns().map_values(
        |p: Seq<char>| regex_captures(p, js@),
    ));
    let call_result = find_captures(r#"\.(get|post|put|delete|patch)\(\s*"([a-z][a-z0-9/_-]+[a-z0-9])""#, js);
    let path_result = find_captures(r#""([a-z][a-z-]+/[a-z][a-z0-9/_-]+)""#, js);
    let mut abs_results: Vec<(Option<Vec<Vec<Option<String>>>>, String)> = Vec::new();
    abs_results.push((find_captures(r#"fetch\s*\(\s*"(https?://[^"]+)""#, js), "GET".to_owned()));
    abs_results.push((find_captures(r#""(https?://api[^"]+)""#, js), "GET".to_owned()));
    abs_results.push((find_captures(r#""(/api/v?\d*/[a-zA-Z][a-zA-Z0-9/_-]+)""#, js), "GET".to_owned()));
    abs_results.push((find_captures(r#""(/v[1-9]/[a-zA-Z][a-zA-Z0-9/_-]+)""#, js), "GET".to_owned()));
    abs_results.push((find_captures(r#""(/graphql[^"]*)""#, js), "POST".to_owned()));
    abs_results.push((find_captures(r#""(wss?://[^"]+)""#, js), "WS".to_owned()));
    assert(tagged_results_view(abs_results@) =~= abs_patterns().map_values(
        |p: (Seq<char>, Seq<char>)| (regex_captures(p.0, js@), p.1),
    ));
    apis_from_matches(&base_results, &call_result, &path_result, &abs_results, source)
}
} // verus!
