//! Request interception: rules that answer requests whose URL matches a
//! pattern with a canned response, and the DevTools messages that fulfil
//! or continue a paused request.
//!
//! A pattern with `*` is a glob: the pieces between the stars must occur in
//! the URL in order. A pattern without `*` matches any URL containing it.
use vstd::prelude::*;
use base64::Engine;
use crate::text::{lemma_split_nonempty, occurs_at, contains, has_char, split, chars_of, split_exec, has_char_exec, contains_exec,
    push_str, push_decimal, decimal};
use crate::json::{json_string_literal, json_quote};
use crate::cdp::fetch::{RequestPattern, HeaderEntry};

verus! {

/// A rule that answers requests whose URL matches `url_pattern`.
#[derive(Debug, Clone)]
pub struct InterceptRule {
    pub url_pattern: String,
    pub response_body: String,
    pub status_code: u16,
    pub content_type: String,
}

// ───────────────────────── matching ─────────────────────────

/// The non-empty pieces occur in `url` in order, the first at or after
/// `from` and each after the end of the one before.
pub open spec fn in_order(parts: Seq<Seq<char>>, url: Seq<char>, from: int) -> bool
    decreases parts.len(),
{
    if parts.len() == 0 {
        true
    } else if parts[0].len() == 0 {
        in_order(parts.drop_first(), url, from)
    } else {
        exists|i: int| from <= i && occurs_at(url, parts[0], i) && in_order(parts.drop_first(), url, i + parts[0].len())
    }
}

/// A URL matches a pattern: with `*`, its pieces occur in order; without,
/// the pattern occurs in the URL.
pub open spec fn url_matches(pattern: Seq<char>, url: Seq<char>) -> bool {
    if has_char(pattern, '*') {
        in_order(split(pattern, '*'), url, 0)
    } else {
        contains(url, pattern)
    }
}

/// Pieces that occur in order from some point occur in order from any
/// earlier point.
pub proof fn lemma_in_order_earlier(parts: Seq<Seq<char>>, url: Seq<char>, from: int, earlier: int)
    requires
        in_order(parts, url, from),
        earlier <= from,
    ensures
        in_order(parts, url, earlier),
    decreases parts.len(),
{
    if parts.len() > 0 {
        if parts[0].len() == 0 {
            lemma_in_order_earlier(parts.drop_first(), url, from, earlier);
        } else {
            let i = choose|i: int| from <= i && occurs_at(url, parts[0], i) && in_order(parts.drop_first(), url, i + parts[0].len());
            assert(earlier <= i && occurs_at(url, parts[0], i) && in_order(parts.drop_first(), url, i + parts[0].len()));
        }
    }
}

/// The first occurrence of `p` in `s` at or after `from`.
fn find_from(s: &[char], p: &[char], from: usize) -> (r: Option<usize>)
    requires
        p@.len() > 0,
    ensures
        r matches Some(j) ==> from <= j && occurs_at(s@, p@, j as int)
            && forall|k: int| from <= k < j ==> !occurs_at(s@, p@, k),
        r is None ==> forall|k: int| from <= k ==> !occurs_at(s@, p@, k),
{
    if p.len() > s.len() || from > s.len() - p.len() {
        return None;
    }
    let mut k: usize = from;
    while k <= s.len() - p.len()
        invariant
            p@.len() > 0,
            p@.len() <= s@.len(),
            from <= k,
            k <= s@.len() - p@.len() + 1,
            forall|t: int| from <= t < k ==> !occurs_at(s@, p@, t),
        decreases s@.len() - p@.len() + 1 - k,
    {
        if crate::text::occurs_at_exec(s, p, k) {
            return Some(k);
        }
        k = k + 1;
    }
    None
}

/// Whether a URL matches a rule's pattern.
pub fn url_matches_pattern(pattern: &str, url: &str) -> (r: bool)
    ensures
        r == url_matches(pattern@, url@),
{
    let pc = chars_of(pattern);
    let uc = chars_of(url);
    if !has_char_exec(pc.as_slice(), '*') {
        return contains_exec(uc.as_slice(), pc.as_slice());
    }
    let parts = split_exec(pc.as_slice(), '*');
    let ghost ps = split(pattern@, '*');
    assert(parts@.len() == ps.len());
    let ulen = uc.len();
    let mut pos: usize = 0;
    let mut k: usize = 0;
    assert(ps.skip(0) =~= ps);
    while k < parts.len()
        invariant
            parts@.len() == ps.len(),
            forall|t: int| 0 <= t < parts@.len() ==> #[trigger] parts@[t]@ == ps[t],
            uc@ == url@,
            ulen == uc@.len(),
            has_char(pattern@, '*'),
            ps == split(pattern@, '*'),
            k <= parts@.len(),
            pos <= uc@.len(),
            in_order(ps, url@, 0) == in_order(ps.skip(k as int), url@, pos as int),
        decreases parts@.len() - k,
    {
        let ghost rest = ps.skip(k as int);
        assert(rest[0] == ps[k as int]);
        assert(rest.drop_first() =~= ps.skip(k + 1));
        let part = &parts[k];
        assert(part@ == parts@[k as int]@);
        assert(part@ == rest[0]);
        if part.len() > 0 {
            match find_from(uc.as_slice(), part.as_slice(), pos) {
                Some(j) => {
                    proof {
                        let len = rest[0].len() as int;
                        if in_order(rest, url@, pos as int) {
                            let i = choose|i: int| pos <= i && occurs_at(url@, rest[0], i)
                                && in_order(rest.drop_first(), url@, i + len);
                            assert(j <= i);
                            lemma_in_order_earlier(rest.drop_first(), url@, i + len, j + len);
                        }
                        if in_order(rest.drop_first(), url@, j + len) {
                            assert(occurs_at(url@, rest[0], j as int));
                        }
                    }
                    pos = j + part.len();
                },
                None => {
                    proof {
                        if in_order(rest, url@, pos as int) {
                            let i = choose|i: int| pos <= i && occurs_at(url@, rest[0], i)
                                && in_order(rest.drop_first(), url@, i + rest[0].len());
                            assert(!occurs_at(url@, rest[0], i));
                        }
                    }
                    return false;
                },
            }
        }
        k = k + 1;
    }
    assert(ps.skip(k as int).len() == 0);
    true
}

/// The first rule whose pattern matches the URL.
pub fn find_rule(rules: &Vec<InterceptRule>, url: &str) -> (r: Option<usize>)
    ensures
        r matches Some(i) ==> i < rules@.len() && url_matches(rules@[i as int].url_pattern@, url@)
            && forall|k: int| 0 <= k < i ==> !url_matches(#[trigger] rules@[k].url_pattern@, url@),
        r is None ==> forall|k: int| 0 <= k < rules@.len() ==> !url_matches(#[trigger] rules@[k].url_pattern@, url@),
{
    let mut i: usize = 0;
    while i < rules.len()
        invariant
            i <= rules@.len(),
            forall|k: int| 0 <= k < i ==> !url_matches(#[trigger] rules@[k].url_pattern@, url@),
        decreases rules@.len() - i,
    {
        if url_matches_pattern(rules[i].url_pattern.as_str(), url) {
            return Some(i);
        }
        i = i + 1;
    }
    None
}

/// A rule answering with `response_body`, with status 200 and content type
/// `application/json` unless given.
pub fn new_rule(url_pattern: &str, response_body: &str, status_code: Option<u16>, content_type: Option<&str>) -> (r: InterceptRule)
    ensures
        r.url_pattern@ == url_pattern@,
        r.response_body@ == response_body@,
        r.status_code == match status_code { Some(s) => s, None => 200u16 },
        r.content_type@ == match content_type { Some(c) => c@, None => "application/json"@ },
{
    InterceptRule {
        url_pattern: url_pattern.to_owned(),
        response_body: response_body.to_owned(),
        status_code: match status_code {
            Some(s) => s,
            None => 200,
        },
        content_type: match content_type {
            Some(c) => c.to_owned(),
            None => "application/json".to_owned(),
        },
    }
}

/// The pattern that `Fetch.enable` gets for a rule's URL pattern.
pub fn request_pattern(url_pattern: &str) -> (r: RequestPattern)
    ensures
        r.url_pattern matches Some(p) && p@ == url_pattern@,
        r.resource_type is None,
        r.request_stage is None,
{
    RequestPattern { url_pattern: Some(url_pattern.to_owned()), resource_type: None, request_stage: None }
}

// ───────────────────────── messages ─────────────────────────

/// A digit of standard Base64: `A`–`Z`, `a`–`z`, `0`–`9`, `+`, `/`.
pub open spec fn b64_digit(n: int) -> char {
    if n < 26 {
        (('A' as int) + n) as char
    } else if n < 52 {
        (('a' as int) + n - 26) as char
    } else if n < 62 {
        (('0' as int) + n - 52) as char
    } else if n == 62 {
        '+'
    } else {
        '/'
    }
}

/// Standard Base64 with padding: each three bytes become four digits of six
/// bits each; a last group of one or two bytes is padded with `=`.
pub open spec fn base64_bytes(b: Seq<u8>) -> Seq<char>
    decreases b.len(),
{
    let x0 = if b.len() > 0 { b[0] as int } else { 0 };
    let x1 = if b.len() > 1 { b[1] as int } else { 0 };
    let x2 = if b.len() > 2 { b[2] as int } else { 0 };
    if b.len() == 0 {
        Seq::empty()
    } else if b.len() == 1 {
        seq![b64_digit(x0 / 4), b64_digit((x0 % 4) * 16), '=', '=']
    } else if b.len() == 2 {
        seq![b64_digit(x0 / 4), b64_digit((x0 % 4) * 16 + x1 / 16), b64_digit((x1 % 16) * 4), '=']
    } else {
        seq![b64_digit(x0 / 4), b64_digit((x0 % 4) * 16 + x1 / 16), b64_digit((x1 % 16) * 4 + x2 / 64),
            b64_digit(x2 % 64)] + base64_bytes(b.skip(3))
    }
}

/// The standard Base64 encoding, with padding, of the UTF-8 bytes of a
/// text, as `base64::engine::general_purpose::STANDARD.encode` writes it.
pub open spec fn base64_of_text(s: Seq<char>) -> Seq<char> {
    base64_bytes(vstd::utf8::encode_utf8(s))
}

/// `base64::engine::general_purpose::STANDARD.encode` of the UTF-8 bytes of
/// `s`: the standard alphabet, with `=` padding, exactly as
/// `base64_of_text` spells it out. The crate computes the output length
/// with a checked multiplication, which cannot overflow for a string, as a
/// string holds at most `isize::MAX` bytes.
#[verifier::external_body]
pub(crate) fn base64_encode(s: &str) -> (r: String)
    ensures
        r@ == base64_of_text(s@),
{
    base64::engine::general_purpose::STANDARD.encode(s)
}

/// The response headers of a fulfilled request: the rule's content type,
/// and any origin allowed.
pub fn fulfil_headers(rule: &InterceptRule) -> (r: Vec<HeaderEntry>)
    ensures
        r@.len() == 2,
        r@[0].name@ == "Content-Type"@ && r@[0].value@ == rule.content_type@,
        r@[1].name@ == "Access-Control-Allow-Origin"@ && r@[1].value@ == "*"@,
{
    let mut r: Vec<HeaderEntry> = Vec::new();
    r.push(HeaderEntry { name: "Content-Type".to_owned(), value: rule.content_type.clone() });
    r.push(HeaderEntry { name: "Access-Control-Allow-Origin".to_owned(), value: "*".to_owned() });
    r
}

/// The `Fetch.fulfillRequest` message that answers a paused request with a
/// rule's response (its body Base64-encoded), as compact JSON with the
/// members in name order.
pub open spec fn fulfil_message_text(id: u64, session_id: Seq<char>, request_id: Seq<char>, rule: InterceptRule) -> Seq<char> {
    "{\"id\":"@ + decimal(id as nat) + ",\"method\":\"Fetch.fulfillRequest\",\"params\":{\"body\":"@
        + json_string_literal(base64_of_text(rule.response_body@)) + ",\"requestId\":"@
        + json_string_literal(request_id) + ",\"responseCode\":"@ + decimal(rule.status_code as nat)
        + ",\"responseHeaders\":[{\"name\":\"Content-Type\",\"value\":"@ + json_string_literal(rule.content_type@)
        + "},{\"name\":\"Access-Control-Allow-Origin\",\"value\":\"*\"}]},\"sessionId\":"@
        + json_string_literal(session_id) + "}"@
}

/// The `Fetch.continueRequest` message that lets a paused request through
/// unchanged.
pub open spec fn continue_message_text(id: u64, session_id: Seq<char>, request_id: Seq<char>) -> Seq<char> {
    "{\"id\":"@ + decimal(id as nat) + ",\"method\":\"Fetch.continueRequest\",\"params\":{\"requestId\":"@
        + json_string_literal(request_id) + "},\"sessionId\":"@ + json_string_literal(session_id) + "}"@
}

/// The message answering a paused request: fulfilled by the first rule
/// whose pattern matches its URL, else continued.
pub open spec fn paused_reply_text(
    id: u64,
    session_id: Seq<char>,
    request_id: Seq<char>,
    request_url: Seq<char>,
    rules: Seq<InterceptRule>,
) -> Seq<char> {
    if exists|k: int| 0 <= k < rules.len() && url_matches(rules[k].url_pattern@, request_url) {
        let k = choose|k: int| 0 <= k < rules.len() && url_matches(rules[k].url_pattern@, request_url)
            && forall|j: int| 0 <= j < k ==> !url_matches(#[trigger] rules[j].url_pattern@, request_url);
        fulfil_message_text(id, session_id, request_id, rules[k])
    } else {
        continue_message_text(id, session_id, request_id)
    }
}

/// The `Fetch.fulfillRequest` message for a rule.
pub fn fulfil_message(id: u64, session_id: &str, request_id: &str, rule: &InterceptRule) -> (m: String)
    ensures
        m@ == fulfil_message_text(id, session_id@, request_id@, *rule),
{
    let mut m = String::new();
    push_str(&mut m, "{\"id\":");
    push_decimal(&mut m, id);
    push_str(&mut m, ",\"method\":\"Fetch.fulfillRequest\",\"params\":{\"body\":");
    let b64 = base64_encode(rule.response_body.as_str());
    push_str(&mut m, json_quote(b64.as_str()).as_str());
    push_str(&mut m, ",\"requestId\":");
    push_str(&mut m, json_quote(request_id).as_str());
    push_str(&mut m, ",\"responseCode\":");
    push_decimal(&mut m, rule.status_code as u64);
    push_str(&mut m, ",\"responseHeaders\":[{\"name\":\"Content-Type\",\"value\":");
    push_str(&mut m, json_quote(rule.content_type.as_str()).as_str());
    push_str(&mut m, "},{\"name\":\"Access-Control-Allow-Origin\",\"value\":\"*\"}]},\"sessionId\":");
    push_str(&mut m, json_quote(session_id).as_str());
    push_str(&mut m, "}");
    assert(m@ =~= fulfil_message_text(id, session_id@, request_id@, *rule));
    m
}

/// The `Fetch.continueRequest` message.
pub fn continue_message(id: u64, session_id: &str, request_id: &str) -> (m: String)
    ensures
        m@ == continue_message_text(id, session_id@, request_id@),
{
    let mut m = String::new();
    push_str(&mut m, "{\"id\":");
    push_decimal(&mut m, id);
    push_str(&mut m, ",\"method\":\"Fetch.continueRequest\",\"params\":{\"requestId\":");
    push_str(&mut m, json_quote(request_id).as_str());
    push_str(&mut m, "},\"sessionId\":");
    push_str(&mut m, json_quote(session_id).as_str());
    push_str(&mut m, "}");
    assert(m@ =~= continue_message_text(id, session_id@, request_id@));
    m
}

/// The message that answers a paused request for `request_url`: the first
/// matching rule's response, or the request let through.
pub fn paused_reply(id: u64, session_id: &str, request_id: &str, request_url: &str, rules: &Vec<InterceptRule>) -> (m: String)
    ensures
        m@ == paused_reply_text(id, session_id@, request_id@, request_url@, rules@),
{
    match find_rule(rules, request_url) {
        Some(i) => {
            proof {
                let k = choose|k: int| 0 <= k < rules@.len() && url_matches(rules@[k].url_pattern@, request_url@)
                    && forall|j: int| 0 <= j < k ==> !url_matches(#[trigger] rules@[j].url_pattern@, request_url@);
                assert(url_matches(rules@[i as int].url_pattern@, request_url@));
                if k < i {
                    assert(!url_matches(rules@[k].url_pattern@, request_url@));
                } else if k > i {
                    assert(!url_matches(rules@[i as int].url_pattern@, request_url@));
                }
                assert(k == i);
            }
            fulfil_message(id, session_id, request_id, &rules[i])
        },
        None => continue_message(id, session_id, request_id),
    }
}

// ───────────────────────── laws ─────────────────────────

proof fn lemma_split_append_plain(p: Seq<char>, q: Seq<char>, sep: char)
    requires
        !has_char(q, sep),
    ensures
        split(p + q, sep) == split(p, sep).update(split(p, sep).len() - 1, split(p, sep).last() + q),
    decreases q.len(),
{
    let sp = split(p, sep);
    lemma_split_nonempty(p, sep);
    if q.len() == 0 {
        assert(p + q =~= p);
        assert(sp.last() + q =~= sp.last());
        assert(sp.update(sp.len() - 1, sp.last() + q) =~= sp);
    } else {
        let qd = q.drop_last();
        assert(!has_char(qd, sep)) by {
            if has_char(qd, sep) {
                let i = choose|i: int| 0 <= i < qd.len() && qd[i] == sep;
                assert(q[i] == sep);
            }
        }
        lemma_split_append_plain(p, qd, sep);
        assert((p + q).drop_last() =~= p + qd);
        assert((p + q).last() == q.last());
        assert(q.last() != sep) by {
            assert(q[q.len() - 1] == q.last());
        }
        let r = split(p + qd, sep);
        assert(r.last() == sp.last() + qd);
        assert(r.last().push(q.last()) =~= sp.last() + q);
        assert(r.update(r.len() - 1, r.last().push(q.last())) =~= sp.update(sp.len() - 1, sp.last() + q));
    }
}

proof fn lemma_split_of_star()
    ensures
        split("*"@, '*') =~= seq![Seq::<char>::empty(), Seq::<char>::empty()],
{
    reveal_strlit("*");
    let e = Seq::<char>::empty();
    let star = "*"@;
    assert(split(e, '*') =~= seq![e]);
    assert(star.drop_last() =~= e);
    assert(star.last() == '*');
}

/// `*` alone matches every URL.
pub proof fn law_star_matches_every_url(url: Seq<char>)
    ensures
        url_matches("*"@, url),
{
    let star = "*"@;
    assert(star.len() == 1 && star[0] == '*') by {
        reveal_strlit("*");
    }
    assert(has_char(star, '*'));
    lemma_split_of_star();
    let ps = split(star, '*');
    let rest = ps.drop_first();
    assert(rest[0].len() == 0);
    assert(rest.drop_first().len() == 0);
    assert(in_order(rest.drop_first(), url, 0));
    assert(in_order(rest, url, 0));
}

/// A pattern `*text*`, where the text holds no star, matches exactly the
/// URLs that contain the text.
pub proof fn law_starred_text_matches_containing_urls(text: Seq<char>, url: Seq<char>)
    requires
        !has_char(text, '*'),
    ensures
        url_matches(seq!['*'] + text + seq!['*'], url) == contains(url, text),
{
    let star = seq!['*'];
    let pat = star + text + star;
    assert(has_char(pat, '*')) by {
        assert(pat[0] == '*');
    }
    // the pieces of the pattern are the empty text, the text, the empty text
    assert(star =~= "*"@) by {
        reveal_strlit("*");
    }
    lemma_split_of_star();
    lemma_split_append_plain(star, text, '*');
    let front = split(star + text, '*');
    assert(front =~= seq![Seq::<char>::empty(), text]);
    assert(pat.drop_last() =~= star + text);
    assert(pat.last() == '*');
    let ps = split(pat, '*');
    assert(ps =~= seq![Seq::<char>::empty(), text, Seq::<char>::empty()]);
    let rest = ps.drop_first();
    let tail = rest.drop_first();
    assert(tail =~= seq![Seq::<char>::empty()]);
    assert(tail.drop_first().len() == 0);
    assert forall|from: int| in_order(tail, url, from) by {
        assert(tail[0].len() == 0);
        assert(in_order(tail.drop_first(), url, from));
    }
    assert(in_order(ps, url, 0) == in_order(rest, url, 0));
    if text.len() == 0 {
        assert(occurs_at(url, text, 0)) by {
            assert(url.subrange(0, 0) =~= text);
        }
        assert(rest[0].len() == 0);
        assert(rest.drop_first() =~= tail);
        assert(in_order(tail, url, 0));
        assert(in_order(rest, url, 0));
    } else {
        assert(rest.drop_first() =~= tail);
        if contains(url, text) {
            let i = choose|i: int| occurs_at(url, text, i);
            assert(in_order(tail, url, i + text.len()));
            assert(0 <= i && occurs_at(url, rest[0], i) && in_order(rest.drop_first(), url, i + rest[0].len()));
        }
        if in_order(rest, url, 0) {
            let i = choose|i: int| 0 <= i && occurs_at(url, rest[0], i) && in_order(rest.drop_first(), url, i + rest[0].len());
            assert(occurs_at(url, text, i));
        }
    }
}

/// A request that some rule matches is fulfilled by the first rule that
/// matches it, whatever the rules after it say.
pub proof fn law_first_matching_rule_answers(
    id: u64,
    session_id: Seq<char>,
    request_id: Seq<char>,
    request_url: Seq<char>,
    rules: Seq<InterceptRule>,
    k: int,
)
    requires
        0 <= k < rules.len(),
        url_matches(rules[k].url_pattern@, request_url),
        forall|j: int| 0 <= j < k ==> !url_matches(#[trigger] rules[j].url_pattern@, request_url),
    ensures
        paused_reply_text(id, session_id, request_id, request_url, rules)
            == fulfil_message_text(id, session_id, request_id, rules[k]),
{
    let c = choose|c: int| 0 <= c < rules.len() && url_matches(rules[c].url_pattern@, request_url)
        && forall|j: int| 0 <= j < c ==> !url_matches(#[trigger] rules[j].url_pattern@, request_url);
    if c < k {
        assert(!url_matches(rules[c].url_pattern@, request_url));
    } else if c > k {
        assert(!url_matches(rules[k].url_pattern@, request_url));
    }
}

/// A request that no rule matches is let through unchanged.
pub proof fn law_unmatched_request_continues(
    id: u64,
    session_id: Seq<char>,
    request_id: Seq<char>,
    request_url: Seq<char>,
    rules: Seq<InterceptRule>,
)
    requires
        forall|j: int| 0 <= j < rules.len() ==> !url_matches(#[trigger] rules[j].url_pattern@, request_url),
    ensures
        paused_reply_text(id, session_id, request_id, request_url, rules)
            == continue_message_text(id, session_id, request_id),
{
}

} // verus!
