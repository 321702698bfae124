//! Reading and writing JSON text through `serde_json`.
//!
//! A parsed document is copied into a value of the library, which the
//! logic reads (a member's string, flag or number).
use vstd::prelude::*;
use crate::text::{parse_u64, parse_i64};

verus! {

/// A parsed JSON value of `serde_json`, carried opaquely.
#[verifier::external_type_specification]
#[verifier::external_body]
pub struct ExJsonValue(serde_json::Value);

/// A hexadecimal digit, in lower case.
pub open spec fn hex_digit(n: int) -> char {
    if n < 10 {
        (('0' as int) + n) as char
    } else {
        (('a' as int) + n - 10) as char
    }
}

/// How `serde_json` writes one char inside a string literal: a quote and a
/// backslash get a backslash; backspace, form feed, line feed, carriage
/// return and tab their short escapes; any other char below 0x20 a `\u00`
/// escape with two lower-case hex digits; every other char stands for
/// itself.
pub open spec fn json_char(c: char) -> Seq<char> {
    if c == '"' {
        "\\\""@
    } else if c == '\\' {
        "\\\\"@
    } else if c == '\u{8}' {
        "\\b"@
    } else if c == '\u{c}' {
        "\\f"@
    } else if c == '\n' {
        "\\n"@
    } else if c == '\r' {
        "\\r"@
    } else if c == '\t' {
        "\\t"@
    } else if (c as u32) < 0x20 {
        "\\u00"@ + seq![hex_digit((c as u32) as int / 16), hex_digit((c as u32) as int % 16)]
    } else {
        seq![c]
    }
}

/// The chars of a text, each written as in a string literal.
pub open spec fn json_chars(s: Seq<char>) -> Seq<char>
    decreases s.len(),
{
    if s.len() == 0 {
        Seq::empty()
    } else {
        json_chars(s.drop_last()) + json_char(s.last())
    }
}

/// What `serde_json::to_string` writes for a string: the text as a JSON
/// string literal, in double quotes with JSON escapes.
pub closed spec fn json_string_literal(s: Seq<char>) -> Seq<char> {
    "\""@ + json_chars(s) + "\""@
}

/// What `serde_json::to_string` writes for an object built from the given
/// pairs in order (a later pair replacing an earlier one of the same name).
pub uninterp spec fn json_object_text(pairs: Seq<(Seq<char>, Seq<char>)>) -> Seq<char>;

/// A JSON value as the library reads it. A number is kept as the text that
/// `serde_json` writes for it; an object's members are in the order
/// `serde_json` keeps them (by name).
#[derive(Debug)]
pub enum JsonValue {
    Null,
    Bool(bool),
    Number(String),
    Text(String),
    Array(Vec<JsonValue>),
    Object(Vec<(String, JsonValue)>),
}

/// A JSON value, its texts as char sequences.
pub enum JsonView {
    Null,
    Bool(bool),
    Number(Seq<char>),
    Text(Seq<char>),
    Array(Seq<JsonView>),
    Object(Seq<(Seq<char>, JsonView)>),
}

/// The view of a JSON value.
pub open spec fn json_view(v: JsonValue) -> JsonView
    decreases v,
{
    match v {
        JsonValue::Null => JsonView::Null,
        JsonValue::Bool(b) => JsonView::Bool(b),
        JsonValue::Number(n) => JsonView::Number(n@),
        JsonValue::Text(t) => JsonView::Text(t@),
        JsonValue::Array(items) => JsonView::Array(Seq::new(items@.len(), |i: int| {
            if 0 <= i < items@.len() { json_view(items@[i]) } else { JsonView::Null }
        })),
        JsonValue::Object(ms) => JsonView::Object(Seq::new(ms@.len(), |i: int| {
            if 0 <= i < ms@.len() { (ms@[i].0@, json_view(ms@[i].1)) } else { (Seq::empty(), JsonView::Null) }
        })),
    }
}

/// What `serde_json::from_str::<Value>` gives for a text: `None` where it
/// reports an error.
pub uninterp spec fn json_document(text: Seq<char>) -> Option<JsonView>;

/// `serde_json::from_str::<Value>`, the value copied into a `JsonValue`;
/// the document is named `json_document`. An error is the parser's message.
#[verifier::external_body]
pub(crate) fn parse_json(text: &str) -> (r: Result<JsonValue, String>)
    ensures
        r matches Ok(v) ==> json_document(text@) == Some(json_view(v)),
        r is Err <==> json_document(text@) is None,
{
    match serde_json::from_str::<serde_json::Value>(text) {
        Ok(v) => Ok(copy_json(&v)),
        Err(e) => Err(e.to_string()),
    }
}

/// Copies a `serde_json::Value` into a `JsonValue`, a number as its
/// `Display` text.
#[verifier::external_body]
fn copy_json(v: &serde_json::Value) -> JsonValue {
    match v {
        serde_json::Value::Null => JsonValue::Null,
        serde_json::Value::Bool(b) => JsonValue::Bool(*b),
        serde_json::Value::Number(n) => JsonValue::Number(n.to_string()),
        serde_json::Value::String(s) => JsonValue::Text(s.clone()),
        serde_json::Value::Array(a) => JsonValue::Array(a.iter().map(copy_json).collect()),
        serde_json::Value::Object(m) => JsonValue::Object(m.iter().map(|(k, x)| (k.clone(), copy_json(x))).collect()),
    }
}

/// The value of the first of the members with the given name.
pub open spec fn first_member(ms: Seq<(Seq<char>, JsonView)>, key: Seq<char>) -> Option<JsonView>
    decreases ms.len(),
{
    if ms.len() == 0 {
        None
    } else if ms[0].0 == key {
        Some(ms[0].1)
    } else {
        first_member(ms.drop_first(), key)
    }
}

/// A member of an object; none for a value that is no object.
pub open spec fn member_view(v: JsonView, key: Seq<char>) -> Option<JsonView> {
    match v {
        JsonView::Object(ms) => first_member(ms, key),
        _ => None,
    }
}

/// A member's flag, when it is a boolean.
pub open spec fn member_bool(v: JsonView, key: Seq<char>) -> Option<bool> {
    match member_view(v, key) {
        Some(JsonView::Bool(b)) => Some(b),
        _ => None,
    }
}

/// A member's text, when it is a string.
pub open spec fn member_str(v: JsonView, key: Seq<char>) -> Option<Seq<char>> {
    match member_view(v, key) {
        Some(JsonView::Text(t)) => Some(t),
        _ => None,
    }
}

/// A member's value, when it is a number whose text reads as a 64-bit
/// unsigned integer (`serde_json` writes a non-negative integer as its
/// digits, and any other number with a minus sign, a point or an exponent).
pub open spec fn member_u64(v: JsonView, key: Seq<char>) -> Option<u64> {
    match member_view(v, key) {
        Some(JsonView::Number(t)) => parse_u64(t),
        _ => None,
    }
}

/// A member's value, when it is a number whose text reads as a 64-bit
/// signed integer.
pub open spec fn member_i64(v: JsonView, key: Seq<char>) -> Option<i64> {
    match member_view(v, key) {
        Some(JsonView::Number(t)) => parse_i64(t),
        _ => None,
    }
}

/// A member's value, when it is an integer that fits in 32 bits.
pub open spec fn member_i32(v: JsonView, key: Seq<char>) -> Option<i32> {
    match member_i64(v, key) {
        Some(n) => if i32::MIN <= n <= i32::MAX { Some(n as i32) } else { None },
        None => None,
    }
}

/// An optional member: `Some(None)` when it is missing or `null`, `Some` of
/// its text when it is a string, and `None` (a reply that cannot be read)
/// for any other value.
pub open spec fn opt_str_field(v: JsonView, key: Seq<char>) -> Option<Option<Seq<char>>> {
    match member_view(v, key) {
        None => Some(None),
        Some(JsonView::Null) => Some(None),
        Some(JsonView::Text(t)) => Some(Some(t)),
        _ => None,
    }
}

/// An optional flag member, read as `opt_str_field` reads a text.
pub open spec fn opt_bool_field(v: JsonView, key: Seq<char>) -> Option<Option<bool>> {
    match member_view(v, key) {
        None => Some(None),
        Some(JsonView::Null) => Some(None),
        Some(JsonView::Bool(b)) => Some(Some(b)),
        _ => None,
    }
}

/// The text of a value that is a string.
pub open spec fn text_of_view(v: JsonView) -> Option<Seq<char>> {
    match v {
        JsonView::Text(t) => Some(t),
        _ => None,
    }
}

/// A member's members, when it is an object: each name with the text of
/// its value when that is a string.
pub open spec fn member_pairs(v: JsonView, key: Seq<char>) -> Option<Seq<(Seq<char>, Option<Seq<char>>)>> {
    match member_view(v, key) {
        Some(JsonView::Object(ms)) => Some(ms.map_values(|m: (Seq<char>, JsonView)| (m.0, text_of_view(m.1)))),
        _ => None,
    }
}

/// The views of texts that may be missing.
pub open spec fn opt_view(o: Option<String>) -> Option<Seq<char>> {
    match o {
        Some(s) => Some(s@),
        None => None,
    }
}

/// The views of name and text pairs.
pub open spec fn pairs_view(ps: Seq<(String, Option<String>)>) -> Seq<(Seq<char>, Option<Seq<char>>)> {
    ps.map_values(|p: (String, Option<String>)| (p.0@, opt_view(p.1)))
}

proof fn lemma_object_view(ms: Vec<(String, JsonValue)>)
    ensures
        json_view(JsonValue::Object(ms)) matches JsonView::Object(w) && w.len() == ms@.len()
            && forall|j: int| 0 <= j < ms@.len() ==> #[trigger] w[j] == (ms@[j].0@, json_view(ms@[j].1)),
{
}

/// The view of an array is the views of its items.
pub proof fn lemma_array_view(items: Vec<JsonValue>)
    ensures
        json_view(JsonValue::Array(items)) == JsonView::Array(items@.map_values(|x: JsonValue| json_view(x))),
{
    match json_view(JsonValue::Array(items)) {
        JsonView::Array(w) => {
            assert(w =~= items@.map_values(|x: JsonValue| json_view(x)));
        },
        _ => {},
    }
}

/// Where the first member with the given name of an object stands.
pub(crate) fn member_index(ms: &Vec<(String, JsonValue)>, key: &str) -> (r: Option<usize>)
    ensures
        match r {
            Some(i) => i < ms@.len() && member_view(json_view(JsonValue::Object(*ms)), key@) == Some(json_view(ms@[i as int].1)),
            None => member_view(json_view(JsonValue::Object(*ms)), key@) is None,
        },
{
    proof {
        lemma_object_view(*ms);
    }
    let ghost vs = match json_view(JsonValue::Object(*ms)) {
        JsonView::Object(w) => w,
        _ => Seq::empty(),
    };
    let mut i: usize = 0;
    assert(vs.skip(0) =~= vs);
    while i < ms.len()
        invariant
            i <= ms@.len(),
            vs.len() == ms@.len(),
            json_view(JsonValue::Object(*ms)) == JsonView::Object(vs),
            forall|j: int| 0 <= j < ms@.len() ==> #[trigger] vs[j] == (ms@[j].0@, json_view(ms@[j].1)),
            first_member(vs.skip(i as int), key@) == first_member(vs, key@),
        decreases ms@.len() - i,
    {
        assert(vs.skip(i as int)[0] == vs[i as int]);
        if crate::text::str_eq(ms[i].0.as_str(), key) {
            assert(vs[i as int] == (ms@[i as int].0@, json_view(ms@[i as int].1)));
            assert(vs.skip(i as int).len() > 0);
            assert(first_member(vs.skip(i as int), key@) == Some(json_view(ms@[i as int].1)));
            return Some(i);
        }
        assert(vs.skip(i as int).drop_first() =~= vs.skip(i + 1));
        i = i + 1;
    }
    assert(vs.skip(i as int).len() == 0);
    None
}

/// The member of an object with the given name (the first, should there
/// be more).
pub fn json_member<'a>(v: &'a JsonValue, key: &str) -> (r: Option<&'a JsonValue>)
    ensures
        match r {
            Some(m) => member_view(json_view(*v), key@) == Some(json_view(*m)),
            None => member_view(json_view(*v), key@) is None,
        },
{
    match v {
        JsonValue::Object(ms) => match member_index(ms, key) {
            Some(i) => Some(&ms[i].1),
            None => None,
        },
        _ => None,
    }
}

/// A member's flag, when it is a boolean.
pub fn json_bool(v: &JsonValue, key: &str) -> (r: Option<bool>)
    ensures
        r == member_bool(json_view(*v), key@),
{
    match json_member(v, key) {
        Some(JsonValue::Bool(b)) => Some(*b),
        _ => None,
    }
}

/// A member's text, when it is a string.
pub fn json_str(v: &JsonValue, key: &str) -> (r: Option<String>)
    ensures
        opt_view(r) == member_str(json_view(*v), key@),
{
    match json_member(v, key) {
        Some(JsonValue::Text(t)) => Some(t.clone()),
        _ => None,
    }
}

/// A member's value, when it is a non-negative integer that fits in 64
/// bits.
pub fn json_u64(v: &JsonValue, key: &str) -> (r: Option<u64>)
    ensures
        r == member_u64(json_view(*v), key@),
{
    match json_member(v, key) {
        Some(JsonValue::Number(t)) => {
            let cs = crate::text::chars_of(t.as_str());
            crate::text::parse_u64_exec(cs.as_slice())
        },
        _ => None,
    }
}

/// An optional text member: missing or `null` reads as none; a value that
/// is no string cannot be read.
pub fn json_opt_str(v: &JsonValue, key: &str) -> (r: Option<Option<String>>)
    ensures
        match r {
            Some(o) => opt_str_field(json_view(*v), key@) == Some(opt_view(o)),
            None => opt_str_field(json_view(*v), key@) is None,
        },
{
    match json_member(v, key) {
        None => Some(None),
        Some(JsonValue::Null) => Some(None),
        Some(JsonValue::Text(t)) => Some(Some(t.clone())),
        _ => None,
    }
}

/// An optional flag member: missing or `null` reads as none; a value that
/// is no boolean cannot be read.
pub fn json_opt_bool(v: &JsonValue, key: &str) -> (r: Option<Option<bool>>)
    ensures
        r == opt_bool_field(json_view(*v), key@),
{
    match json_member(v, key) {
        None => Some(None),
        Some(JsonValue::Null) => Some(None),
        Some(JsonValue::Bool(b)) => Some(Some(*b)),
        _ => None,
    }
}

/// A member's value, when it is an integer that fits in 64 bits.
pub fn json_i64(v: &JsonValue, key: &str) -> (r: Option<i64>)
    ensures
        r == member_i64(json_view(*v), key@),
{
    match json_member(v, key) {
        Some(JsonValue::Number(t)) => {
            let cs = crate::text::chars_of(t.as_str());
            crate::text::parse_i64_exec(cs.as_slice())
        },
        _ => None,
    }
}

/// A member's value, when it is an integer that fits in 32 bits.
pub fn json_i32(v: &JsonValue, key: &str) -> (r: Option<i32>)
    ensures
        r == member_i32(json_view(*v), key@),
{
    match json_i64(v, key) {
        Some(n) => if i32::MIN as i64 <= n && n <= i32::MAX as i64 { Some(n as i32) } else { None },
        None => None,
    }
}

/// A member's members, when it is an object: each name with the text of
/// its value when that is a string.
pub fn json_object_members(v: &JsonValue, key: &str) -> (r: Option<Vec<(String, Option<String>)>>)
    ensures
        match r {
            Some(ps) => member_pairs(json_view(*v), key@) == Some(pairs_view(ps@)),
            None => member_pairs(json_view(*v), key@) is None,
        },
{
    match json_member(v, key) {
        Some(JsonValue::Object(ms)) => {
            proof {
                lemma_object_view(*ms);
            }
            let ghost vs = match json_view(JsonValue::Object(*ms)) {
                JsonView::Object(w) => w,
                _ => Seq::empty(),
            };
            let ghost want = vs.map_values(|m: (Seq<char>, JsonView)| (m.0, text_of_view(m.1)));
            let mut r: Vec<(String, Option<String>)> = Vec::new();
            let mut i: usize = 0;
            while i < ms.len()
                invariant
                    i <= ms@.len(),
                    vs.len() == ms@.len(),
                    want.len() == ms@.len(),
                    forall|j: int| 0 <= j < ms@.len() ==> #[trigger] want[j] == (ms@[j].0@, text_of_view(json_view(ms@[j].1))),
                    r@.len() == i,
                    forall|j: int| 0 <= j < i ==> #[trigger] pairs_view(r@)[j] == want[j],
                decreases ms@.len() - i,
            {
                let t: Option<String> = match &ms[i].1 {
                    JsonValue::Text(s) => Some(s.clone()),
                    _ => None,
                };
                assert(opt_view(t) == text_of_view(json_view(ms@[i as int].1)));
                let ghost old_r = r@;
                r.push((ms[i].0.clone(), t));
                assert forall|j: int| 0 <= j < i + 1 implies #[trigger] pairs_view(r@)[j] == want[j] by {
                    if j < i {
                        assert(r@[j] == old_r[j]);
                        assert(pairs_view(old_r)[j] == want[j]);
                    }
                }
                i = i + 1;
            }
            assert(pairs_view(r@) =~= want);
            Some(r)
        },
        _ => None,
    }
}

/// A string's JSON string literal, as `serde_json::to_string` writes it.
pub(crate) fn json_quote(s: &str) -> (r: String)
    ensures
        r@ == json_string_literal(s@),
{
    let cs = crate::text::chars_of(s);
    let mut r = String::new();
    crate::text::push_str(&mut r, "\"");
    let ghost start = r@;
    let mut i: usize = 0;
    while i < cs.len()
        invariant
            i <= cs@.len(),
            cs@ == s@,
            r@ == start + json_chars(cs@.take(i as int)),
        decreases cs@.len() - i,
    {
        let c = cs[i];
        let ghost before = r@;
        proof {
            reveal_strlit("\\\"");
            reveal_strlit("\\\\");
            reveal_strlit("\\b");
            reveal_strlit("\\f");
            reveal_strlit("\\n");
            reveal_strlit("\\r");
            reveal_strlit("\\t");
            reveal_strlit("\\u00");
        }
        if c == '"' {
            crate::text::push_str(&mut r, "\\\"");
        } else if c == '\\' {
            crate::text::push_str(&mut r, "\\\\");
        } else if c == '\u{8}' {
            crate::text::push_str(&mut r, "\\b");
        } else if c == '\u{c}' {
            crate::text::push_str(&mut r, "\\f");
        } else if c == '\n' {
            crate::text::push_str(&mut r, "\\n");
        } else if c == '\r' {
            crate::text::push_str(&mut r, "\\r");
        } else if c == '\t' {
            crate::text::push_str(&mut r, "\\t");
        } else if (c as u32) < 0x20 {
            let n = c as u32;
            crate::text::push_str(&mut r, "\\u00");
            crate::text::push_char(&mut r, hex_char(n / 16));
            crate::text::push_char(&mut r, hex_char(n % 16));
        } else {
            crate::text::push_char(&mut r, c);
        }
        assert(r@ =~= before + json_char(c));
        assert(cs@.take(i + 1).drop_last() =~= cs@.take(i as int));
        i = i + 1;
    }
    assert(cs@.take(cs@.len() as int) =~= cs@);
    crate::text::push_str(&mut r, "\"");
    proof {
        reveal_strlit("\"");
    }
    r
}

fn hex_char(n: u32) -> (c: char)
    requires
        n < 16,
    ensures
        c == hex_digit(n as int),
{
    if n < 10 {
        (('0' as u8) + (n as u8)) as char
    } else {
        (('a' as u8) + (n as u8) - 10) as char
    }
}

/// `serde_json::to_string` of the object made of the given pairs, each value
/// a JSON string. It succeeds: `to_string` fails only where a `Serialize`
/// impl fails or a map has keys that are no strings, and a map of strings
/// to strings, written into memory, does neither.
#[verifier::external_body]
pub(crate) fn json_object_of(pairs: &Vec<(String, String)>) -> (r: Result<String, String>)
    ensures
        r is Ok,
        r matches Ok(t) ==> t@ == json_object_text(pairs@.map_values(|p: (String, String)| (p.0@, p.1@))),
{
    let mut m = serde_json::Map::new();
    for (k, v) in pairs.iter() {
        m.insert(k.clone(), serde_json::Value::String(v.clone()));
    }
    match serde_json::to_string(&m) {
        Ok(t) => Ok(t),
        Err(e) => Err(e.to_string()),
    }
}

} // verus!
