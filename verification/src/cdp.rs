//! The commands of the Chrome DevTools Protocol, one module per domain.
//!
//! Each function gives the command to send: its method and its parameters
//! as the compact JSON text that `serde_json` writes for them, members in
//! name order. A parameter given as an `Option` is sent only when present.
//! Sending a command and decoding its reply is the transport's part.
use vstd::prelude::*;
use crate::text::{decimal, join, push_str, push_decimal};
use crate::json::{json_string_literal, json_quote};

pub mod accessibility;
pub mod browser_domain;
pub mod css;
pub mod dom;
pub mod dom_storage;
pub mod emulation;
pub mod fetch;
pub mod indexed_db;
pub mod input;
pub mod log_domain;
pub mod mock;
pub mod network;
pub mod page;
pub mod performance;
pub mod runtime;
pub mod security;
pub mod service_worker;
pub mod target;

verus! {

/// A DevTools command: its method and its parameters as JSON text.
#[derive(Debug, Clone)]
pub struct Command {
    pub method: String,
    pub params: String,
}

/// A member of a JSON object: the quoted name, a colon and the value.
pub open spec fn member(key: Seq<char>, value: Seq<char>) -> Seq<char> {
    "\""@ + key + "\":"@ + value
}

/// A JSON object of the given members, in order.
pub open spec fn object(members: Seq<Seq<char>>) -> Seq<char> {
    "{"@ + join(members, ","@) + "}"@
}

/// A JSON array of the given value texts, in order.
pub open spec fn list(items: Seq<Seq<char>>) -> Seq<char> {
    "["@ + join(items, ","@) + "]"@
}

/// An integer in decimal, with a minus sign when negative.
pub open spec fn int_text(i: int) -> Seq<char> {
    if i < 0 {
        "-"@ + decimal((-i) as nat)
    } else {
        decimal(i as nat)
    }
}

/// `true` or `false`.
pub open spec fn bool_text(b: bool) -> Seq<char> {
    if b {
        "true"@
    } else {
        "false"@
    }
}

/// The texts of strings as JSON string literals.
pub open spec fn quoted_all(ss: Seq<Seq<char>>) -> Seq<Seq<char>> {
    ss.map_values(|s: Seq<char>| json_string_literal(s))
}

/// The views of a slice of strings.
pub open spec fn str_views(ss: Seq<&str>) -> Seq<Seq<char>> {
    ss.map_values(|s: &str| s@)
}

/// A member with an integer.
pub open spec fn int_m(key: Seq<char>, v: int) -> Seq<Seq<char>> {
    seq![member(key, int_text(v))]
}

/// A member with a flag.
pub open spec fn bool_m(key: Seq<char>, b: bool) -> Seq<Seq<char>> {
    seq![member(key, bool_text(b))]
}

/// A member with a string.
pub open spec fn str_m(key: Seq<char>, s: Seq<char>) -> Seq<Seq<char>> {
    seq![member(key, json_string_literal(s))]
}

/// A member whose value is the given JSON text.
pub open spec fn raw_m(key: Seq<char>, json: Seq<char>) -> Seq<Seq<char>> {
    seq![member(key, json)]
}

/// A member with an array of strings.
pub open spec fn strs_m(key: Seq<char>, ss: Seq<Seq<char>>) -> Seq<Seq<char>> {
    seq![member(key, list(quoted_all(ss)))]
}

/// A member with an array of the given JSON texts.
pub open spec fn raws_m(key: Seq<char>, items: Seq<Seq<char>>) -> Seq<Seq<char>> {
    seq![member(key, list(items))]
}

/// An integer member when the value is present.
pub open spec fn opt_i32_m(key: Seq<char>, v: Option<i32>) -> Seq<Seq<char>> {
    match v {
        Some(x) => int_m(key, x as int),
        None => Seq::empty(),
    }
}

/// An integer member when the value is present.
pub open spec fn opt_i64_m(key: Seq<char>, v: Option<i64>) -> Seq<Seq<char>> {
    match v {
        Some(x) => int_m(key, x as int),
        None => Seq::empty(),
    }
}

/// A flag member when the value is present.
pub open spec fn opt_bool_m(key: Seq<char>, v: Option<bool>) -> Seq<Seq<char>> {
    match v {
        Some(b) => bool_m(key, b),
        None => Seq::empty(),
    }
}

/// A string member when the value is present.
pub open spec fn opt_str_m(key: Seq<char>, v: Option<&str>) -> Seq<Seq<char>> {
    match v {
        Some(s) => str_m(key, s@),
        None => Seq::empty(),
    }
}

/// A member with the given JSON text when it is present.
pub open spec fn opt_raw_m(key: Seq<char>, v: Option<&str>) -> Seq<Seq<char>> {
    match v {
        Some(s) => raw_m(key, s@),
        None => Seq::empty(),
    }
}

/// An array-of-strings member when the value is present.
pub open spec fn opt_strs_m(key: Seq<char>, v: Option<&[&str]>) -> Seq<Seq<char>> {
    match v {
        Some(ss) => strs_m(key, str_views(ss@)),
        None => Seq::empty(),
    }
}

/// A string member when the value is present.
pub open spec fn opt_string_m(key: Seq<char>, v: Option<String>) -> Seq<Seq<char>> {
    match v {
        Some(s) => str_m(key, s@),
        None => Seq::empty(),
    }
}

/// A member with the given JSON text when it is present.
pub open spec fn opt_string_raw_m(key: Seq<char>, v: Option<String>) -> Seq<Seq<char>> {
    match v {
        Some(s) => raw_m(key, s@),
        None => Seq::empty(),
    }
}

/// A member whose value is the object of the given members.
pub open spec fn obj_m(key: Seq<char>, members: Seq<Seq<char>>) -> Seq<Seq<char>> {
    seq![member(key, object(members))]
}

/// A member whose value is an array of objects, each of the given members.
pub open spec fn objs_m(key: Seq<char>, objects: Seq<Seq<Seq<char>>>) -> Seq<Seq<char>> {
    seq![member(key, list(objects.map_values(|ms: Seq<Seq<char>>| object(ms))))]
}

/// Appends an integer in decimal.
pub fn push_int(s: &mut String, i: i64)
    ensures
        final(s)@ == old(s)@ + int_text(i as int),
{
    if i < 0 {
        push_str(s, "-");
        let m: i128 = -(i as i128);
        push_decimal(s, m as u64);
    } else {
        push_decimal(s, i as u64);
    }
}

/// The members of a command's parameters, built one at a time.
pub struct Params {
    members: Vec<String>,
}

impl Params {
    /// The members so far, in order.
    pub closed spec fn members(&self) -> Seq<Seq<char>> {
        self.members@.map_values(|m: String| m@)
    }

    /// No members yet.
    pub fn new() -> (p: Self)
        ensures
            p.members() == Seq::<Seq<char>>::empty(),
    {
        let p = Params { members: Vec::new() };
        assert(p.members() =~= Seq::<Seq<char>>::empty());
        p
    }

    fn push_member(&mut self, key: &str, value: &str)
        ensures
            final(self).members() == old(self).members().push(member(key@, value@)),
    {
        let mut m = String::new();
        push_str(&mut m, "\"");
        push_str(&mut m, key);
        push_str(&mut m, "\":");
        push_str(&mut m, value);
        self.members.push(m);
        assert(self.members() =~= old(self).members().push(member(key@, value@)));
    }

    /// Adds an integer member.
    pub fn integer(&mut self, key: &str, v: i64)
        ensures
            final(self).members() == old(self).members() + int_m(key@, v as int),
    {
        let mut t = String::new();
        push_int(&mut t, v);
        self.push_member(key, t.as_str());
        assert(old(self).members().push(member(key@, int_text(v as int))) =~= old(self).members() + int_m(key@, v as int));
    }

    /// Adds a flag member.
    pub fn flag(&mut self, key: &str, b: bool)
        ensures
            final(self).members() == old(self).members() + bool_m(key@, b),
    {
        let t = if b { "true" } else { "false" };
        proof {
            reveal_strlit("true");
            reveal_strlit("false");
        }
        self.push_member(key, t);
        assert(old(self).members().push(member(key@, bool_text(b))) =~= old(self).members() + bool_m(key@, b));
    }

    /// Adds a string member.
    pub fn text(&mut self, key: &str, s: &str)
        ensures
            final(self).members() == old(self).members() + str_m(key@, s@),
    {
        let q = json_quote(s);
        self.push_member(key, q.as_str());
        assert(old(self).members().push(member(key@, json_string_literal(s@))) =~= old(self).members() + str_m(key@, s@));
    }

    /// Adds a member whose value is the given JSON text.
    pub fn raw(&mut self, key: &str, json: &str)
        ensures
            final(self).members() == old(self).members() + raw_m(key@, json@),
    {
        self.push_member(key, json);
        assert(old(self).members().push(member(key@, json@)) =~= old(self).members() + raw_m(key@, json@));
    }

    /// Adds a member with an array of strings.
    pub fn texts(&mut self, key: &str, ss: &[&str])
        ensures
            final(self).members() == old(self).members() + strs_m(key@, str_views(ss@)),
    {
        let ghost want = quoted_all(str_views(ss@));
        let mut items: Vec<String> = Vec::new();
        let mut i: usize = 0;
        while i < ss.len()
            invariant
                i <= ss@.len(),
                want == quoted_all(str_views(ss@)),
                items@.len() == i,
                forall|j: int| 0 <= j < i ==> #[trigger] items@[j]@ == want[j],
            decreases ss@.len() - i,
        {
            items.push(json_quote(ss[i]));
            i = i + 1;
        }
        let t = list_of(&items);
        assert(items@.map_values(|m: String| m@) =~= want);
        self.push_member(key, t.as_str());
        assert(old(self).members().push(member(key@, list(want))) =~= old(self).members() + strs_m(key@, str_views(ss@)));
    }

    /// Adds a member with an array of the given JSON texts.
    pub fn raws(&mut self, key: &str, items: &[&str])
        ensures
            final(self).members() == old(self).members() + raws_m(key@, str_views(items@)),
    {
        let mut v: Vec<String> = Vec::new();
        let mut i: usize = 0;
        while i < items.len()
            invariant
                i <= items@.len(),
                v@.len() == i,
                forall|j: int| 0 <= j < i ==> #[trigger] v@[j]@ == items@[j]@,
            decreases items@.len() - i,
        {
            v.push(items[i].to_owned());
            i = i + 1;
        }
        let t = list_of(&v);
        assert(v@.map_values(|m: String| m@) =~= str_views(items@));
        self.push_member(key, t.as_str());
        assert(old(self).members().push(member(key@, list(str_views(items@)))) =~= old(self).members() + raws_m(key@, str_views(items@)));
    }

    /// Adds an integer member when the value is present.
    pub fn opt_i32(&mut self, key: &str, v: Option<i32>)
        ensures
            final(self).members() == old(self).members() + opt_i32_m(key@, v),
    {
        match v {
            Some(x) => self.integer(key, x as i64),
            None => {
                assert(old(self).members() + opt_i32_m(key@, v) =~= old(self).members());
            },
        }
    }

    /// Adds an integer member when the value is present.
    pub fn opt_i64(&mut self, key: &str, v: Option<i64>)
        ensures
            final(self).members() == old(self).members() + opt_i64_m(key@, v),
    {
        match v {
            Some(x) => self.integer(key, x),
            None => {
                assert(old(self).members() + opt_i64_m(key@, v) =~= old(self).members());
            },
        }
    }

    /// Adds a flag member when the value is present.
    pub fn opt_flag(&mut self, key: &str, v: Option<bool>)
        ensures
            final(self).members() == old(self).members() + opt_bool_m(key@, v),
    {
        match v {
            Some(b) => self.flag(key, b),
            None => {
                assert(old(self).members() + opt_bool_m(key@, v) =~= old(self).members());
            },
        }
    }

    /// Adds a string member when the value is present.
    pub fn opt_text(&mut self, key: &str, v: Option<&str>)
        ensures
            final(self).members() == old(self).members() + opt_str_m(key@, v),
    {
        match v {
            Some(s) => self.text(key, s),
            None => {
                assert(old(self).members() + opt_str_m(key@, v) =~= old(self).members());
            },
        }
    }

    /// Adds a member with the given JSON text when it is present.
    pub fn opt_raw(&mut self, key: &str, v: Option<&str>)
        ensures
            final(self).members() == old(self).members() + opt_raw_m(key@, v),
    {
        match v {
            Some(s) => self.raw(key, s),
            None => {
                assert(old(self).members() + opt_raw_m(key@, v) =~= old(self).members());
            },
        }
    }

    /// Adds an array-of-strings member when the value is present.
    pub fn opt_texts(&mut self, key: &str, v: Option<&[&str]>)
        ensures
            final(self).members() == old(self).members() + opt_strs_m(key@, v),
    {
        match v {
            Some(ss) => self.texts(key, ss),
            None => {
                assert(old(self).members() + opt_strs_m(key@, v) =~= old(self).members());
            },
        }
    }

    /// Adds a string member when the value is present.
    pub fn opt_string(&mut self, key: &str, v: &Option<String>)
        ensures
            final(self).members() == old(self).members() + opt_string_m(key@, *v),
    {
        match v {
            Some(s) => self.text(key, s.as_str()),
            None => {
                assert(old(self).members() + opt_string_m(key@, *v) =~= old(self).members());
            },
        }
    }

    /// Adds a member with the given JSON text when it is present.
    pub fn opt_raw_string(&mut self, key: &str, v: &Option<String>)
        ensures
            final(self).members() == old(self).members() + opt_string_raw_m(key@, *v),
    {
        match v {
            Some(s) => self.raw(key, s.as_str()),
            None => {
                assert(old(self).members() + opt_string_raw_m(key@, *v) =~= old(self).members());
            },
        }
    }

    /// Adds a member whose value is the object of the given members.
    pub fn nested(&mut self, key: &str, inner: Params)
        ensures
            final(self).members() == old(self).members() + obj_m(key@, inner.members()),
    {
        let t = enclosed(&inner.members, "{", "}");
        proof {
            reveal_strlit("{");
            reveal_strlit("}");
        }
        self.push_member(key, t.as_str());
        assert(old(self).members().push(member(key@, object(inner.members()))) =~= old(self).members() + obj_m(key@, inner.members()));
    }

    /// Adds a member whose value is an array of objects.
    pub fn nested_list(&mut self, key: &str, items: Vec<Params>)
        ensures
            final(self).members() == old(self).members() + objs_m(key@, items@.map_values(|p: Params| p.members())),
    {
        let ghost want = items@.map_values(|p: Params| p.members()).map_values(|ms: Seq<Seq<char>>| object(ms));
        let mut texts: Vec<String> = Vec::new();
        let mut i: usize = 0;
        proof {
            reveal_strlit("{");
            reveal_strlit("}");
        }
        while i < items.len()
            invariant
                i <= items@.len(),
                want == items@.map_values(|p: Params| p.members()).map_values(|ms: Seq<Seq<char>>| object(ms)),
                texts@.len() == i,
                forall|j: int| 0 <= j < i ==> #[trigger] texts@[j]@ == want[j],
            decreases items@.len() - i,
        {
            let t = enclosed(&items[i].members, "{", "}");
            texts.push(t);
            i = i + 1;
        }
        let t = list_of(&texts);
        assert(texts@.map_values(|m: String| m@) =~= want);
        self.push_member(key, t.as_str());
        assert(old(self).members().push(member(key@, list(want))) =~= old(self).members() + objs_m(key@, items@.map_values(|p: Params| p.members())));
    }

    /// The command with the given method and these parameters.
    pub fn command(self, method: &str) -> (c: Command)
        ensures
            c.method@ == method@,
            c.params@ == object(self.members()),
    {
        let t = enclosed(&self.members, "{", "}");
        proof {
            reveal_strlit("{");
            reveal_strlit("}");
        }
        Command { method: method.to_owned(), params: t }
    }
}

/// The given texts joined with commas, between `open` and `close`.
fn enclosed(items: &Vec<String>, open: &str, close: &str) -> (t: String)
    ensures
        t@ == open@ + join(items@.map_values(|m: String| m@), ","@) + close@,
{
    let ghost vs = items@.map_values(|m: String| m@);
    let mut t = String::new();
    push_str(&mut t, open);
    let mut i: usize = 0;
    while i < items.len()
        invariant
            i <= items@.len(),
            vs == items@.map_values(|m: String| m@),
            t@ == open@ + join(vs.take(i as int), ","@),
        decreases items@.len() - i,
    {
        assert(vs.take(i + 1).drop_last() =~= vs.take(i as int));
        if i > 0 {
            push_str(&mut t, ",");
        }
        push_str(&mut t, items[i].as_str());
        proof {
            if i == 0 {
                assert(join(vs.take(1), ","@) == vs.take(1)[0]);
            }
            assert(t@ =~= open@ + join(vs.take(i + 1), ","@));
        }
        i = i + 1;
    }
    push_str(&mut t, close);
    assert(vs.take(items@.len() as int) =~= vs);
    t
}

/// A JSON array of the given value texts.
fn list_of(items: &Vec<String>) -> (t: String)
    ensures
        t@ == list(items@.map_values(|m: String| m@)),
{
    let t = enclosed(items, "[", "]");
    proof {
        reveal_strlit("[");
        reveal_strlit("]");
    }
    t
}

// ───────────────────────── sending in turn ─────────────────────────

/// How sending commands one at a time ends, given the reply each call would
/// get: `calls` calls are made, each after every earlier one succeeded; the
/// outcome is the first failure, or success when all `n` succeeded.
pub open spec fn sends_until_failure(n: int, replies: Seq<Result<(), String>>, calls: int, outcome: Result<(), String>) -> bool {
    &&& 0 <= calls <= n
    &&& forall|j: int| 0 <= j < calls - 1 ==> (#[trigger] replies[j]) is Ok
    &&& outcome is Ok ==> calls == n && forall|j: int| 0 <= j < n ==> (#[trigger] replies[j]) is Ok
    &&& outcome matches Err(e) ==> (calls >= 1 && (replies[calls - 1] matches Err(f) && e@ == f@))
}

/// The calls made and the outcome of sending `n` commands one at a time,
/// stopping at the first that fails; `replies` holds the reply each call
/// gets, in order.
pub fn send_until_failure(n: usize, replies: &Vec<Result<(), String>>) -> (r: (usize, Result<(), String>))
    requires
        n <= replies@.len(),
    ensures
        sends_until_failure(n as int, replies@, r.0 as int, r.1),
{
    let mut i: usize = 0;
    while i < n
        invariant
            i <= n,
            n <= replies@.len(),
            forall|j: int| 0 <= j < i ==> (#[trigger] replies@[j]) is Ok,
        decreases n - i,
    {
        match &replies[i] {
            Ok(()) => {},
            Err(e) => {
                return (i + 1, Err(e.clone()));
            },
        }
        i = i + 1;
    }
    (n, Ok(()))
}

// ───────────────────────── session routing ─────────────────────────

/// The message that sends a command with the given id in a target's
/// session, its members in name order.
pub open spec fn session_message_text(id: u64, c: Command, session_id: Seq<char>) -> Seq<char> {
    "{\"id\":"@ + decimal(id as nat) + ",\"method\":"@ + json_string_literal(c.method@) + ",\"params\":"@
        + c.params@ + ",\"sessionId\":"@ + json_string_literal(session_id) + "}"@
}

/// Commands routed to one target's session: each command sent through it
/// goes to that session.
#[derive(Debug, Clone)]
pub struct ScopedTransport {
    pub session_id: String,
}

impl ScopedTransport {
    /// Routing to the given session.
    pub fn new(session_id: &str) -> (t: Self)
        ensures
            t.session_id@ == session_id@,
    {
        ScopedTransport { session_id: session_id.to_string() }
    }

    /// The message that sends a command, with the given id, in this
    /// session.
    pub fn message(&self, id: u64, c: &Command) -> (m: String)
        ensures
            m@ == session_message_text(id, *c, self.session_id@),
    {
        let mut m = String::new();
        push_str(&mut m, "{\"id\":");
        push_decimal(&mut m, id);
        push_str(&mut m, ",\"method\":");
        push_str(&mut m, json_quote(c.method.as_str()).as_str());
        push_str(&mut m, ",\"params\":");
        push_str(&mut m, c.params.as_str());
        push_str(&mut m, ",\"sessionId\":");
        push_str(&mut m, json_quote(self.session_id.as_str()).as_str());
        push_str(&mut m, "}");
        assert(m@ =~= session_message_text(id, *c, self.session_id@));
        m
    }
}

} // verus!
