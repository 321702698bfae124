//! Turning a parsed HTML document into the script that rebuilds it in the
//! renderer's own DOM: the attributes of `<head>` and `<body>`, then their
//! elements, texts and comments. Scripts, styles and stylesheet links are
//! left out (scripts run separately), and nesting stops after 30 levels.
use vstd::prelude::*;
use crate::text::{trim, str_eq, chars_of, trim_chars, push_str, push_char, push_decimal, decimal};
use crate::dom::{DomNode, NodeKind, tag_of, parse_html, html_document};

verus! {

/// How one char is written inside a single-quoted JS string: backslash,
/// single quote, newline, carriage return and tab get a backslash escape.
pub open spec fn js_char(c: char) -> Seq<char> {
    if c == '\\' {
        "\\\\"@
    } else if c == '\'' {
        "\\'"@
    } else if c == '\n' {
        "\\n"@
    } else if c == '\r' {
        "\\r"@
    } else if c == '\t' {
        "\\t"@
    } else {
        seq![c]
    }
}

/// A text escaped for a single-quoted JS string.
pub open spec fn escape_js_text(s: Seq<char>) -> Seq<char>
    decreases s.len(),
{
    if s.len() == 0 {
        Seq::empty()
    } else {
        escape_js_text(s.drop_last()) + js_char(s.last())
    }
}

/// Escapes a text for a single-quoted JS string.
pub fn escape_js(s: &str) -> (r: String)
    ensures
        r@ == escape_js_text(s@),
        js_unescape(r@) == s@,
        forall|i: int| 0 <= i < r@.len() ==> {
            let c = #[trigger] r@[i];
            c != '\n' && c != '\r' && c != '\t'
        },
        forall|i: int| 0 <= i < r@.len() && #[trigger] r@[i] == '\'' ==> backslash_run(r@, i) % 2 == 1,
{
    proof {
        law_escape_js_round_trip(s@);
        law_escape_js_safe(s@);
    }
    let mut r = String::new();
    push_escaped(&mut r, s);
    assert(Seq::<char>::empty() + escape_js_text(s@) =~= escape_js_text(s@));
    r
}

fn push_escaped(out: &mut String, s: &str)
    ensures
        final(out)@ == old(out)@ + escape_js_text(s@),
{
    let cs = chars_of(s);
    let mut i: usize = 0;
    while i < cs.len()
        invariant
            i <= cs@.len(),
            cs@ == s@,
            out@ == old(out)@ + escape_js_text(cs@.take(i as int)),
        decreases cs@.len() - i,
    {
        let c = cs[i];
        if c == '\\' {
            push_str(out, "\\\\");
        } else if c == '\'' {
            push_str(out, "\\'");
        } else if c == '\n' {
            push_str(out, "\\n");
        } else if c == '\r' {
            push_str(out, "\\r");
        } else if c == '\t' {
            push_str(out, "\\t");
        } else {
            push_char(out, c);
        }
        assert(cs@.take(i + 1).drop_last() =~= cs@.take(i as int));
        i = i + 1;
    }
    assert(cs@.take(cs@.len() as int) =~= cs@);
}

// ───────────────────────── head and body ─────────────────────────

/// The `<head>` and `<body>` found among a node's children: the last of
/// each among them, looking into `<html>` elements too.
pub open spec fn head_body(n: DomNode) -> (Option<DomNode>, Option<DomNode>)
    decreases n,
{
    head_body_list(n.children@)
}

/// The `<head>` and `<body>` found among sibling nodes, later ones winning.
pub open spec fn head_body_list(cs: Seq<DomNode>) -> (Option<DomNode>, Option<DomNode>)
    decreases cs,
{
    if cs.len() == 0 {
        (None, None)
    } else {
        let (h, b) = head_body_list(cs.drop_last());
        let c = cs[cs.len() - 1];
        let t = tag_of(c);
        let h1 = if t == "head"@ { Some(c) } else { h };
        let b1 = if t == "body"@ { Some(c) } else { b };
        if t == "html"@ {
            let (h2, b2) = head_body(c);
            (if h2 is Some { h2 } else { h1 }, if b2 is Some { b2 } else { b1 })
        } else {
            (h1, b1)
        }
    }
}

/// The node a reference stands for.
pub open spec fn deref_opt(r: Option<&DomNode>) -> Option<DomNode> {
    match r {
        Some(x) => Some(*x),
        None => None,
    }
}

fn find_head_body(n: &DomNode) -> (r: (Option<&DomNode>, Option<&DomNode>))
    ensures
        (deref_opt(r.0), deref_opt(r.1)) == head_body(*n),
    decreases n,
{
    let mut h: Option<&DomNode> = None;
    let mut b: Option<&DomNode> = None;
    let mut i: usize = 0;
    while i < n.children.len()
        invariant
            i <= n.children@.len(),
            (deref_opt(h), deref_opt(b)) == head_body_list(n.children@.take(i as int)),
        decreases n.children@.len() - i,
    {
        let c = &n.children[i];
        proof {
            let t = n.children@.take(i + 1);
            assert(t.drop_last() =~= n.children@.take(i as int));
            assert(t[t.len() - 1] == n.children@[i as int]);
        }
        let tag = crate::dom::tag_name(c);
        if str_eq(tag.as_str(), "head") {
            h = Some(c);
        }
        if str_eq(tag.as_str(), "body") {
            b = Some(c);
        }
        if str_eq(tag.as_str(), "html") {
            let (h2, b2) = find_head_body(c);
            if h2.is_some() {
                h = h2;
            }
            if b2.is_some() {
                b = b2;
            }
        }
        i = i + 1;
    }
    assert(n.children@.take(n.children@.len() as int) =~= n.children@);
    (h, b)
}

// ───────────────────────── emitting ─────────────────────────

/// `{var}.setAttribute('{name}','{value}');` and a line break.
pub open spec fn set_attr_line(var: Seq<char>, name: Seq<char>, value: Seq<char>) -> Seq<char> {
    var + ".setAttribute('"@ + escape_js_text(name) + "','"@ + escape_js_text(value) + "');\n"@
}

/// The attribute lines of attributes, those with an empty name included
/// only when `all` is set.
pub open spec fn attr_lines(var: Seq<char>, attrs: Seq<(String, String)>, all: bool) -> Seq<char>
    decreases attrs.len(),
{
    if attrs.len() == 0 {
        Seq::empty()
    } else {
        let a = attrs.last();
        attr_lines(var, attrs.drop_last(), all) + if all || a.0@.len() > 0 {
            set_attr_line(var, a.0@, a.1@)
        } else {
            Seq::empty()
        }
    }
}

/// The lines copying the attributes of `<head>` or `<body>` onto `var`,
/// skipping attributes without a name.
pub open spec fn copy_attr_lines(n: DomNode, var: Seq<char>) -> Seq<char> {
    match n.kind {
        NodeKind::Element { attrs, .. } => attr_lines(var, attrs@, false),
        _ => Seq::empty(),
    }
}

/// The variable of the `i`th child at a depth: `e{depth}_{i}`.
pub open spec fn child_var(depth: nat, i: nat) -> Seq<char> {
    "e"@ + decimal(depth) + "_"@ + decimal(i)
}

/// Elements that are left out.
pub open spec fn is_skipped_tag(t: Seq<char>) -> bool {
    t == "script"@ || t == "style"@ || t == "link"@
}

/// The lines that rebuild a node's children under `parent`.
pub open spec fn emit_children_text(n: DomNode, parent: Seq<char>, depth: nat) -> Seq<char>
    decreases n, 1int,
{
    if depth > 30 {
        Seq::empty()
    } else {
        emit_list(n.children@, parent, depth)
    }
}

/// The lines that rebuild a list of siblings under `parent`, the `i`th
/// of them in variable `e{depth}_{i}` when it is an element.
pub open spec fn emit_list(cs: Seq<DomNode>, parent: Seq<char>, depth: nat) -> Seq<char>
    decreases cs, 0int,
{
    if cs.len() == 0 {
        Seq::empty()
    } else {
        emit_list(cs.drop_last(), parent, depth) + child_lines(cs[cs.len() - 1], (cs.len() - 1) as nat, parent, depth)
    }
}

/// The lines that rebuild the `i`th child `c` under `parent`: an element
/// (unless left out) created in `e{depth}_{i}` with its attributes and
/// children, a non-blank text trimmed, or a comment.
pub open spec fn child_lines(c: DomNode, i: nat, parent: Seq<char>, depth: nat) -> Seq<char>
    decreases c, 2int,
{
    match c.kind {
        NodeKind::Element { tag, attrs } => if is_skipped_tag(tag@) {
            Seq::empty()
        } else {
            let v = child_var(depth, i);
            "var "@ + v + "=d.createElement('"@ + escape_js_text(tag@) + "');\n"@ + attr_lines(v, attrs@, true)
                + parent + ".appendChild("@ + v + ");\n"@ + emit_children_text(c, v, depth + 1)
        },
        NodeKind::Text { text } => if trim(text@).len() == 0 {
            Seq::empty()
        } else {
            parent + ".appendChild(d.createTextNode('"@ + escape_js_text(trim(text@)) + "'));\n"@
        },
        NodeKind::Comment { text } => parent + ".appendChild(d.createComment('"@ + escape_js_text(text@)
            + "'));\n"@,
        _ => Seq::empty(),
    }
}

/// The script that rebuilds a document: the attributes and children of
/// its `<head>` and `<body>`, inside a function that runs at once.
pub open spec fn dom_script_text(document: DomNode) -> Seq<char> {
    let (h, b) = head_body(document);
    "(function(){\nconst d=document,head=d.head,body=d.body;\n"@ + match h {
        Some(x) => copy_attr_lines(x, "d.head"@) + emit_children_text(x, "head"@, 0),
        None => Seq::empty(),
    } + match b {
        Some(x) => copy_attr_lines(x, "d.body"@) + emit_children_text(x, "body"@, 0),
        None => Seq::empty(),
    } + "})();\n"@
}

fn push_attr_lines(js: &mut String, var: &str, attrs: &Vec<(String, String)>, all: bool)
    ensures
        final(js)@ == old(js)@ + attr_lines(var@, attrs@, all),
{
    let mut i: usize = 0;
    while i < attrs.len()
        invariant
            i <= attrs@.len(),
            js@ == old(js)@ + attr_lines(var@, attrs@.take(i as int), all),
        decreases attrs@.len() - i,
    {
        let ghost before = js@;
        assert(attrs@.take(i + 1).drop_last() =~= attrs@.take(i as int));
        assert(attrs@.take(i + 1).last() == attrs@[i as int]);
        if all || !attrs[i].0.as_str().is_empty() {
            push_str(js, var);
            push_str(js, ".setAttribute('");
            push_escaped(js, attrs[i].0.as_str());
            push_str(js, "','");
            push_escaped(js, attrs[i].1.as_str());
            push_str(js, "');\n");
            assert(js@ =~= before + set_attr_line(var@, attrs@[i as int].0@, attrs@[i as int].1@));
        }
        assert(js@ =~= old(js)@ + attr_lines(var@, attrs@.take(i + 1), all));
        i = i + 1;
    }
    assert(attrs@.take(attrs@.len() as int) =~= attrs@);
}

fn child_var_exec(depth: usize, i: usize) -> (v: String)
    ensures
        v@ == child_var(depth as nat, i as nat),
{
    let mut v = String::new();
    push_str(&mut v, "e");
    push_decimal(&mut v, depth as u64);
    push_str(&mut v, "_");
    push_decimal(&mut v, i as u64);
    v
}

fn emit_children(js: &mut String, n: &DomNode, parent: &str, depth: usize)
    ensures
        final(js)@ == old(js)@ + emit_children_text(*n, parent@, depth as nat),
    decreases n, 1int,
{
    if depth > 30 {
        return;
    }
    let mut i: usize = 0;
    while i < n.children.len()
        invariant
            depth <= 30,
            i <= n.children@.len(),
            js@ == old(js)@ + emit_list(n.children@.take(i as int), parent@, depth as nat),
        decreases n.children@.len() - i,
    {
        let ghost cs = n.children@.take(i + 1);
        proof {
            assert(cs.drop_last() =~= n.children@.take(i as int));
            assert(cs[cs.len() - 1] == n.children@[i as int]);
        }
        emit_child(js, &n.children[i], i, parent, depth);
        i = i + 1;
    }
    assert(n.children@.take(n.children@.len() as int) =~= n.children@);
}

fn emit_text_line(js: &mut String, text: &str, parent: &str)
    ensures
        final(js)@ == old(js)@ + if trim(text@).len() == 0 {
            Seq::empty()
        } else {
            parent@ + ".appendChild(d.createTextNode('"@ + escape_js_text(trim(text@)) + "'));\n"@
        },
{
    let tc = chars_of(text);
    let t = trim_chars(tc.as_slice());
    if t.len() > 0 {
        push_str(js, parent);
        push_str(js, ".appendChild(d.createTextNode('");
        let ts = crate::text::string_of(t.as_slice());
        push_escaped(js, ts.as_str());
        push_str(js, "'));\n");
    }
    assert(js@ =~= old(js)@ + if trim(text@).len() == 0 {
        Seq::empty()
    } else {
        parent@ + ".appendChild(d.createTextNode('"@ + escape_js_text(trim(text@)) + "'));\n"@
    });
}

fn emit_comment_line(js: &mut String, text: &str, parent: &str)
    ensures
        final(js)@ == old(js)@ + (parent@ + ".appendChild(d.createComment('"@ + escape_js_text(text@) + "'));\n"@),
{
    push_str(js, parent);
    push_str(js, ".appendChild(d.createComment('");
    push_escaped(js, text);
    push_str(js, "'));\n");
    assert(js@ =~= old(js)@ + (parent@ + ".appendChild(d.createComment('"@ + escape_js_text(text@) + "'));\n"@));
}

fn emit_child(js: &mut String, c: &DomNode, i: usize, parent: &str, depth: usize)
    requires
        depth <= 30,
    ensures
        final(js)@ == old(js)@ + child_lines(*c, i as nat, parent@, depth as nat),
    decreases c, 2int,
{
    match &c.kind {
        NodeKind::Element { tag, attrs } => {
            if !(str_eq(tag.as_str(), "script") || str_eq(tag.as_str(), "style") || str_eq(tag.as_str(), "link")) {
                let v = child_var_exec(depth, i);
                let ghost j0 = js@;
                push_str(js, "var ");
                push_str(js, v.as_str());
                push_str(js, "=d.createElement('");
                push_escaped(js, tag.as_str());
                push_str(js, "');\n");
                push_attr_lines(js, v.as_str(), attrs, true);
                let ghost j1 = js@;
                assert(j1 =~= j0 + ("var "@ + v@ + "=d.createElement('"@ + escape_js_text(tag@) + "');\n"@
                    + attr_lines(v@, attrs@, true)));
                push_str(js, parent);
                push_str(js, ".appendChild(");
                push_str(js, v.as_str());
                push_str(js, ");\n");
                let ghost j2 = js@;
                assert(j2 =~= j1 + (parent@ + ".appendChild("@ + v@ + ");\n"@));
                emit_children(js, c, v.as_str(), depth + 1);
                assert(js@ =~= old(js)@ + child_lines(*c, i as nat, parent@, depth as nat));
            } else {
                assert(js@ =~= old(js)@ + child_lines(*c, i as nat, parent@, depth as nat));
            }
        },
        NodeKind::Text { text } => {
            emit_text_line(js, text.as_str(), parent);
        },
        NodeKind::Comment { text } => {
            emit_comment_line(js, text.as_str(), parent);
        },
        _ => {
            assert(js@ =~= old(js)@ + child_lines(*c, i as nat, parent@, depth as nat));
        },
    }
}

/// The script that rebuilds a parsed document in the renderer's DOM.
pub fn document_to_dom_js(document: &DomNode) -> (js: String)
    ensures
        js@ == dom_script_text(*document),
{
    let mut js = String::new();
    push_str(&mut js, "(function(){\nconst d=document,head=d.head,body=d.body;\n");
    let (h, b) = find_head_body(document);
    match h {
        Some(x) => {
            match &x.kind {
                NodeKind::Element { attrs, .. } => push_attr_lines(&mut js, "d.head", attrs, false),
                _ => {},
            }
            emit_children(&mut js, x, "head", 0);
        },
        None => {},
    }
    match b {
        Some(x) => {
            match &x.kind {
                NodeKind::Element { attrs, .. } => push_attr_lines(&mut js, "d.body", attrs, false),
                _ => {},
            }
            emit_children(&mut js, x, "body", 0);
        },
        None => {},
    }
    push_str(&mut js, "})();\n");
    assert(js@ =~= dom_script_text(*document));
    js
}

/// The script that rebuilds the document that `html` parses to.
pub fn html_to_dom_js(html: &str) -> (js: String)
    ensures
        js@ == dom_script_text(html_document(html@)),
{
    let d = parse_html(html);
    document_to_dom_js(&d)
}

// ───────────────────────── the escape's laws ─────────────────────────

/// The char a backslash escape stands for.
pub open spec fn unescaped_char(c: char) -> char {
    if c == 'n' {
        '\n'
    } else if c == 'r' {
        '\r'
    } else if c == 't' {
        '\t'
    } else {
        c
    }
}

/// Reading a single-quoted JS string's body: a backslash and the char after
/// it stand for one char; any other char stands for itself.
pub open spec fn js_unescape(r: Seq<char>) -> Seq<char>
    decreases r.len(),
{
    if r.len() == 0 {
        Seq::empty()
    } else if r[0] == '\\' && r.len() >= 2 {
        seq![unescaped_char(r[1])] + js_unescape(r.skip(2))
    } else {
        seq![r[0]] + js_unescape(r.skip(1))
    }
}

proof fn lemma_escape_front(c: char, t: Seq<char>)
    ensures
        escape_js_text(seq![c] + t) == js_char(c) + escape_js_text(t),
    decreases t.len(),
{
    let u = seq![c] + t;
    if t.len() == 0 {
        assert(u =~= seq![c]);
        assert(u.drop_last() =~= Seq::<char>::empty());
        assert(u.last() == c);
        assert(escape_js_text(u) == escape_js_text(u.drop_last()) + js_char(u.last()));
        assert(escape_js_text(Seq::<char>::empty()) == Seq::<char>::empty());
        assert(escape_js_text(u) =~= js_char(c));
        assert(js_char(c) + escape_js_text(t) =~= js_char(c));
    } else {
        lemma_escape_front(c, t.drop_last());
        assert(u.drop_last() =~= seq![c] + t.drop_last());
        assert(u.last() == t.last());
        assert(escape_js_text(u) == escape_js_text(u.drop_last()) + js_char(u.last()));
        assert(js_char(c) + escape_js_text(t.drop_last()) + js_char(t.last())
            =~= js_char(c) + (escape_js_text(t.drop_last()) + js_char(t.last())));
    }
}

/// Reading back an escaped text gives the text: the escape loses nothing.
pub proof fn law_escape_js_round_trip(s: Seq<char>)
    ensures
        js_unescape(escape_js_text(s)) == s,
    decreases s.len(),
{
    reveal_strlit("\\\\");
    reveal_strlit("\\'");
    reveal_strlit("\\n");
    reveal_strlit("\\r");
    reveal_strlit("\\t");
    if s.len() > 0 {
        let c = s[0];
        let t = s.drop_first();
        assert(s =~= seq![c] + t);
        lemma_escape_front(c, t);
        law_escape_js_round_trip(t);
        let e = js_char(c) + escape_js_text(t);
        if c == '\\' || c == '\'' || c == '\n' || c == '\r' || c == '\t' {
            assert(e[0] == '\\');
            assert(e.skip(2) =~= escape_js_text(t));
            assert(unescaped_char(e[1]) == c);
        } else {
            assert(e[0] == c);
            assert(e.skip(1) =~= escape_js_text(t));
        }
        assert(js_unescape(e) =~= seq![c] + t);
    }
}

/// How many backslashes stand right before position `i` of `r`.
pub open spec fn backslash_run(r: Seq<char>, i: int) -> nat
    decreases i,
{
    if i <= 0 || i > r.len() || r[i - 1] != '\\' {
        0
    } else {
        1 + backslash_run(r, i - 1)
    }
}

proof fn lemma_backslash_run_prefix(p: Seq<char>, q: Seq<char>, i: int)
    requires
        0 <= i <= p.len(),
    ensures
        backslash_run(p + q, i) == backslash_run(p, i),
    decreases i,
{
    if i > 0 {
        assert((p + q)[i - 1] == p[i - 1]);
        lemma_backslash_run_prefix(p, q, i - 1);
    }
}

/// An escaped text holds no raw line break, carriage return or tab, and
/// each quote in it comes after an odd number of backslashes, so that it
/// does not end the quoted string: it is safe between single quotes. It
/// also ends in an even number of backslashes.
pub proof fn law_escape_js_safe(s: Seq<char>)
    ensures
        forall|i: int| 0 <= i < escape_js_text(s).len() ==> {
            let c = #[trigger] escape_js_text(s)[i];
            c != '\n' && c != '\r' && c != '\t'
        },
        forall|i: int| 0 <= i < escape_js_text(s).len() && #[trigger] escape_js_text(s)[i] == '\'' ==> backslash_run(
            escape_js_text(s),
            i,
        ) % 2 == 1,
        backslash_run(escape_js_text(s), escape_js_text(s).len() as int) % 2 == 0,
    decreases s.len(),
{
    reveal_strlit("\\\\");
    reveal_strlit("\\'");
    reveal_strlit("\\n");
    reveal_strlit("\\r");
    reveal_strlit("\\t");
    if s.len() > 0 {
        law_escape_js_safe(s.drop_last());
        let p = escape_js_text(s.drop_last());
        let q = js_char(s.last());
        let e = escape_js_text(s);
        let n = p.len() as int;
        assert(e == p + q);
        lemma_backslash_run_prefix(p, q, n);
        assert forall|i: int| 0 <= i < e.len() implies {
            let c = #[trigger] e[i];
            c != '\n' && c != '\r' && c != '\t'
        } by {
            if i < n {
                assert(e[i] == p[i]);
            } else {
                assert(e[i] == q[i - n]);
            }
        }
        assert forall|i: int| 0 <= i < e.len() && #[trigger] e[i] == '\'' implies backslash_run(e, i) % 2 == 1 by {
            if i < n {
                assert(e[i] == p[i]);
                lemma_backslash_run_prefix(p, q, i);
            } else {
                assert(e[i] == q[i - n]);
                if i - n == 1 {
                    assert(e[n] == q[0]);
                    assert(backslash_run(e, n + 1) == 1 + backslash_run(e, n));
                }
            }
        }
        let c = s.last();
        if c == '\\' {
            assert(e[n] == '\\' && e[n + 1] == '\\');
            assert(backslash_run(e, n + 1) == 1 + backslash_run(e, n));
            assert(backslash_run(e, n + 2) == 1 + backslash_run(e, n + 1));
        } else {
            assert(e[e.len() - 1] == q[q.len() - 1]);
            assert(e[e.len() - 1] != '\\');
        }
    }
}

} // verus!
