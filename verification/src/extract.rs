//! What the HTTP browser reads out of a parsed page: title, visible text,
//! links, forms with their fields, inputs, buttons and script URLs, each in
//! document order, and whether the page is a single-page-app shell.
use vstd::prelude::*;
use crate::text::{trim, starts_with, uppercase, utf8_len, chars_of, trim_chars, string_of, starts_with_str,
    to_uppercase, push_str, str_eq};
use crate::dom::{DomNode, NodeKind, html_document, parse_html, tag_of, attr_of, attr_text, node_text, tag_name, has_tag, get_attr, find_attr,
    extract_text};
use crate::page::{Link, LinkView, Form, FormView, FormField, FieldView, Input, InputView, Button, ButtonView,
    PageResult, ApiEndpoint};
use crate::urls::{url_join, join_url};
use crate::api_discovery::{scanned_apis, apis_view, scan_js_for_apis};

verus! {

// ───────────────────────── document order ─────────────────────────

/// What `f` gives for a node and every node below it, in document order
/// (the node before its children, each child's subtree in turn).
pub open spec fn collect<T>(n: DomNode, f: spec_fn(DomNode) -> Seq<T>) -> Seq<T>
    decreases n,
{
    f(n) + collect_list(n.children@, f)
}

/// What `f` gives for every node of a list of sibling subtrees, in
/// document order.
pub open spec fn collect_list<T>(cs: Seq<DomNode>, f: spec_fn(DomNode) -> Seq<T>) -> Seq<T>
    decreases cs,
{
    if cs.len() == 0 {
        Seq::empty()
    } else {
        collect_list(cs.drop_last(), f) + collect(cs[cs.len() - 1], f)
    }
}

proof fn lemma_collect_step<T>(cs: Seq<DomNode>, i: int, f: spec_fn(DomNode) -> Seq<T>)
    requires
        0 <= i < cs.len(),
    ensures
        collect_list(cs.take(i + 1), f) == collect_list(cs.take(i), f) + collect(cs[i], f),
{
    let t = cs.take(i + 1);
    assert(t.drop_last() =~= cs.take(i));
    assert(t[t.len() - 1] == cs[i]);
}

proof fn lemma_collect_all<T>(cs: Seq<DomNode>, f: spec_fn(DomNode) -> Seq<T>)
    ensures
        collect_list(cs.take(cs.len() as int), f) == collect_list(cs, f),
{
    assert(cs.take(cs.len() as int) =~= cs);
}

// ───────────────────────── links ─────────────────────────

/// An `href` that a link list keeps: non-empty, no fragment-only
/// reference, no `javascript:` URL.
pub open spec fn followable(href: Seq<char>) -> bool {
    href.len() > 0 && !starts_with(href, "#"@) && !starts_with(href, "javascript:"@)
}

/// A reference resolved against the page URL: kept as it is when it starts
/// with `http` or when it cannot be resolved.
pub open spec fn resolve_link(href: Seq<char>, base: Seq<char>) -> Seq<char> {
    if starts_with(href, "http"@) {
        href
    } else {
        match url_join(base, href) {
            Some(u) => u,
            None => href,
        }
    }
}

/// The link an `<a>` element contributes.
pub open spec fn own_link(n: DomNode, base: Seq<char>) -> Seq<LinkView> {
    if tag_of(n) == "a"@ && followable(attr_text(n, "href"@)) {
        seq![LinkView { text: trim(node_text(n, 0)), href: resolve_link(attr_text(n, "href"@), base) }]
    } else {
        Seq::empty()
    }
}

/// The links of a page whose URL is `base`.
pub open spec fn link_fn(base: Seq<char>) -> spec_fn(DomNode) -> Seq<LinkView> {
    |n: DomNode| own_link(n, base)
}

/// The views of a list of links.
pub open spec fn link_views(v: Seq<Link>) -> Seq<LinkView> {
    v.map_values(|l: Link| l@)
}

fn resolve_link_exec(href: String, base: &str) -> (r: String)
    ensures
        r@ == resolve_link(href@, base@),
{
    let hc = chars_of(href.as_str());
    if starts_with_str(hc.as_slice(), "http") {
        href
    } else {
        match join_url(base, href.as_str()) {
            Some(u) => u,
            None => href,
        }
    }
}

fn trimmed_text(node: &DomNode) -> (r: String)
    ensures
        r@ == trim(node_text(*node, 0)),
{
    let t = extract_text(node, 0);
    let tc = chars_of(t.as_str());
    let tr = trim_chars(tc.as_slice());
    string_of(tr.as_slice())
}

fn collect_links(node: &DomNode, base: &str, out: &mut Vec<Link>)
    ensures
        link_views(final(out)@) == link_views(old(out)@) + collect(*node, link_fn(base@)),
    decreases node,
{
    if has_tag(node, "a") {
        let href = get_attr(node, "href");
        let hc = chars_of(href.as_str());
        if hc.len() > 0 && !starts_with_str(hc.as_slice(), "#") && !starts_with_str(hc.as_slice(), "javascript:") {
            let full = resolve_link_exec(href, base);
            let text = trimmed_text(node);
            out.push(Link { text, href: full });
        }
    }
    assert(link_views(out@) =~= link_views(old(out)@) + own_link(*node, base@));
    let ghost mid = link_views(out@);
    let mut i: usize = 0;
    while i < node.children.len()
        invariant
            i <= node.children@.len(),
            link_views(out@) == mid + collect_list(node.children@.take(i as int), link_fn(base@)),
        decreases node.children@.len() - i,
    {
        let ghost before = link_views(out@);
        collect_links(&node.children[i], base, out);
        proof {
            lemma_collect_step(node.children@, i as int, link_fn(base@));
            assert(link_views(out@) =~= mid + collect_list(node.children@.take(i + 1), link_fn(base@)));
        }
        i = i + 1;
    }
    proof {
        lemma_collect_all(node.children@, link_fn(base@));
        assert(collect(*node, link_fn(base@)) == link_fn(base@)(*node) + collect_list(node.children@, link_fn(base@)));
    }
}

/// The links of the page under `node`, in document order: each `<a>` with a
/// followable `href`, resolved against `base`, with its trimmed text.
pub fn extract_links(node: &DomNode, base: &str) -> (r: Vec<Link>)
    ensures
        link_views(r@) == collect(*node, link_fn(base@)),
{
    let mut links: Vec<Link> = Vec::new();
    collect_links(node, base, &mut links);
    assert(link_views(Seq::<Link>::empty()) =~= Seq::<LinkView>::empty());
    assert(Seq::<LinkView>::empty() + collect(*node, link_fn(base@)) =~= collect(*node, link_fn(base@)));
    links
}

// ───────────────────────── forms ─────────────────────────

/// A form control: `input`, `select` or `textarea`.
pub open spec fn is_field_tag(t: Seq<char>) -> bool {
    t == "input"@ || t == "select"@ || t == "textarea"@
}

/// The field a named form control contributes.
pub open spec fn own_field(n: DomNode) -> Seq<FieldView> {
    if is_field_tag(tag_of(n)) && attr_text(n, "name"@).len() > 0 {
        seq![FieldView {
            name: attr_text(n, "name"@),
            field_type: attr_text(n, "type"@),
            value: attr_text(n, "value"@),
        }]
    } else {
        Seq::empty()
    }
}

/// The named form controls of a subtree.
pub open spec fn field_fn() -> spec_fn(DomNode) -> Seq<FieldView> {
    |n: DomNode| own_field(n)
}

/// A form's method: the `method` attribute upper-cased, `GET` when that is
/// empty.
pub open spec fn form_method(raw: Seq<char>) -> Seq<char> {
    if uppercase(raw).len() == 0 {
        "GET"@
    } else {
        uppercase(raw)
    }
}

/// The form a `<form>` element contributes, with the named controls inside
/// it.
pub open spec fn own_form(n: DomNode) -> Seq<FormView> {
    if tag_of(n) == "form"@ {
        seq![FormView {
            action: attr_text(n, "action"@),
            method: form_method(attr_text(n, "method"@)),
            fields: collect(n, field_fn()),
        }]
    } else {
        Seq::empty()
    }
}

/// The forms of a subtree.
pub open spec fn form_fn() -> spec_fn(DomNode) -> Seq<FormView> {
    |n: DomNode| own_form(n)
}

/// The views of a list of fields.
pub open spec fn field_views(v: Seq<FormField>) -> Seq<FieldView> {
    v.map_values(|f: FormField| f@)
}

/// The views of a list of forms.
pub open spec fn form_views(v: Seq<Form>) -> Seq<FormView> {
    v.map_values(|f: Form| f@)
}

fn collect_fields(node: &DomNode, out: &mut Vec<FormField>)
    ensures
        field_views(final(out)@) == field_views(old(out)@) + collect(*node, field_fn()),
    decreases node,
{
    let tag = tag_name(node);
    if str_eq(tag.as_str(), "input") || str_eq(tag.as_str(), "select") || str_eq(tag.as_str(), "textarea") {
        let name = get_attr(node, "name");
        if !name.as_str().is_empty() {
            let field_type = get_attr(node, "type");
            let value = get_attr(node, "value");
            out.push(FormField { name, field_type, value });
        }
    }
    assert(field_views(out@) =~= field_views(old(out)@) + own_field(*node));
    let ghost mid = field_views(out@);
    let mut i: usize = 0;
    while i < node.children.len()
        invariant
            i <= node.children@.len(),
            field_views(out@) == mid + collect_list(node.children@.take(i as int), field_fn()),
        decreases node.children@.len() - i,
    {
        collect_fields(&node.children[i], out);
        proof {
            lemma_collect_step(node.children@, i as int, field_fn());
            assert(field_views(out@) =~= mid + collect_list(node.children@.take(i + 1), field_fn()));
        }
        i = i + 1;
    }
    proof {
        lemma_collect_all(node.children@, field_fn());
        assert(collect(*node, field_fn()) == field_fn()(*node) + collect_list(node.children@, field_fn()));
    }
}

/// The named form controls under `node` (itself included), in document
/// order.
pub fn collect_form_fields(node: &DomNode) -> (r: Vec<FormField>)
    ensures
        field_views(r@) == collect(*node, field_fn()),
{
    let mut fields: Vec<FormField> = Vec::new();
    collect_fields(node, &mut fields);
    assert(field_views(Seq::<FormField>::empty()) =~= Seq::<FieldView>::empty());
    assert(Seq::<FieldView>::empty() + collect(*node, field_fn()) =~= collect(*node, field_fn()));
    fields
}

fn collect_forms(node: &DomNode, out: &mut Vec<Form>)
    ensures
        form_views(final(out)@) == form_views(old(out)@) + collect(*node, form_fn()),
    decreases node,
{
    if has_tag(node, "form") {
        let action = get_attr(node, "action");
        let raw = get_attr(node, "method");
        let up = to_uppercase(raw.as_str());
        let method = if up.as_str().is_empty() {
            "GET".to_owned()
        } else {
            up
        };
        let fields = collect_form_fields(node);
        out.push(Form { action, method, fields });
    }
    assert(form_views(out@) =~= form_views(old(out)@) + own_form(*node));
    let ghost mid = form_views(out@);
    let mut i: usize = 0;
    while i < node.children.len()
        invariant
            i <= node.children@.len(),
            form_views(out@) == mid + collect_list(node.children@.take(i as int), form_fn()),
        decreases node.children@.len() - i,
    {
        collect_forms(&node.children[i], out);
        proof {
            lemma_collect_step(node.children@, i as int, form_fn());
            assert(form_views(out@) =~= mid + collect_list(node.children@.take(i + 1), form_fn()));
        }
        i = i + 1;
    }
    proof {
        lemma_collect_all(node.children@, form_fn());
        assert(collect(*node, form_fn()) == form_fn()(*node) + collect_list(node.children@, form_fn()));
    }
}

/// The forms under `node`, in document order, each with its action, its
/// method and its named controls.
pub fn extract_forms(node: &DomNode) -> (r: Vec<Form>)
    ensures
        form_views(r@) == collect(*node, form_fn()),
{
    let mut forms: Vec<Form> = Vec::new();
    collect_forms(node, &mut forms);
    assert(form_views(Seq::<Form>::empty()) =~= Seq::<FormView>::empty());
    assert(Seq::<FormView>::empty() + collect(*node, form_fn()) =~= collect(*node, form_fn()));
    forms
}

// ───────────────────────── inputs and buttons ─────────────────────────

/// The input an `<input>` element with a name or id contributes.
pub open spec fn own_input(n: DomNode) -> Seq<InputView> {
    if tag_of(n) == "input"@ && (attr_text(n, "name"@).len() > 0 || attr_text(n, "id"@).len() > 0) {
        seq![InputView {
            name: attr_text(n, "name"@),
            input_type: attr_text(n, "type"@),
            placeholder: attr_text(n, "placeholder"@),
            value: attr_text(n, "value"@),
            id: attr_text(n, "id"@),
        }]
    } else {
        Seq::empty()
    }
}

/// The inputs of a subtree.
pub open spec fn input_fn() -> spec_fn(DomNode) -> Seq<InputView> {
    |n: DomNode| own_input(n)
}

/// The views of a list of inputs.
pub open spec fn input_views(v: Seq<Input>) -> Seq<InputView> {
    v.map_values(|x: Input| x@)
}

fn collect_inputs(node: &DomNode, out: &mut Vec<Input>)
    ensures
        input_views(final(out)@) == input_views(old(out)@) + collect(*node, input_fn()),
    decreases node,
{
    if has_tag(node, "input") {
        let name = get_attr(node, "name");
        let id = get_attr(node, "id");
        if !name.as_str().is_empty() || !id.as_str().is_empty() {
            let input_type = get_attr(node, "type");
            let placeholder = get_attr(node, "placeholder");
            let value = get_attr(node, "value");
            out.push(Input { name, input_type, placeholder, value, id });
        }
    }
    assert(input_views(out@) =~= input_views(old(out)@) + own_input(*node));
    let ghost mid = input_views(out@);
    let mut i: usize = 0;
    while i < node.children.len()
        invariant
            i <= node.children@.len(),
            input_views(out@) == mid + collect_list(node.children@.take(i as int), input_fn()),
        decreases node.children@.len() - i,
    {
        collect_inputs(&node.children[i], out);
        proof {
            lemma_collect_step(node.children@, i as int, input_fn());
            assert(input_views(out@) =~= mid + collect_list(node.children@.take(i + 1), input_fn()));
        }
        i = i + 1;
    }
    proof {
        lemma_collect_all(node.children@, input_fn());
        assert(collect(*node, input_fn()) == input_fn()(*node) + collect_list(node.children@, input_fn()));
    }
}

/// The `<input>` elements under `node` that have a name or an id, in
/// document order.
pub fn extract_inputs(node: &DomNode) -> (r: Vec<Input>)
    ensures
        input_views(r@) == collect(*node, input_fn()),
{
    let mut inputs: Vec<Input> = Vec::new();
    collect_inputs(node, &mut inputs);
    assert(input_views(Seq::<Input>::empty()) =~= Seq::<InputView>::empty());
    assert(Seq::<InputView>::empty() + collect(*node, input_fn()) =~= collect(*node, input_fn()));
    inputs
}

/// A `<button>`, or an `<input>` of type `submit` or `button`.
pub open spec fn is_button(n: DomNode) -> bool {
    tag_of(n) == "button"@ || (tag_of(n) == "input"@ && (attr_text(n, "type"@) == "submit"@ || attr_text(
        n,
        "type"@,
    ) == "button"@))
}

/// The button a node contributes: a `<button>` labelled by its trimmed
/// text, an input button by its value.
pub open spec fn own_button(n: DomNode) -> Seq<ButtonView> {
    if is_button(n) {
        seq![ButtonView {
            text: if tag_of(n) == "button"@ { trim(node_text(n, 0)) } else { attr_text(n, "value"@) },
            button_type: attr_text(n, "type"@),
            name: attr_text(n, "name"@),
        }]
    } else {
        Seq::empty()
    }
}

/// The buttons of a subtree.
pub open spec fn button_fn() -> spec_fn(DomNode) -> Seq<ButtonView> {
    |n: DomNode| own_button(n)
}

/// The views of a list of buttons.
pub open spec fn button_views(v: Seq<Button>) -> Seq<ButtonView> {
    v.map_values(|x: Button| x@)
}

fn collect_buttons(node: &DomNode, out: &mut Vec<Button>)
    ensures
        button_views(final(out)@) == button_views(old(out)@) + collect(*node, button_fn()),
    decreases node,
{
    let tag = tag_name(node);
    let is_button_tag = str_eq(tag.as_str(), "button");
    if is_button_tag || (str_eq(tag.as_str(), "input") && {
        let t = get_attr(node, "type");
        str_eq(t.as_str(), "submit") || str_eq(t.as_str(), "button")
    }) {
        let text = if is_button_tag {
            trimmed_text(node)
        } else {
            get_attr(node, "value")
        };
        let button_type = get_attr(node, "type");
        let name = get_attr(node, "name");
        out.push(Button { text, button_type, name });
    }
    assert(button_views(out@) =~= button_views(old(out)@) + own_button(*node));
    let ghost mid = button_views(out@);
    let mut i: usize = 0;
    while i < node.children.len()
        invariant
            i <= node.children@.len(),
            button_views(out@) == mid + collect_list(node.children@.take(i as int), button_fn()),
        decreases node.children@.len() - i,
    {
        collect_buttons(&node.children[i], out);
        proof {
            lemma_collect_step(node.children@, i as int, button_fn());
            assert(button_views(out@) =~= mid + collect_list(node.children@.take(i + 1), button_fn()));
        }
        i = i + 1;
    }
    proof {
        lemma_collect_all(node.children@, button_fn());
        assert(collect(*node, button_fn()) == button_fn()(*node) + collect_list(node.children@, button_fn()));
    }
}

/// The buttons under `node`, in document order: `<button>` elements with
/// their trimmed text, and inputs of type `submit` or `button` with their
/// value.
pub fn extract_buttons(node: &DomNode) -> (r: Vec<Button>)
    ensures
        button_views(r@) == collect(*node, button_fn()),
{
    let mut buttons: Vec<Button> = Vec::new();
    collect_buttons(node, &mut buttons);
    assert(button_views(Seq::<Button>::empty()) =~= Seq::<ButtonView>::empty());
    assert(Seq::<ButtonView>::empty() + collect(*node, button_fn()) =~= collect(*node, button_fn()));
    buttons
}

// ───────────────────────── scripts ─────────────────────────

/// A script's `src` made absolute: kept when it starts with `http`, given
/// the `https:` scheme when protocol-relative, else resolved against the
/// page URL (kept as it is when that fails).
pub open spec fn script_url(src: Seq<char>, base: Seq<char>) -> Seq<char> {
    if starts_with(src, "http"@) {
        src
    } else if starts_with(src, "//"@) {
        "https:"@ + src
    } else {
        match url_join(base, src) {
            Some(u) => u,
            None => src,
        }
    }
}

/// The URL a `<script src>` element contributes.
pub open spec fn own_script(n: DomNode, base: Seq<char>) -> Seq<Seq<char>> {
    if tag_of(n) == "script"@ {
        match attr_of(n, "src"@) {
            Some(src) => seq![script_url(src, base)],
            None => Seq::empty(),
        }
    } else {
        Seq::empty()
    }
}

/// The script URLs of a page whose URL is `base`.
pub open spec fn script_fn(base: Seq<char>) -> spec_fn(DomNode) -> Seq<Seq<char>> {
    |n: DomNode| own_script(n, base)
}

/// The texts of a list of strings.
pub open spec fn texts(v: Seq<String>) -> Seq<Seq<char>> {
    v.map_values(|s: String| s@)
}

fn collect_scripts(node: &DomNode, base: &str, out: &mut Vec<String>)
    ensures
        texts(final(out)@) == texts(old(out)@) + collect(*node, script_fn(base@)),
    decreases node,
{
    if has_tag(node, "script") {
        match find_attr(node, "src") {
            Some(src) => {
                let sc = chars_of(src.as_str());
                let full = if starts_with_str(sc.as_slice(), "http") {
                    src
                } else if starts_with_str(sc.as_slice(), "//") {
                    let mut f = String::new();
                    push_str(&mut f, "https:");
                    push_str(&mut f, src.as_str());
                    f
                } else {
                    match join_url(base, src.as_str()) {
                        Some(u) => u,
                        None => src,
                    }
                };
                out.push(full);
            },
            None => {},
        }
    }
    assert(texts(out@) =~= texts(old(out)@) + own_script(*node, base@));
    let ghost mid = texts(out@);
    let mut i: usize = 0;
    while i < node.children.len()
        invariant
            i <= node.children@.len(),
            texts(out@) == mid + collect_list(node.children@.take(i as int), script_fn(base@)),
        decreases node.children@.len() - i,
    {
        collect_scripts(&node.children[i], base, out);
        proof {
            lemma_collect_step(node.children@, i as int, script_fn(base@));
            assert(texts(out@) =~= mid + collect_list(node.children@.take(i + 1), script_fn(base@)));
        }
        i = i + 1;
    }
    proof {
        lemma_collect_all(node.children@, script_fn(base@));
        assert(collect(*node, script_fn(base@)) == script_fn(base@)(*node) + collect_list(node.children@, script_fn(base@)));
    }
}

/// The `src` URLs of the `<script>` elements under `node`, in document
/// order, made absolute against `base`.
pub fn extract_script_urls(node: &DomNode, base: &str) -> (r: Vec<String>)
    ensures
        texts(r@) == collect(*node, script_fn(base@)),
{
    let mut urls: Vec<String> = Vec::new();
    collect_scripts(node, base, &mut urls);
    assert(texts(Seq::<String>::empty()) =~= Seq::<Seq<char>>::empty());
    assert(Seq::<Seq<char>>::empty() + collect(*node, script_fn(base@)) =~= collect(*node, script_fn(base@)));
    urls
}

// ───────────────────────── title ─────────────────────────

/// The text of the first text node among siblings.
pub open spec fn first_text_child(cs: Seq<DomNode>) -> Option<Seq<char>>
    decreases cs.len(),
{
    if cs.len() == 0 {
        None
    } else {
        match cs[0].kind {
            NodeKind::Text { text } => Some(text@),
            _ => first_text_child(cs.drop_first()),
        }
    }
}

/// The page title under a node: the first text child of the first
/// `<title>` element, in document order, that has one.
pub open spec fn find_title(n: DomNode) -> Option<Seq<char>>
    decreases n,
{
    if tag_of(n) == "title"@ && first_text_child(n.children@) is Some {
        first_text_child(n.children@)
    } else {
        find_title_list(n.children@)
    }
}

/// The first title found among sibling subtrees, in order.
pub open spec fn find_title_list(cs: Seq<DomNode>) -> Option<Seq<char>>
    decreases cs,
{
    if cs.len() == 0 {
        None
    } else {
        match find_title_list(cs.drop_last()) {
            Some(t) => Some(t),
            None => find_title(cs[cs.len() - 1]),
        }
    }
}

fn first_text(cs: &Vec<DomNode>) -> (r: Option<String>)
    ensures
        r matches Some(t) ==> first_text_child(cs@) == Some(t@),
        r is None ==> first_text_child(cs@) is None,
{
    let mut i: usize = 0;
    assert(cs@.skip(0) =~= cs@);
    while i < cs.len()
        invariant
            i <= cs@.len(),
            first_text_child(cs@.skip(i as int)) == first_text_child(cs@),
        decreases cs@.len() - i,
    {
        assert(cs@.skip(i as int).drop_first() =~= cs@.skip(i + 1));
        assert(cs@.skip(i as int)[0] == cs@[i as int]);
        match &cs[i].kind {
            NodeKind::Text { text } => {
                return Some(text.clone());
            },
            _ => {},
        }
        i = i + 1;
    }
    assert(cs@.skip(i as int).len() == 0);
    None
}

fn title_in(node: &DomNode) -> (r: Option<String>)
    ensures
        r matches Some(t) ==> find_title(*node) == Some(t@),
        r is None ==> find_title(*node) is None,
    decreases node,
{
    if has_tag(node, "title") {
        match first_text(&node.children) {
            Some(t) => {
                return Some(t);
            },
            None => {},
        }
    }
    assert(find_title(*node) == find_title_list(node.children@));
    let mut i: usize = 0;
    while i < node.children.len()
        invariant
            i <= node.children@.len(),
            find_title(*node) == find_title_list(node.children@),
            find_title_list(node.children@.take(i as int)) is None,
        decreases node.children@.len() - i,
    {
        proof {
            let t = node.children@.take(i + 1);
            assert(t.drop_last() =~= node.children@.take(i as int));
            assert(t[t.len() - 1] == node.children@[i as int]);
        }
        match title_in(&node.children[i]) {
            Some(found) => {
                proof {
                    let cs = node.children@;
                    let k = i as int;
                    assert(find_title_list(cs.take(k + 1)) == Some(found@));
                    lemma_title_list_prefix(cs, k + 1);
                }
                return Some(found);
            },
            None => {},
        }
        i = i + 1;
    }
    assert(node.children@.take(node.children@.len() as int) =~= node.children@);
    None
}

proof fn lemma_title_list_prefix(cs: Seq<DomNode>, k: int)
    requires
        0 <= k <= cs.len(),
        find_title_list(cs.take(k)) is Some,
    ensures
        find_title_list(cs) == find_title_list(cs.take(k)),
    decreases cs.len() - k,
{
    if k < cs.len() {
        let t = cs.take(k + 1);
        assert(t.drop_last() =~= cs.take(k));
        lemma_title_list_prefix(cs, k + 1);
    } else {
        assert(cs.take(k) =~= cs);
    }
}

/// The page title: the first text of the first `<title>` with text, empty
/// when there is none.
pub fn extract_title(document: &DomNode) -> (r: String)
    ensures
        r@ == match find_title(*document) {
            Some(t) => t,
            None => Seq::empty(),
        },
{
    match title_in(document) {
        Some(t) => t,
        None => String::new(),
    }
}

// ───────────────────────── the page ─────────────────────────

/// A single-page-app shell: a large HTML document (over 3000 bytes) whose
/// visible text is under 200 bytes once trimmed, with no inputs and no
/// buttons.
pub open spec fn spa_shell(text: Seq<char>, html_bytes: nat, inputs: nat, buttons: nat) -> bool {
    utf8_len(trim(text)) < 200 && html_bytes > 3000 && inputs == 0 && buttons == 0
}

/// The title a document gives: its first title text, or empty text.
pub open spec fn title_text(document: DomNode) -> Seq<char> {
    match find_title(document) {
        Some(t) => t,
        None => Seq::empty(),
    }
}

/// What every page read states of its result: the URL and status it came
/// with, the title, text, links (resolved against the URL), forms, inputs
/// and buttons of the document, and the size of the HTML.
pub open spec fn page_parts(p: PageResult, url: Seq<char>, status: u16, html: Seq<char>, document: DomNode) -> bool {
    &&& p.url@ == url
    &&& p.status == status
    &&& p.title@ == title_text(document)
    &&& p.text@ == node_text(document, 0)
    &&& link_views(p.links@) == collect(document, link_fn(url))
    &&& form_views(p.forms@) == collect(document, form_fn())
    &&& input_views(p.inputs@) == collect(document, input_fn())
    &&& button_views(p.buttons@) == collect(document, button_fn())
    &&& p.html_len == utf8_len(html)
}

/// The page a navigation loaded: `document` is the parsed `html` served at
/// `url` with `status`. A single-page-app shell is flagged and gets no
/// endpoints here (its scripts are fetched and scanned next); any other
/// page gets the endpoints found in its inline HTML.
pub fn read_page(url: String, status: u16, html: &str, document: &DomNode) -> (p: PageResult)
    requires
        *document == html_document(html@),
    ensures
        page_parts(p, url@, status, html@, *document),
        p.is_spa == spa_shell(node_text(*document, 0), utf8_len(html@), p.inputs@.len(), p.buttons@.len()),
        p.is_spa ==> p.apis@.len() == 0,
        !p.is_spa ==> apis_view(p.apis@) == scanned_apis(html@, "inline"@),
{
    let title = extract_title(document);
    let text = extract_text(document, 0);
    let links = extract_links(document, url.as_str());
    let forms = extract_forms(document);
    let inputs = extract_inputs(document);
    let buttons = extract_buttons(document);
    let html_len = html.len();
    let tc = chars_of(text.as_str());
    let trimmed = string_of(trim_chars(tc.as_slice()).as_slice());
    let is_spa = trimmed.as_str().len() < 200 && html_len > 3000 && inputs.len() == 0 && buttons.len() == 0;
    proof {
        assert(input_views(inputs@).len() == inputs@.len());
    }
    let apis = if is_spa {
        Vec::new()
    } else {
        scan_js_for_apis(html, "inline")
    };
    PageResult { url, status, title, text, links, forms, inputs, buttons, apis, html_len, is_spa }
}

/// The page a form submission loaded: as `read_page`, never flagged as a
/// single-page-app shell and with no endpoints.
pub fn read_posted_page(url: String, status: u16, html: &str, document: &DomNode) -> (p: PageResult)
    requires
        *document == html_document(html@),
    ensures
        page_parts(p, url@, status, html@, *document),
        !p.is_spa,
        p.apis@.len() == 0,
{
    let title = extract_title(document);
    let text = extract_text(document, 0);
    let links = extract_links(document, url.as_str());
    let forms = extract_forms(document);
    let inputs = extract_inputs(document);
    let buttons = extract_buttons(document);
    let html_len = html.len();
    PageResult { url, status, title, text, links, forms, inputs, buttons, apis: Vec::new(), html_len, is_spa: false }
}

/// Parses the HTML served at `url` with `status` and reads the page from
/// its document tree, as `read_page` does.
pub fn read_html_page(url: String, status: u16, html: &str) -> (p: PageResult)
    ensures
        page_parts(p, url@, status, html@, html_document(html@)),
        p.is_spa == spa_shell(node_text(html_document(html@), 0), utf8_len(html@), p.inputs@.len(), p.buttons@.len()),
        p.is_spa ==> p.apis@.len() == 0,
        !p.is_spa ==> apis_view(p.apis@) == scanned_apis(html@, "inline"@),
{
    let document = parse_html(html);
    read_page(url, status, html, &document)
}

/// Parses the HTML that a form submission loaded and reads the page from
/// its document tree, as `read_posted_page` does.
pub fn read_posted_html_page(url: String, status: u16, html: &str) -> (p: PageResult)
    ensures
        page_parts(p, url@, status, html@, html_document(html@)),
        !p.is_spa,
        p.apis@.len() == 0,
{
    let document = parse_html(html);
    read_posted_page(url, status, html, &document)
}

proof fn lemma_collect_list_has<T>(cs: Seq<DomNode>, k: int, f: spec_fn(DomNode) -> Seq<T>, x: T)
    requires
        0 <= k < cs.len(),
        collect(cs[k], f).contains(x),
    ensures
        collect_list(cs, f).contains(x),
    decreases cs.len(),
{
    let rest = collect_list(cs.drop_last(), f);
    let last = collect(cs[cs.len() - 1], f);
    assert(collect_list(cs, f) == rest + last);
    if k == cs.len() - 1 {
        let j = choose|j: int| 0 <= j < last.len() && last[j] == x;
        assert((rest + last)[rest.len() + j] == x);
    } else {
        assert(cs.drop_last()[k] == cs[k]);
        lemma_collect_list_has(cs.drop_last(), k, f, x);
        let j = choose|j: int| 0 <= j < rest.len() && rest[j] == x;
        assert((rest + last)[j] == x);
    }
}

/// A form control is an `input`, `select` or `textarea` element: a named
/// one is a field, with its name, type and value; an element of any other
/// tag, or an unnamed control, is none.
pub proof fn law_form_controls_are_fields(n: DomNode)
    ensures
        (tag_of(n) == "input"@ || tag_of(n) == "select"@ || tag_of(n) == "textarea"@) && attr_text(n, "name"@).len() > 0
            ==> own_field(n) == seq![FieldView {
            name: attr_text(n, "name"@),
            field_type: attr_text(n, "type"@),
            value: attr_text(n, "value"@),
        }],
        !(tag_of(n) == "input"@ || tag_of(n) == "select"@ || tag_of(n) == "textarea"@) ==> own_field(n).len() == 0,
        attr_text(n, "name"@).len() == 0 ==> own_field(n).len() == 0,
{
}

/// Every named `input`, `select` or `textarea` directly inside a `<form>`
/// is one of that form's fields.
pub proof fn law_form_lists_named_controls(form: DomNode, k: int)
    requires
        tag_of(form) == "form"@,
        0 <= k < form.children@.len(),
        tag_of(form.children@[k]) == "input"@ || tag_of(form.children@[k]) == "select"@ || tag_of(form.children@[k])
            == "textarea"@,
        attr_text(form.children@[k], "name"@).len() > 0,
    ensures
        own_form(form).len() == 1,
        own_form(form)[0].fields.contains(
            FieldView {
                name: attr_text(form.children@[k], "name"@),
                field_type: attr_text(form.children@[k], "type"@),
                value: attr_text(form.children@[k], "value"@),
            },
        ),
{
    let c = form.children@[k];
    let x = FieldView {
        name: attr_text(c, "name"@),
        field_type: attr_text(c, "type"@),
        value: attr_text(c, "value"@),
    };
    let f = field_fn();
    assert(f(c) == own_field(c));
    assert(own_field(c) == seq![x]);
    assert(collect(c, f) == own_field(c) + collect_list(c.children@, f));
    assert(collect(c, f)[0] == x);
    lemma_collect_list_has(form.children@, k, f, x);
    let whole = collect(form, f);
    let lst = collect_list(form.children@, f);
    assert(whole == f(form) + lst);
    let j = choose|j: int| 0 <= j < lst.len() && lst[j] == x;
    assert(whole[f(form).len() + j] == x);
}

} // verus!
