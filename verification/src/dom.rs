//! The document tree of a parsed HTML page, and the reads the page
//! extraction is built from: tag names, attributes and visible text.
//!
//! `html5ever` parses the HTML; its tree is copied node for node into
//! `DomNode` values, which everything else here reads.
use vstd::prelude::*;
use html5ever::parse_document;
use html5ever::tendril::TendrilSink;
use markup5ever_rcdom::{Handle, NodeData, RcDom};
use markup5ever_rcdom::Node as RcdomNode;
use crate::text::{trim, str_eq, chars_of, trim_chars, push_chars, push_str, push_char};

verus! {

/// What a node of the document tree is.
pub enum NodeKind {
    /// The document root.
    Document,
    /// A `<!DOCTYPE>`.
    Doctype,
    /// A text node with its text.
    Text { text: String },
    /// A comment with its text.
    Comment { text: String },
    /// An element: its local tag name and its attributes (local name and
    /// value) in document order.
    Element { tag: String, attrs: Vec<(String, String)> },
    /// A processing instruction.
    ProcessingInstruction,
}

/// A node of the document tree with its children in document order.
pub struct DomNode {
    pub kind: NodeKind,
    pub children: Vec<DomNode>,
}

/// A node of the `markup5ever_rcdom` tree, carried opaquely.
#[verifier::external_type_specification]
#[verifier::external_body]
pub struct ExRcdomNode(RcdomNode);

/// An attribute of an `html5ever` element, carried opaquely.
#[verifier::external_type_specification]
#[verifier::external_body]
pub struct ExHtmlAttribute(html5ever::Attribute);

/// The document tree that `html5ever::parse_document` builds for `html`
/// (into `markup5ever_rcdom`), node for node; the contents of `<template>`
/// elements are not part of it.
pub uninterp spec fn html_document(html: Seq<char>) -> DomNode;

/// `html5ever::parse_document` into an `RcDom`, read from the bytes of
/// `html`; the tree is named `html_document`. Reading the bytes of a text
/// never fails (`read_from` reports only the reader's I/O errors, and a
/// byte slice has none), so the result is always `Ok`.
#[verifier::external_body]
fn parse_rcdom(html: &str) -> (r: Result<DomNode, String>)
    ensures
        r is Ok,
        r matches Ok(d) ==> d == html_document(html@),
{
    match parse_document(RcDom::default(), Default::default()).from_utf8().read_from(&mut html.as_bytes()) {
        Ok(dom) => Ok(copy_node(&dom.document)),
        Err(e) => Err(e.to_string()),
    }
}

/// The document tree of an HTML text, as the HTML5 parsing algorithm builds
/// it.
pub fn parse_html(html: &str) -> (d: DomNode)
    ensures
        d == html_document(html@),
{
    match parse_rcdom(html) {
        Ok(d) => d,
        Err(_) => {
            proof {
                assert(false);
            }
            DomNode { kind: NodeKind::Document, children: Vec::new() }
        },
    }
}

/// Copies an `rcdom` node and its children into a `DomNode`.
#[verifier::external_body]
fn copy_node(node: &Handle) -> DomNode {
    let kind = match &node.data {
        NodeData::Document => NodeKind::Document,
        NodeData::Doctype { .. } => NodeKind::Doctype,
        NodeData::Text { contents } => NodeKind::Text { text: contents.borrow().to_string() },
        NodeData::Comment { contents } => NodeKind::Comment { text: contents.to_string() },
        NodeData::Element { name, attrs, .. } => NodeKind::Element { tag: name.local.to_string(), attrs: copy_attrs(&attrs.borrow()) },
        NodeData::ProcessingInstruction { .. } => NodeKind::ProcessingInstruction,
    };
    let children = node.children.borrow().iter().map(copy_node).collect();
    DomNode { kind, children }
}

/// Copies `rcdom` attributes as local name and value pairs.
#[verifier::external_body]
fn copy_attrs(attrs: &Vec<html5ever::Attribute>) -> Vec<(String, String)> {
    attrs.iter().map(|a| (a.name.local.to_string(), a.value.to_string())).collect()
}

// ───────────────────────── tags and attributes ─────────────────────────

/// The local tag name of an element; empty for other nodes.
pub open spec fn tag_of(n: DomNode) -> Seq<char> {
    match n.kind {
        NodeKind::Element { tag, .. } => tag@,
        _ => Seq::empty(),
    }
}

/// The value of the first attribute of the given name.
pub open spec fn attr_in(attrs: Seq<(String, String)>, name: Seq<char>) -> Option<Seq<char>>
    decreases attrs.len(),
{
    if attrs.len() == 0 {
        None
    } else if attrs[0].0@ == name {
        Some(attrs[0].1@)
    } else {
        attr_in(attrs.drop_first(), name)
    }
}

/// The value of an element's attribute of the given name.
pub open spec fn attr_of(n: DomNode, name: Seq<char>) -> Option<Seq<char>> {
    match n.kind {
        NodeKind::Element { attrs, .. } => attr_in(attrs@, name),
        _ => None,
    }
}

/// An attribute's value, or empty text when the node has no such attribute.
pub open spec fn attr_text(n: DomNode, name: Seq<char>) -> Seq<char> {
    match attr_of(n, name) {
        Some(v) => v,
        None => Seq::empty(),
    }
}

/// The tag name of a node: its local name for an element, else empty.
pub fn tag_name(node: &DomNode) -> (r: String)
    ensures
        r@ == tag_of(*node),
{
    match &node.kind {
        NodeKind::Element { tag, .. } => tag.clone(),
        _ => String::new(),
    }
}

/// Whether the node is an element with the given tag name.
pub fn has_tag(node: &DomNode, tag: &str) -> (r: bool)
    ensures
        r == (tag_of(*node) == tag@),
{
    let t = tag_name(node);
    str_eq(t.as_str(), tag)
}

/// The value of the first attribute of the given name, if any.
pub fn find_attr(node: &DomNode, name: &str) -> (r: Option<String>)
    ensures
        r matches Some(v) ==> attr_of(*node, name@) == Some(v@),
        r is None ==> attr_of(*node, name@) is None,
{
    match &node.kind {
        NodeKind::Element { attrs, .. } => {
            let mut i: usize = 0;
            assert(attrs@.skip(0) =~= attrs@);
            assert(attr_of(*node, name@) == attr_in(attrs@, name@));
            while i < attrs.len()
                invariant
                    i <= attrs@.len(),
                    attr_of(*node, name@) == attr_in(attrs@, name@),
                    attr_in(attrs@.skip(i as int), name@) == attr_in(attrs@, name@),
                decreases attrs@.len() - i,
            {
                assert(attrs@.skip(i as int).drop_first() =~= attrs@.skip(i + 1));
                assert(attrs@.skip(i as int)[0] == attrs@[i as int]);
                if str_eq(attrs[i].0.as_str(), name) {
                    assert(attr_in(attrs@.skip(i as int), name@) == Some(attrs@[i as int].1@));
                    let v = attrs[i].1.clone();
                    assert(v@ == attrs@[i as int].1@);
                    return Some(v);
                }
                i = i + 1;
            }
            assert(attrs@.skip(i as int).len() == 0);
            None
        },
        _ => None,
    }
}

/// The value of the attribute of the given name; empty when the node has
/// none.
pub fn get_attr(node: &DomNode, name: &str) -> (r: String)
    ensures
        r@ == attr_text(*node, name@),
{
    match find_attr(node, name) {
        Some(v) => v,
        None => String::new(),
    }
}

// ───────────────────────── visible text ─────────────────────────

/// Elements whose content is not shown.
pub open spec fn is_hidden_tag(t: Seq<char>) -> bool {
    t == "script"@ || t == "style"@ || t == "noscript"@ || t == "svg"@ || t == "head"@
}

/// Block elements, after which the text gets a line break.
pub open spec fn is_block_tag(t: Seq<char>) -> bool {
    t == "p"@ || t == "div"@ || t == "h1"@ || t == "h2"@ || t == "h3"@ || t == "h4"@ || t == "h5"@
        || t == "h6"@ || t == "li"@ || t == "tr"@ || t == "br"@ || t == "hr"@
}

/// A text node's own contribution: its trimmed text and a space, nothing
/// when that is empty.
pub open spec fn own_text(n: DomNode) -> Seq<char> {
    match n.kind {
        NodeKind::Text { text } => if trim(text@).len() == 0 {
            Seq::empty()
        } else {
            trim(text@).push(' ')
        },
        _ => Seq::empty(),
    }
}

/// The visible text of a node at the given depth: nothing below depth 50
/// or inside a hidden element; else its own text, its children's text, and
/// a line break after a block element.
pub open spec fn node_text(n: DomNode, depth: nat) -> Seq<char>
    decreases n,
{
    if depth > 50 || is_hidden_tag(tag_of(n)) {
        Seq::empty()
    } else {
        own_text(n) + children_text(n.children@, depth + 1) + (if is_block_tag(tag_of(n)) {
            "\n"@
        } else {
            Seq::empty()
        })
    }
}

/// The visible text of a list of sibling nodes.
pub open spec fn children_text(cs: Seq<DomNode>, depth: nat) -> Seq<char>
    decreases cs,
{
    if cs.len() == 0 {
        Seq::empty()
    } else {
        children_text(cs.drop_last(), depth) + node_text(cs[cs.len() - 1], depth)
    }
}

fn is_hidden_tag_exec(t: &str) -> (r: bool)
    ensures
        r == is_hidden_tag(t@),
{
    str_eq(t, "script") || str_eq(t, "style") || str_eq(t, "noscript") || str_eq(t, "svg") || str_eq(t, "head")
}

fn is_block_tag_exec(t: &str) -> (r: bool)
    ensures
        r == is_block_tag(t@),
{
    str_eq(t, "p") || str_eq(t, "div") || str_eq(t, "h1") || str_eq(t, "h2") || str_eq(t, "h3") || str_eq(t, "h4")
        || str_eq(t, "h5") || str_eq(t, "h6") || str_eq(t, "li") || str_eq(t, "tr") || str_eq(t, "br") || str_eq(t, "hr")
}

/// The visible text of a node: trimmed text nodes each followed by a space,
/// a line break after each block element, nothing from `script`, `style`,
/// `noscript`, `svg` or `head`, and nothing deeper than 50 levels below
/// `depth`.
pub fn extract_text(node: &DomNode, depth: usize) -> (r: String)
    ensures
        r@ == node_text(*node, depth as nat),
    decreases node,
{
    if depth > 50 {
        return String::new();
    }
    let tag = tag_name(node);
    if is_hidden_tag_exec(tag.as_str()) {
        return String::new();
    }
    let mut text = String::new();
    match &node.kind {
        NodeKind::Text { text: t } => {
            let cs = chars_of(t.as_str());
            let tr = trim_chars(cs.as_slice());
            if tr.len() > 0 {
                push_chars(&mut text, tr.as_slice());
                push_char(&mut text, ' ');
            }
        },
        _ => {},
    }
    assert(text@ =~= own_text(*node));
    let ghost own = text@;
    let mut i: usize = 0;
    while i < node.children.len()
        invariant
            depth <= 50,
            i <= node.children@.len(),
            text@ == own + children_text(node.children@.take(i as int), (depth + 1) as nat),
        decreases node.children@.len() - i,
    {
        let sub = extract_text(&node.children[i], depth + 1);
        push_str(&mut text, sub.as_str());
        proof {
            let cs = node.children@.take(i + 1);
            assert(cs.drop_last() =~= node.children@.take(i as int));
            assert(cs[cs.len() - 1] == node.children@[i as int]);
            assert(text@ =~= own + children_text(cs, (depth + 1) as nat));
        }
        i = i + 1;
    }
    assert(node.children@.take(node.children@.len() as int) =~= node.children@);
    if is_block_tag_exec(tag.as_str()) {
        push_str(&mut text, "\n");
    }
    proof {
        if !is_block_tag(tag_of(*node)) {
            assert(text@ =~= node_text(*node, depth as nat));
        }
    }
    text
}

} // verus!
