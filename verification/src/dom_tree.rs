//! Reading the DOM tree, its mutations and its diff out of the page's
//! script engine: the call that gives the tree, and the reading of what a
//! call (`__neo_dom_tree`, `__neo_get_mutations` or `__neo_get_diff`)
//! gave.
use vstd::prelude::*;
use crate::text::{decimal, push_str, push_decimal};
use crate::json::{parse_json, JsonValue, json_view, json_document};
use crate::text::text_or;

verus! {

/// The call that gives the DOM tree as JSON, to the given depth (50 when
/// none is given).
pub open spec fn dom_tree_call(max_depth: Option<u32>) -> Seq<char> {
    "__neo_dom_tree("@ + decimal(match max_depth { Some(d) => d as nat, None => 50 }) + ")"@
}

/// The script call that gives the DOM tree.
pub fn dom_tree_expression(max_depth: Option<u32>) -> (r: String)
    ensures
        r@ == dom_tree_call(max_depth),
{
    let depth: u32 = match max_depth {
        Some(d) => d,
        None => 50,
    };
    let mut r = String::new();
    push_str(&mut r, "__neo_dom_tree(");
    push_decimal(&mut r, depth as u64);
    push_str(&mut r, ")");
    r
}

/// The value a script call gave: its text parsed as JSON, where a result
/// that has no text reads as `fallback`; a text that is no JSON gives
/// `{what} JSON parse error: ` and the parser's message.
pub fn script_result(text: Option<String>, fallback: &str, what: &str) -> (r: Result<JsonValue, String>)
    ensures
        r matches Ok(v) ==> json_document(text_or(text, fallback@)) == Some(json_view(v)),
        r is Err <==> json_document(text_or(text, fallback@)) is None,
        r matches Err(e) ==> e@.len() >= what@.len() + " JSON parse error: "@.len()
            && e@.subrange(0, what@.len() + " JSON parse error: "@.len() as int) == what@ + " JSON parse error: "@,
{
    let t = match text {
        Some(t) => t,
        None => fallback.to_owned(),
    };
    match parse_json(t.as_str()) {
        Ok(v) => Ok(v),
        Err(m) => {
            let mut e = String::new();
            push_str(&mut e, what);
            push_str(&mut e, " JSON parse error: ");
            let ghost p = e@;
            push_str(&mut e, m.as_str());
            proof {
                reveal_strlit(" JSON parse error: ");
                assert(e@.subrange(0, p.len() as int) =~= p);
            }
            Err(e)
        },
    }
}

} // verus!
