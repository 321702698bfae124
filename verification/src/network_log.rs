//! The network log kept by the page's fetch interceptor: its entries, and
//! the script that reads them.
use vstd::prelude::*;
use crate::text::{chars_of, push_str, push_char};

verus! {

/// A request logged by the fetch interceptor.
#[derive(Debug, Clone)]
pub struct NetworkEntry {
    pub method: String,
    pub url: String,
    pub status: u16,
    pub size: usize,
    pub duration_ms: u64,
}

/// How one char of a filter is written inside a double-quoted script
/// argument: backslash and double quote get a backslash escape.
pub open spec fn filter_char(c: char) -> Seq<char> {
    if c == '\\' {
        "\\\\"@
    } else if c == '"' {
        "\\\""@
    } else {
        seq![c]
    }
}

/// A filter escaped for a double-quoted script argument.
pub open spec fn escape_filter(s: Seq<char>) -> Seq<char>
    decreases s.len(),
{
    if s.len() == 0 {
        Seq::empty()
    } else {
        escape_filter(s.drop_last()) + filter_char(s.last())
    }
}

/// The script that reads the log: `globalThis.__neo_get_network_log()`,
/// with the escaped filter in double quotes when there is one.
pub open spec fn network_log_script_text(filter: Option<Seq<char>>) -> Seq<char> {
    match filter {
        Some(f) => "globalThis.__neo_get_network_log(\""@ + escape_filter(f) + "\")"@,
        None => "globalThis.__neo_get_network_log()"@,
    }
}

/// The script that reads the network log, keeping the entries that match
/// `filter` when one is given.
pub fn network_log_script(filter: Option<&str>) -> (js: String)
    ensures
        js@ == network_log_script_text(match filter { Some(f) => Some(f@), None => None }),
{
    match filter {
        Some(f) => {
            let cs = chars_of(f);
            let mut s = String::new();
            push_str(&mut s, "globalThis.__neo_get_network_log(\"");
            let ghost start = s@;
            let mut i: usize = 0;
            while i < cs.len()
                invariant
                    i <= cs@.len(),
                    cs@ == f@,
                    s@ == start + escape_filter(cs@.take(i as int)),
                decreases cs@.len() - i,
            {
                let c = cs[i];
                if c == '\\' {
                    push_str(&mut s, "\\\\");
                } else if c == '"' {
                    push_str(&mut s, "\\\"");
                } else {
                    push_char(&mut s, c);
                }
                assert(cs@.take(i + 1).drop_last() =~= cs@.take(i as int));
                i = i + 1;
            }
            assert(cs@.take(cs@.len() as int) =~= cs@);
            push_str(&mut s, "\")");
            s
        },
        None => "globalThis.__neo_get_network_log()".to_owned(),
    }
}

} // verus!
