//! Starting Chrome: where its binary is looked for, the command-line flags
//! it gets, and how its DevTools port file is read.
//!
//! The flags are kept minimal on purpose: every extra flag is a signal that
//! bot detection can pick up.
use vstd::prelude::*;
use crate::text::{decimal, parse_u64, split_once, trim_end_char, push_str, push_decimal, chars_of, string_of,
    split_once_exec, parse_u64_exec, slice_vec};
use crate::json::{JsonValue, JsonView, json_view, member_str, json_str};

verus! {

/// The places Chrome or Chromium is looked for, in order: the macOS
/// applications, then the usual Linux binaries.
pub open spec fn chrome_candidates() -> Seq<Seq<char>> {
    seq![
        "/Applications/Google Chrome.app/Contents/MacOS/Google Chrome"@,
        "/Applications/Chromium.app/Contents/MacOS/Chromium"@,
        "/usr/bin/chromium"@,
        "/usr/bin/chromium-browser"@,
        "/usr/bin/google-chrome"@,
    ]
}

/// The places Chrome or Chromium is looked for, in order.
pub fn chrome_paths() -> (r: Vec<&'static str>)
    ensures
        r@.map_values(|p: &str| p@) == chrome_candidates(),
{
    let mut r: Vec<&'static str> = Vec::new();
    r.push("/Applications/Google Chrome.app/Contents/MacOS/Google Chrome");
    r.push("/Applications/Chromium.app/Contents/MacOS/Chromium");
    r.push("/usr/bin/chromium");
    r.push("/usr/bin/chromium-browser");
    r.push("/usr/bin/google-chrome");
    assert(r@.map_values(|p: &str| p@) =~= chrome_candidates());
    r
}

/// The first candidate that exists, given whether each exists; the error
/// when none does.
pub fn pick_chrome(paths: &Vec<&'static str>, exists: &Vec<bool>) -> (r: Result<&'static str, &'static str>)
    requires
        paths@.len() == exists@.len(),
    ensures
        r matches Ok(p) ==> exists|i: int| 0 <= i < paths@.len() && exists@[i] && paths@[i] == p
            && forall|j: int| 0 <= j < i ==> !exists@[j],
        r matches Err(e) ==> e@ == "Chrome/Chromium not found"@ && forall|j: int| 0 <= j < exists@.len() ==> !exists@[j],
{
    let mut i: usize = 0;
    while i < paths.len()
        invariant
            paths@.len() == exists@.len(),
            i <= paths@.len(),
            forall|j: int| 0 <= j < i ==> !exists@[j],
        decreases paths@.len() - i,
    {
        if exists[i] {
            return Ok(paths[i]);
        }
        i = i + 1;
    }
    Err("Chrome/Chromium not found")
}

/// The flags shared by both ways of starting Chrome, after the debugging
/// flag: no first-run or default-browser prompts, no `/dev/shm`, a
/// 1440x900 window.
pub open spec fn pipe_flags(profile: Seq<char>, headless: bool) -> Seq<Seq<char>> {
    seq![
        "--remote-debugging-pipe"@,
        "--user-data-dir="@ + profile,
        "--no-first-run"@,
        "--no-default-browser-check"@,
        "--disable-dev-shm-usage"@,
        "--window-size=1440,900"@,
    ] + (if headless { seq!["--headless=new"@] } else { Seq::empty() })
}

/// The flags of Chrome started with a debugging port.
pub open spec fn port_flags(port: u16, profile: Seq<char>, headless: bool) -> Seq<Seq<char>> {
    seq![
        "--remote-debugging-port="@ + decimal(port as nat),
        "--user-data-dir="@ + profile,
        "--disable-dev-shm-usage"@,
        "--no-first-run"@,
        "--no-default-browser-check"@,
        "--window-size=1440,900"@,
    ] + (if headless { seq!["--headless=new"@] } else { Seq::empty() })
}

fn prefixed_flag(prefix: &str, value: &str) -> (r: String)
    ensures
        r@ == prefix@ + value@,
{
    let mut r = String::new();
    push_str(&mut r, prefix);
    push_str(&mut r, value);
    r
}

/// The flags of Chrome driven over a pipe (no TCP port to detect), with
/// the given profile directory.
pub fn chrome_args_pipe(profile: &str, headless: bool) -> (r: Vec<String>)
    ensures
        r@.map_values(|s: String| s@) == pipe_flags(profile@, headless),
{
    let mut args: Vec<String> = Vec::new();
    args.push("--remote-debugging-pipe".to_owned());
    args.push(prefixed_flag("--user-data-dir=", profile));
    args.push("--no-first-run".to_owned());
    args.push("--no-default-browser-check".to_owned());
    args.push("--disable-dev-shm-usage".to_owned());
    args.push("--window-size=1440,900".to_owned());
    if headless {
        args.push("--headless=new".to_owned());
    }
    assert(args@.map_values(|s: String| s@) =~= pipe_flags(profile@, headless));
    args
}

/// The flags of Chrome driven over a debugging port, with the given
/// profile directory.
pub fn chrome_args_port(port: u16, profile: &str, headless: bool) -> (r: Vec<String>)
    ensures
        r@.map_values(|s: String| s@) == port_flags(port, profile@, headless),
{
    let mut args: Vec<String> = Vec::new();
    let mut p = String::new();
    push_str(&mut p, "--remote-debugging-port=");
    push_decimal(&mut p, port as u64);
    args.push(p);
    args.push(prefixed_flag("--user-data-dir=", profile));
    args.push("--disable-dev-shm-usage".to_owned());
    args.push("--no-first-run".to_owned());
    args.push("--no-default-browser-check".to_owned());
    args.push("--window-size=1440,900".to_owned());
    if headless {
        args.push("--headless=new".to_owned());
    }
    assert(args@.map_values(|s: String| s@) =~= port_flags(port, profile@, headless));
    args
}

/// The address that tells when Chrome started on a port is ready.
pub open spec fn version_url_text(port: u16) -> Seq<char> {
    "http://127.0.0.1:"@ + decimal(port as nat) + "/json/version"@
}

/// The address Chrome answers on once it listens on the port.
pub fn version_url(port: u16) -> (r: String)
    ensures
        r@ == version_url_text(port),
{
    let mut r = String::new();
    push_str(&mut r, "http://127.0.0.1:");
    push_decimal(&mut r, port as u64);
    push_str(&mut r, "/json/version");
    r
}

/// How many times Chrome's version address is polled before giving up.
pub const READY_TRIES: u32 = 30;

/// What the launch does after one poll of Chrome's version address.
pub enum ReadyStep {
    /// Chrome answered with its DevTools WebSocket address: connect to it.
    Connect(String),
    /// No usable answer yet: poll again.
    Poll,
    /// No usable answer after the last try.
    GiveUp(String),
}

/// The DevTools WebSocket address in a version reply.
pub open spec fn ws_url_in(reply: Option<JsonView>) -> Option<Seq<char>> {
    match reply {
        Some(v) => member_str(v, "webSocketDebuggerUrl"@),
        None => None,
    }
}

/// After poll number `tries` (counting from 1) answered with `reply` (none
/// when the request or its JSON failed): connect once the reply names the
/// WebSocket address, poll again while tries are left, else give up with
/// "Chrome didn't start in time".
pub fn ready_step(tries: u32, reply: Option<&JsonValue>) -> (r: ReadyStep)
    ensures
        ({
            let found = ws_url_in(match reply { Some(v) => Some(json_view(*v)), None => None });
            &&& found matches Some(w) ==> (r matches ReadyStep::Connect(u) && u@ == w)
            &&& found is None && tries < READY_TRIES ==> r is Poll
            &&& found is None && tries >= READY_TRIES ==> (r matches ReadyStep::GiveUp(e) && e@
                == "Chrome didn't start in time"@)
        }),
{
    let found = match reply {
        Some(v) => json_str(v, "webSocketDebuggerUrl"),
        None => None,
    };
    match found {
        Some(w) => ReadyStep::Connect(w),
        None => if tries < READY_TRIES {
            ReadyStep::Poll
        } else {
            ReadyStep::GiveUp("Chrome didn't start in time".to_owned())
        },
    }
}

// ───────────────────────── DevToolsActivePort ─────────────────────────

/// A line without the `\r` of a `\r\n` line ending.
pub open spec fn strip_cr(line: Seq<char>) -> Seq<char> {
    if line.len() > 0 && line.last() == '\r' {
        line.drop_last()
    } else {
        line
    }
}

/// The first two lines of a text as `str::lines` gives them; the second is
/// `None` when there is none.
pub open spec fn first_lines(content: Seq<char>) -> Option<(Seq<char>, Option<Seq<char>>)> {
    if content.len() == 0 {
        None
    } else {
        match split_once(content, '\n') {
            None => Some((content, None)),
            Some((a, rest)) => Some((strip_cr(a), if rest.len() == 0 {
                None
            } else {
                match split_once(rest, '\n') {
                    Some((b, _)) => Some(strip_cr(b)),
                    None => Some(rest),
                }
            })),
        }
    }
}

/// `str::parse::<u16>`.
pub open spec fn parse_u16(s: Seq<char>) -> Option<u16> {
    match parse_u64(s) {
        Some(v) => if v <= 65535 { Some(v as u16) } else { None },
        None => None,
    }
}

/// What Chrome's `DevToolsActivePort` file says: the port on its first
/// line, and the browser's WebSocket path on its second line
/// (`/devtools/browser` when there is none).
pub open spec fn devtools_port(content: Seq<char>) -> Option<(u16, Seq<char>)> {
    match first_lines(content) {
        None => None,
        Some((first, second)) => match parse_u16(first) {
            None => None,
            Some(port) => Some((port, match second {
                Some(l) => l,
                None => "/devtools/browser"@,
            })),
        },
    }
}

fn strip_cr_exec(v: Vec<char>) -> (r: Vec<char>)
    ensures
        r@ == strip_cr(v@),
{
    if v.len() > 0 && v[v.len() - 1] == '\r' {
        let r = slice_vec(v.as_slice(), 0, v.len() - 1);
        assert(r@ =~= v@.drop_last());
        r
    } else {
        v
    }
}

/// Reads Chrome's `DevToolsActivePort` file: the debugging port and the
/// browser's WebSocket path.
pub fn parse_devtools_active_port(content: &str) -> (r: Option<(u16, String)>)
    ensures
        r matches Some(p) ==> devtools_port(content@) == Some((p.0, p.1@)),
        r is None ==> devtools_port(content@) is None,
{
    let cs = chars_of(content);
    if cs.len() == 0 {
        return None;
    }
    let (first, second): (Vec<char>, Option<Vec<char>>) = match split_once_exec(cs.as_slice(), '\n') {
        None => (cs, None),
        Some((a, rest)) => {
            let s = if rest.len() == 0 {
                None
            } else {
                match split_once_exec(rest.as_slice(), '\n') {
                    Some((b, _)) => Some(strip_cr_exec(b)),
                    None => Some(rest),
                }
            };
            (strip_cr_exec(a), s)
        },
    };
    let port = match parse_u64_exec(first.as_slice()) {
        Some(v) => if v <= 65535 {
            v as u16
        } else {
            return None;
        },
        None => {
            return None;
        },
    };
    let path = match second {
        Some(l) => string_of(l.as_slice()),
        None => "/devtools/browser".to_owned(),
    };
    Some((port, path))
}

} // verus!
