//! The decisions of the command-line program: what a line typed in an
//! interactive session asks for, which pages need a full browser, and the
//! URLs that the setup and login prompts open.
use vstd::prelude::*;
use crate::text::{starts_with, trim, split_once, all_digits, parse_u64, contains, byte_len, chars_of,
    starts_with_str, trim_chars, split_once_exec, string_of, parse_u64_exec, contains_str, str_byte_len,
    is_digit_exec, str_eq, push_str, split, split_exec};

verus! {

// ───────────────────────── WOM ids ─────────────────────────

/// A prefix of a WOM id: `btn`, `lnk`, `fld`, `h`, `sel`, `form`, `img` or
/// `p`.
pub open spec fn is_wom_prefix(p: Seq<char>) -> bool {
    p == "btn"@ || p == "lnk"@ || p == "fld"@ || p == "h"@ || p == "sel"@ || p == "form"@ || p == "img"@
        || p == "p"@
}

/// A WOM id such as `btn_042`: a known prefix, an underscore, and ASCII
/// digits only (possibly none).
pub open spec fn wom_id(s: Seq<char>) -> bool {
    match split_once(s, '_') {
        Some((prefix, suffix)) => is_wom_prefix(prefix) && all_digits(suffix),
        None => false,
    }
}

/// Whether the text is a WOM id.
pub fn is_wom_id(s: &str) -> (r: bool)
    ensures
        r == wom_id(s@),
{
    let cs = chars_of(s);
    match split_once_exec(cs.as_slice(), '_') {
        Some((prefix, suffix)) => {
            let p = string_of(prefix.as_slice());
            let known = str_eq(p.as_str(), "btn") || str_eq(p.as_str(), "lnk") || str_eq(p.as_str(), "fld")
                || str_eq(p.as_str(), "h") || str_eq(p.as_str(), "sel") || str_eq(p.as_str(), "form")
                || str_eq(p.as_str(), "img") || str_eq(p.as_str(), "p");
            if !known {
                return false;
            }
            let mut i: usize = 0;
            while i < suffix.len()
                invariant
                    i <= suffix@.len(),
                    split_once(s@, '_') == Some((prefix@, suffix@)),
                    is_wom_prefix(prefix@),
                    forall|j: int| 0 <= j < i ==> crate::text::is_digit(#[trigger] suffix@[j]),
                decreases suffix@.len() - i,
            {
                if !is_digit_exec(suffix[i]) {
                    assert(!all_digits(suffix@)) by {
                        assert(!crate::text::is_digit(suffix@[i as int]));
                    }
                    return false;
                }
                i = i + 1;
            }
            true
        },
        None => false,
    }
}

// ───────────────────────── pages that need script ─────────────────────────

/// A page is a script application: it carries the data of a Next.js or a
/// state-hydrating app, an empty `root` or `app` mount point, or it is over
/// 1000 bytes long yet gave fewer than `min_items` items of content.
pub open spec fn needs_script(html: &str, items: nat, min_items: nat) -> bool {
    ||| contains(html@, "__NEXT_DATA__"@)
    ||| contains(html@, "window.__INITIAL_STATE__"@)
    ||| contains(html@, "id=\"root\"></div>"@)
    ||| contains(html@, "id=\"app\"></div>"@)
    ||| (items < min_items && byte_len(html) > 1000)
}

/// Whether a page fetched without a browser needs one, given how many items
/// of content were read from it.
pub fn needs_js(html: &str, items: usize, min_items: usize) -> (r: bool)
    ensures
        r == needs_script(html, items as nat, min_items as nat),
{
    let cs = chars_of(html);
    contains_str(cs.as_slice(), "__NEXT_DATA__") || contains_str(cs.as_slice(), "window.__INITIAL_STATE__")
        || contains_str(cs.as_slice(), "id=\"root\"></div>") || contains_str(cs.as_slice(), "id=\"app\"></div>")
        || (items < min_items && str_byte_len(html) > 1000)
}

// ───────────────────────── URLs typed at a prompt ─────────────────────────

/// A URL as typed: kept when it starts with `http`, else with `https://`
/// put before it.
pub open spec fn with_scheme(s: Seq<char>) -> Seq<char> {
    if starts_with(s, "http"@) {
        s
    } else {
        "https://"@ + s
    }
}

/// The URL for a typed site name or URL.
pub fn site_url(s: &str) -> (r: String)
    ensures
        r@ == with_scheme(s@),
{
    let cs = chars_of(s);
    if starts_with_str(cs.as_slice(), "http") {
        s.to_owned()
    } else {
        let mut r = String::new();
        push_str(&mut r, "https://");
        push_str(&mut r, s);
        r
    }
}

/// What a line typed at the setup prompt asks for.
pub enum SetupInput {
    /// A blank line: prompt again.
    Nothing,
    /// `done`, `quit` or `exit`: save the session and stop.
    Finish,
    /// Anything else: open it as a site.
    Open(String),
}

/// What a line typed at the setup prompt asks for, its text trimmed.
pub open spec fn setup_input_of(line: Seq<char>) -> (bool, bool, Seq<char>) {
    let t = trim(line);
    (t.len() == 0, t == "done"@ || t == "quit"@ || t == "exit"@, with_scheme(t))
}

/// Reads a line typed at the setup prompt: blank lines are ignored, `done`,
/// `quit` or `exit` ends the setup, and anything else is a site to open.
pub fn setup_input(line: &str) -> (r: SetupInput)
    ensures
        setup_input_of(line@).0 ==> r is Nothing,
        !setup_input_of(line@).0 && setup_input_of(line@).1 ==> r is Finish,
        !setup_input_of(line@).0 && !setup_input_of(line@).1 ==> (r matches SetupInput::Open(u) && u@
            == setup_input_of(line@).2),
{
    let cs = chars_of(line);
    let t = trim_chars(cs.as_slice());
    let ts = string_of(t.as_slice());
    if t.len() == 0 {
        SetupInput::Nothing
    } else if str_eq(ts.as_str(), "done") || str_eq(ts.as_str(), "quit") || str_eq(ts.as_str(), "exit") {
        SetupInput::Finish
    } else {
        SetupInput::Open(site_url(ts.as_str()))
    }
}

/// The sites to open at setup: each comma-separated entry, trimmed, as a
/// URL; Google when none are given.
pub open spec fn setup_urls(sites: Option<Seq<char>>) -> Seq<Seq<char>> {
    match sites {
        Some(s) => split(s, ',').map_values(|e: Seq<char>| with_scheme(trim(e))),
        None => seq!["https://www.google.com"@],
    }
}

/// The URLs to open at setup.
pub fn setup_site_urls(sites: Option<&str>) -> (r: Vec<String>)
    ensures
        r@.map_values(|u: String| u@) == setup_urls(match sites { Some(s) => Some(s@), None => None }),
{
    let mut r: Vec<String> = Vec::new();
    match sites {
        Some(s) => {
            let cs = chars_of(s);
            let parts = split_exec(cs.as_slice(), ',');
            let ghost ps = split(s@, ',');
            let mut i: usize = 0;
            while i < parts.len()
                invariant
                    parts@.len() == ps.len(),
                    forall|t: int| 0 <= t < parts@.len() ==> #[trigger] parts@[t]@ == ps[t],
                    i <= parts@.len(),
                    r@.len() == i,
                    forall|t: int| 0 <= t < i ==> #[trigger] r@[t]@ == with_scheme(trim(ps[t])),
                decreases parts@.len() - i,
            {
                let t = trim_chars(parts[i].as_slice());
                let ts = string_of(t.as_slice());
                r.push(site_url(ts.as_str()));
                i = i + 1;
            }
            assert(r@.map_values(|u: String| u@) =~= setup_urls(Some(s@)));
        },
        None => {
            r.push("https://www.google.com".to_owned());
            assert(r@.map_values(|u: String| u@) =~= setup_urls(None));
        },
    }
    r
}

/// The text with every leading copy of `p` removed
/// (`str::trim_start_matches` with a string pattern).
pub open spec fn strip_leading(s: Seq<char>, p: Seq<char>) -> Seq<char>
    decreases s.len(),
{
    if p.len() > 0 && starts_with(s, p) {
        strip_leading(s.skip(p.len() as int), p)
    } else {
        s
    }
}

fn strip_leading_exec(s: &[char], p: &str) -> (r: Vec<char>)
    ensures
        r@ == strip_leading(s@, p@),
{
    let pc = chars_of(p);
    let mut cur: Vec<char> = crate::text::slice_vec(s, 0, s.len());
    assert(cur@ =~= s@);
    if pc.len() == 0 {
        return cur;
    }
    while crate::text::starts_with_exec(cur.as_slice(), pc.as_slice())
        invariant
            pc@ == p@,
            pc@.len() > 0,
            strip_leading(cur@, p@) == strip_leading(s@, p@),
        decreases cur@.len(),
    {
        let next = crate::text::slice_vec(cur.as_slice(), pc.len(), cur.len());
        assert(next@ =~= cur@.skip(pc@.len() as int));
        cur = next;
    }
    cur
}

/// Where a line typed at the login prompt goes: a URL, or `open` and a URL,
/// is opened as given; anything else is a site name; a result that does not
/// start with `http` gets `https://` before it.
pub open spec fn login_target(input: Seq<char>) -> Seq<char> {
    let u = if starts_with(input, "http"@) || starts_with(input, "open "@) {
        trim(strip_leading(input, "open "@))
    } else {
        "https://"@ + input
    };
    with_scheme(u)
}

/// The URL a line typed at the login prompt opens.
pub fn login_url(input: &str) -> (r: String)
    ensures
        r@ == login_target(input@),
{
    let cs = chars_of(input);
    let u = if starts_with_str(cs.as_slice(), "http") || starts_with_str(cs.as_slice(), "open ") {
        let stripped = strip_leading_exec(cs.as_slice(), "open ");
        string_of(trim_chars(stripped.as_slice()).as_slice())
    } else {
        let mut r = String::new();
        push_str(&mut r, "https://");
        push_str(&mut r, input);
        r
    };
    site_url(u.as_str())
}

// ───────────────────────── session commands ─────────────────────────

/// A command of the interactive session.
#[derive(Debug, Clone, PartialEq, Eq)]
pub enum SessionCommand {
    /// Nothing to do: the line is empty.
    Nothing,
    /// The command needs an argument: how to use it.
    Usage(String),
    Goto(String),
    See,
    Raw,
    Wom,
    WomCompact,
    WomDelta,
    /// Click the element with the text.
    Click(String),
    /// Click the element with the WOM id.
    ClickWom(String),
    /// Focus the element with the text (any, when empty).
    Focus(String),
    /// Focus the element with the WOM id.
    FocusWom(String),
    Type(String),
    Press(String),
    Scroll(String),
    Back,
    Forward,
    Reload,
    Tabs,
    Tab(usize),
    Screenshot,
    Eval(String),
    Cookies(String),
    /// Wait for the given seconds, as typed; one second when it is no
    /// number.
    Wait(String),
    Quit,
    Unknown(String),
}

/// The command word and its argument: the line up to its first space, and
/// the rest trimmed; the whole line and no argument when it has no space.
pub open spec fn command_parts(line: Seq<char>) -> (Seq<char>, Seq<char>) {
    match split_once(line, ' ') {
        Some((c, a)) => (c, trim(a)),
        None => (line, Seq::empty()),
    }
}

/// The command a (trimmed) line stands for.
pub open spec fn command_of(line: Seq<char>) -> SessionCommandView {
    let (c, a) = command_parts(line);
    if line.len() == 0 {
        SessionCommandView::Nothing
    } else if c == "goto"@ || c == "go"@ || c == "nav"@ {
        if a.len() == 0 { SessionCommandView::Usage("goto <url>"@) } else { SessionCommandView::Goto(a) }
    } else if c == "see"@ || c == "look"@ || c == "view"@ {
        SessionCommandView::See
    } else if c == "raw"@ {
        SessionCommandView::Raw
    } else if c == "wom"@ || c == "json"@ {
        SessionCommandView::Wom
    } else if c == "wom-compact"@ || c == "wc"@ {
        SessionCommandView::WomCompact
    } else if c == "wom-delta"@ || c == "wd"@ || c == "delta"@ {
        SessionCommandView::WomDelta
    } else if c == "click"@ || c == "cl"@ {
        if a.len() == 0 {
            SessionCommandView::Usage("click <text|wom_id>"@)
        } else if wom_id(a) {
            SessionCommandView::ClickWom(a)
        } else {
            SessionCommandView::Click(a)
        }
    } else if c == "focus"@ || c == "fo"@ {
        if a.len() > 0 && wom_id(a) { SessionCommandView::FocusWom(a) } else { SessionCommandView::Focus(a) }
    } else if c == "type"@ || c == "ty"@ {
        if a.len() == 0 { SessionCommandView::Usage("type <text>"@) } else { SessionCommandView::Type(a) }
    } else if c == "press"@ || c == "key"@ {
        SessionCommandView::Press(if a.len() == 0 { "Enter"@ } else { a })
    } else if c == "scroll"@ || c == "sc"@ {
        SessionCommandView::Scroll(if a.len() == 0 { "down"@ } else { a })
    } else if c == "back"@ {
        SessionCommandView::Back
    } else if c == "forward"@ || c == "fwd"@ {
        SessionCommandView::Forward
    } else if c == "reload"@ || c == "refresh"@ {
        SessionCommandView::Reload
    } else if c == "tabs"@ || c == "pages"@ {
        SessionCommandView::Tabs
    } else if c == "tab"@ {
        SessionCommandView::Tab(match parse_u64(a) {
            Some(n) => if n <= usize::MAX { n as nat } else { 0 },
            None => 0,
        })
    } else if c == "screenshot"@ || c == "shot"@ {
        SessionCommandView::Screenshot
    } else if c == "eval"@ || c == "js"@ {
        if a.len() == 0 { SessionCommandView::Usage("eval <js>"@) } else { SessionCommandView::Eval(a) }
    } else if c == "cookies"@ || c == "cookie"@ {
        if a.len() == 0 { SessionCommandView::Usage("cookies <file>"@) } else { SessionCommandView::Cookies(a) }
    } else if c == "wait"@ || c == "sleep"@ {
        SessionCommandView::Wait(a)
    } else if c == "quit"@ || c == "exit"@ || c == "q"@ {
        SessionCommandView::Quit
    } else {
        SessionCommandView::Unknown(c)
    }
}

/// The view of a session command, its texts as sequences.
pub enum SessionCommandView {
    Nothing,
    Usage(Seq<char>),
    Goto(Seq<char>),
    See,
    Raw,
    Wom,
    WomCompact,
    WomDelta,
    Click(Seq<char>),
    ClickWom(Seq<char>),
    Focus(Seq<char>),
    FocusWom(Seq<char>),
    Type(Seq<char>),
    Press(Seq<char>),
    Scroll(Seq<char>),
    Back,
    Forward,
    Reload,
    Tabs,
    Tab(nat),
    Screenshot,
    Eval(Seq<char>),
    Cookies(Seq<char>),
    Wait(Seq<char>),
    Quit,
    Unknown(Seq<char>),
}

impl View for SessionCommand {
    type V = SessionCommandView;

    open spec fn view(&self) -> SessionCommandView {
        match self {
            SessionCommand::Nothing => SessionCommandView::Nothing,
            SessionCommand::Usage(s) => SessionCommandView::Usage(s@),
            SessionCommand::Goto(s) => SessionCommandView::Goto(s@),
            SessionCommand::See => SessionCommandView::See,
            SessionCommand::Raw => SessionCommandView::Raw,
            SessionCommand::Wom => SessionCommandView::Wom,
            SessionCommand::WomCompact => SessionCommandView::WomCompact,
            SessionCommand::WomDelta => SessionCommandView::WomDelta,
            SessionCommand::Click(s) => SessionCommandView::Click(s@),
            SessionCommand::ClickWom(s) => SessionCommandView::ClickWom(s@),
            SessionCommand::Focus(s) => SessionCommandView::Focus(s@),
            SessionCommand::FocusWom(s) => SessionCommandView::FocusWom(s@),
            SessionCommand::Type(s) => SessionCommandView::Type(s@),
            SessionCommand::Press(s) => SessionCommandView::Press(s@),
            SessionCommand::Scroll(s) => SessionCommandView::Scroll(s@),
            SessionCommand::Back => SessionCommandView::Back,
            SessionCommand::Forward => SessionCommandView::Forward,
            SessionCommand::Reload => SessionCommandView::Reload,
            SessionCommand::Tabs => SessionCommandView::Tabs,
            SessionCommand::Tab(n) => SessionCommandView::Tab(*n as nat),
            SessionCommand::Screenshot => SessionCommandView::Screenshot,
            SessionCommand::Eval(s) => SessionCommandView::Eval(s@),
            SessionCommand::Cookies(s) => SessionCommandView::Cookies(s@),
            SessionCommand::Wait(s) => SessionCommandView::Wait(s@),
            SessionCommand::Quit => SessionCommandView::Quit,
            SessionCommand::Unknown(s) => SessionCommandView::Unknown(s@),
        }
    }
}

/// The command a line typed in the session stands for, after trimming it.
pub fn parse_command(line: &str) -> (r: SessionCommand)
    ensures
        r@ == command_of(trim(line@)),
{
    let lc = trim_chars(chars_of(line).as_slice());
    if lc.len() == 0 {
        return SessionCommand::Nothing;
    }
    let (cv, av) = match split_once_exec(lc.as_slice(), ' ') {
        Some((c, a)) => (c, trim_chars(a.as_slice())),
        None => (lc.clone(), Vec::new()),
    };
    assert(lc@ == trim(line@));
    assert((cv@, av@) == command_parts(lc@));
    let c = string_of(cv.as_slice());
    let a = string_of(av.as_slice());
    let cs = c.as_str();
    let empty = av.len() == 0;
    proof {
        reveal_strlit("Enter");
        reveal_strlit("down");
    }
    if str_eq(cs, "goto") || str_eq(cs, "go") || str_eq(cs, "nav") {
        if empty { SessionCommand::Usage("goto <url>".to_owned()) } else { SessionCommand::Goto(a) }
    } else if str_eq(cs, "see") || str_eq(cs, "look") || str_eq(cs, "view") {
        SessionCommand::See
    } else if str_eq(cs, "raw") {
        SessionCommand::Raw
    } else if str_eq(cs, "wom") || str_eq(cs, "json") {
        SessionCommand::Wom
    } else if str_eq(cs, "wom-compact") || str_eq(cs, "wc") {
        SessionCommand::WomCompact
    } else if str_eq(cs, "wom-delta") || str_eq(cs, "wd") || str_eq(cs, "delta") {
        SessionCommand::WomDelta
    } else if str_eq(cs, "click") || str_eq(cs, "cl") {
        if empty {
            SessionCommand::Usage("click <text|wom_id>".to_owned())
        } else if is_wom_id(a.as_str()) {
            SessionCommand::ClickWom(a)
        } else {
            SessionCommand::Click(a)
        }
    } else if str_eq(cs, "focus") || str_eq(cs, "fo") {
        if !empty && is_wom_id(a.as_str()) { SessionCommand::FocusWom(a) } else { SessionCommand::Focus(a) }
    } else if str_eq(cs, "type") || str_eq(cs, "ty") {
        if empty { SessionCommand::Usage("type <text>".to_owned()) } else { SessionCommand::Type(a) }
    } else if str_eq(cs, "press") || str_eq(cs, "key") {
        SessionCommand::Press(if empty { "Enter".to_owned() } else { a })
    } else if str_eq(cs, "scroll") || str_eq(cs, "sc") {
        SessionCommand::Scroll(if empty { "down".to_owned() } else { a })
    } else if str_eq(cs, "back") {
        SessionCommand::Back
    } else if str_eq(cs, "forward") || str_eq(cs, "fwd") {
        SessionCommand::Forward
    } else if str_eq(cs, "reload") || str_eq(cs, "refresh") {
        SessionCommand::Reload
    } else if str_eq(cs, "tabs") || str_eq(cs, "pages") {
        SessionCommand::Tabs
    } else if str_eq(cs, "tab") {
        let n: usize = match parse_u64_exec(av.as_slice()) {
            Some(v) => if v <= usize::MAX as u64 { v as usize } else { 0 },
            None => 0,
        };
        SessionCommand::Tab(n)
    } else if str_eq(cs, "screenshot") || str_eq(cs, "shot") {
        SessionCommand::Screenshot
    } else if str_eq(cs, "eval") || str_eq(cs, "js") {
        if empty { SessionCommand::Usage("eval <js>".to_owned()) } else { SessionCommand::Eval(a) }
    } else if str_eq(cs, "cookies") || str_eq(cs, "cookie") {
        if empty { SessionCommand::Usage("cookies <file>".to_owned()) } else { SessionCommand::Cookies(a) }
    } else if str_eq(cs, "wait") || str_eq(cs, "sleep") {
        SessionCommand::Wait(a)
    } else if str_eq(cs, "quit") || str_eq(cs, "exit") || str_eq(cs, "q") {
        SessionCommand::Quit
    } else {
        SessionCommand::Unknown(c)
    }
}

} // verus!
