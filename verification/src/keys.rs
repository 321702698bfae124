//! Keyboard input: the key events of a key combination, and the
//! modifier mask they carry (Alt 1, Ctrl 2, Meta 4, Shift 8).
use vstd::prelude::*;
use crate::text::{lemma_split_nonempty, split, lowercase, str_eq, chars_of, split_exec, string_of, to_lowercase};

verus! {

/// The Alt modifier bit.
pub const MODIFIER_ALT: i32 = 1;
/// The Ctrl modifier bit.
pub const MODIFIER_CTRL: i32 = 2;
/// The Meta (Cmd on Mac) modifier bit.
pub const MODIFIER_META: i32 = 4;
/// The Shift modifier bit.
pub const MODIFIER_SHIFT: i32 = 8;

/// The parameters of one `Input.dispatchKeyEvent`.
#[derive(Debug, Clone)]
pub struct DispatchKeyEventParams {
    /// `keyDown`, `keyUp`, `rawKeyDown` or `char`.
    pub type_: String,
    pub modifiers: Option<i32>,
    pub key: Option<String>,
    pub code: Option<String>,
    pub text: Option<String>,
    pub unmodified_text: Option<String>,
    pub key_identifier: Option<String>,
    pub windows_virtual_key_code: Option<i32>,
    pub native_virtual_key_code: Option<i32>,
    pub auto_repeat: Option<bool>,
    pub is_keypad: Option<bool>,
    pub is_system_key: Option<bool>,
    pub location: Option<i32>,
}

impl Default for DispatchKeyEventParams {
    fn default() -> (p: Self)
        ensures
            p.type_@ == Seq::<char>::empty(),
            plain(p),
            p.modifiers is None,
            p.key is None,
            p.code is None,
    {
        DispatchKeyEventParams {
            type_: String::new(),
            modifiers: None,
            key: None,
            code: None,
            text: None,
            unmodified_text: None,
            key_identifier: None,
            windows_virtual_key_code: None,
            native_virtual_key_code: None,
            auto_repeat: None,
            is_keypad: None,
            is_system_key: None,
            location: None,
        }
    }
}

/// A key event that sets only its type, key, code and modifiers.
pub open spec fn plain(p: DispatchKeyEventParams) -> bool {
    &&& p.text is None
    &&& p.unmodified_text is None
    &&& p.key_identifier is None
    &&& p.windows_virtual_key_code is None
    &&& p.native_virtual_key_code is None
    &&& p.auto_repeat is None
    &&& p.is_keypad is None
    &&& p.is_system_key is None
    &&& p.location is None
}

/// A key going down or up, with its key, code and modifier mask.
pub struct KeyStroke {
    pub down: bool,
    pub key: Seq<char>,
    pub code: Option<Seq<char>>,
    pub modifiers: i32,
}

/// The keystroke a plain key event with a key and modifiers stands for.
pub open spec fn stroke_of(p: DispatchKeyEventParams) -> KeyStroke {
    KeyStroke {
        down: p.type_@ == "keyDown"@,
        key: match p.key { Some(k) => k@, None => Seq::empty() },
        code: match p.code { Some(c) => Some(c@), None => None },
        modifiers: match p.modifiers { Some(m) => m, None => 0 },
    }
}

/// A key event is a plain `keyDown` or `keyUp` with a key and modifiers.
pub open spec fn well_formed_event(p: DispatchKeyEventParams) -> bool {
    &&& plain(p)
    &&& (p.type_@ == "keyDown"@ || p.type_@ == "keyUp"@)
    &&& p.key is Some
    &&& p.modifiers is Some
}

fn key_event(down: bool, key: &str, code: Option<&str>, modifiers: i32) -> (p: DispatchKeyEventParams)
    ensures
        well_formed_event(p),
        stroke_of(p) == (KeyStroke {
            down,
            key: key@,
            code: match code { Some(c) => Some(c@), None => None },
            modifiers,
        }),
{
    let kind = if down {
        "keyDown".to_owned()
    } else {
        proof {
            reveal_strlit("keyDown");
            reveal_strlit("keyUp");
            assert(("keyUp"@)[3] != ("keyDown"@)[3]);
        }
        "keyUp".to_owned()
    };
    assert((kind@ == "keyDown"@) == down);
    let c = match code {
        Some(c) => Some(c.to_owned()),
        None => None,
    };
    assert(match c { Some(x) => Some(x@), None => None::<Seq<char>> } == match code { Some(x) => Some(x@), None => None::<Seq<char>> });
    DispatchKeyEventParams {
        type_: kind,
        modifiers: Some(modifiers),
        key: Some(key.to_owned()),
        code: c,
        text: None,
        unmodified_text: None,
        key_identifier: None,
        windows_virtual_key_code: None,
        native_virtual_key_code: None,
        auto_repeat: None,
        is_keypad: None,
        is_system_key: None,
        location: None,
    }
}

// ───────────────────────── key combinations ─────────────────────────

/// The modifier bit a held key of a combination sets: `Alt`, `Control`,
/// `Meta` or `Command`, `Shift`; other keys set none.
pub open spec fn held_key_bit(k: Seq<char>) -> Option<i32> {
    if k == "Alt"@ {
        Some(MODIFIER_ALT)
    } else if k == "Control"@ {
        Some(MODIFIER_CTRL)
    } else if k == "Meta"@ || k == "Command"@ {
        Some(MODIFIER_META)
    } else if k == "Shift"@ {
        Some(MODIFIER_SHIFT)
    } else {
        None
    }
}

/// The modifier mask of the held keys.
pub open spec fn held_mask(ks: Seq<Seq<char>>) -> i32
    decreases ks.len(),
{
    if ks.len() == 0 {
        0
    } else {
        match held_key_bit(ks.last()) {
            Some(b) => held_mask(ks.drop_last()) | b,
            None => held_mask(ks.drop_last()),
        }
    }
}

/// The keystrokes of a combination: the held keys go down, then the last
/// key goes down and up, then the held keys come up in reverse order; all
/// carry the mask of the held keys except the final releases, which carry
/// none.
pub open spec fn combo_strokes(keys: Seq<Seq<char>>) -> Seq<KeyStroke> {
    if keys.len() == 0 {
        Seq::empty()
    } else {
        let held = keys.drop_last();
        let m = held_mask(held);
        held.map_values(|k: Seq<char>| KeyStroke { down: true, key: k, code: None, modifiers: m })
            + seq![
            KeyStroke { down: true, key: keys.last(), code: None, modifiers: m },
            KeyStroke { down: false, key: keys.last(), code: None, modifiers: m },
        ] + held.reverse().map_values(|k: Seq<char>| KeyStroke { down: false, key: k, code: None, modifiers: 0 })
    }
}

fn held_bit(k: &str) -> (r: Option<i32>)
    ensures
        r == held_key_bit(k@),
{
    if str_eq(k, "Alt") {
        Some(MODIFIER_ALT)
    } else if str_eq(k, "Control") {
        Some(MODIFIER_CTRL)
    } else if str_eq(k, "Meta") || str_eq(k, "Command") {
        Some(MODIFIER_META)
    } else if str_eq(k, "Shift") {
        Some(MODIFIER_SHIFT)
    } else {
        None
    }
}

/// The texts of a list of strings.
pub open spec fn key_texts(v: Seq<String>) -> Seq<Seq<char>> {
    v.map_values(|s: String| s@)
}

/// The key events that press a combination such as `Control`, `Shift`,
/// `t`: every key but the last is held while the last is pressed.
pub fn key_combo_events(keys: &Vec<String>) -> (r: Vec<DispatchKeyEventParams>)
    ensures
        forall|i: int| 0 <= i < r@.len() ==> well_formed_event(#[trigger] r@[i]),
        r@.map_values(|p: DispatchKeyEventParams| stroke_of(p)) == combo_strokes(key_texts(keys@)),
{
    let mut r: Vec<DispatchKeyEventParams> = Vec::new();
    let n = keys.len();
    if n == 0 {
        assert(r@.map_values(|p: DispatchKeyEventParams| stroke_of(p)) =~= combo_strokes(key_texts(keys@)));
        return r;
    }
    let ghost ks = key_texts(keys@);
    let ghost held = ks.drop_last();
    let mut m: i32 = 0;
    let mut i: usize = 0;
    while i < n - 1
        invariant
            n == keys@.len(),
            n >= 1,
            i <= n - 1,
            ks == key_texts(keys@),
            held == ks.drop_last(),
            m == held_mask(held.take(i as int)),
        decreases n - 1 - i,
    {
        assert(held.take(i + 1).drop_last() =~= held.take(i as int));
        match held_bit(keys[i].as_str()) {
            Some(b) => {
                m = m | b;
            },
            None => {},
        }
        i = i + 1;
    }
    assert(held.take((n - 1) as int) =~= held);
    let ghost strokes = combo_strokes(ks);
    let mut i: usize = 0;
    while i < n - 1
        invariant
            n == keys@.len(),
            n >= 1,
            i <= n - 1,
            ks == key_texts(keys@),
            held == ks.drop_last(),
            m == held_mask(held),
            r@.len() == i,
            forall|j: int| 0 <= j < i ==> well_formed_event(#[trigger] r@[j]),
            forall|j: int| 0 <= j < i ==> stroke_of(#[trigger] r@[j]) == (KeyStroke {
                down: true, key: held[j], code: None, modifiers: m }),
        decreases n - 1 - i,
    {
        r.push(key_event(true, keys[i].as_str(), None, m));
        i = i + 1;
    }
    let last = keys[n - 1].as_str();
    r.push(key_event(true, last, None, m));
    r.push(key_event(false, last, None, m));
    let mut k: usize = n - 1;
    while k > 0
        invariant
            n == keys@.len(),
            n >= 1,
            k <= n - 1,
            ks == key_texts(keys@),
            held == ks.drop_last(),
            m == held_mask(held),
            r@.len() == (n - 1) + 2 + (n - 1 - k),
            forall|j: int| 0 <= j < r@.len() ==> well_formed_event(#[trigger] r@[j]),
            forall|j: int| 0 <= j < n - 1 ==> stroke_of(#[trigger] r@[j]) == (KeyStroke {
                down: true, key: held[j], code: None, modifiers: m }),
            stroke_of(r@[n - 1]) == (KeyStroke { down: true, key: ks.last(), code: None, modifiers: m }),
            stroke_of(r@[n as int]) == (KeyStroke { down: false, key: ks.last(), code: None, modifiers: m }),
            forall|j: int| 0 <= j < n - 1 - k ==> stroke_of(#[trigger] r@[n + 1 + j]) == (KeyStroke {
                down: false, key: held[n - 2 - j], code: None, modifiers: 0 }),
        decreases k,
    {
        k = k - 1;
        r.push(key_event(false, keys[k].as_str(), None, 0));
    }
    proof {
        let mapped = r@.map_values(|p: DispatchKeyEventParams| stroke_of(p));
        let downs = held.map_values(|k: Seq<char>| KeyStroke { down: true, key: k, code: None, modifiers: m });
        let ups = held.reverse().map_values(|k: Seq<char>| KeyStroke { down: false, key: k, code: None, modifiers: 0 });
        let mid = seq![
            KeyStroke { down: true, key: ks.last(), code: None, modifiers: m },
            KeyStroke { down: false, key: ks.last(), code: None, modifiers: m },
        ];
        assert(strokes == downs + mid + ups);
        assert(mapped.len() == strokes.len());
        assert forall|j: int| 0 <= j < mapped.len() implies mapped[j] == strokes[j] by {
            if j < n - 1 {
                assert(strokes[j] == downs[j]);
            } else if j < n + 1 {
                assert(strokes[j] == mid[j - (n - 1)]);
            } else {
                let t = j - (n + 1);
                assert(strokes[j] == ups[t]);
                assert(held.reverse()[t] == held[held.len() - 1 - t]);
                assert(stroke_of(r@[n + 1 + t]) == (KeyStroke { down: false, key: held[n - 2 - t], code: None, modifiers: 0 }));
            }
        }
        assert(mapped =~= strokes);
    }
    r
}

// ───────────────────────── "Ctrl+a" combinations ─────────────────────────

/// The key and code of the last part of a combination written like
/// `Ctrl+a`: letters a, c, v, x, z in either case, named keys and arrow
/// shorthands; any other text is both key and code.
pub open spec fn combo_key(k: Seq<char>) -> (Seq<char>, Seq<char>) {
    if k == "a"@ || k == "A"@ {
        ("a"@, "KeyA"@)
    } else if k == "c"@ || k == "C"@ {
        ("c"@, "KeyC"@)
    } else if k == "v"@ || k == "V"@ {
        ("v"@, "KeyV"@)
    } else if k == "x"@ || k == "X"@ {
        ("x"@, "KeyX"@)
    } else if k == "z"@ || k == "Z"@ {
        ("z"@, "KeyZ"@)
    } else if k == "Tab"@ || k == "tab"@ {
        ("Tab"@, "Tab"@)
    } else if k == "Enter"@ || k == "enter"@ {
        ("Enter"@, "Enter"@)
    } else if k == "Backspace"@ || k == "backspace"@ {
        ("Backspace"@, "Backspace"@)
    } else if k == "Delete"@ || k == "delete"@ {
        ("Delete"@, "Delete"@)
    } else if k == "ArrowUp"@ || k == "up"@ {
        ("ArrowUp"@, "ArrowUp"@)
    } else if k == "ArrowDown"@ || k == "down"@ {
        ("ArrowDown"@, "ArrowDown"@)
    } else if k == "ArrowLeft"@ || k == "left"@ {
        ("ArrowLeft"@, "ArrowLeft"@)
    } else if k == "ArrowRight"@ || k == "right"@ {
        ("ArrowRight"@, "ArrowRight"@)
    } else {
        (k, k)
    }
}

/// The modifier bit of a prefix part of a combination, compared in lower
/// case: `alt`, `ctrl` or `control`, `meta`, `cmd` or `command`, `shift`.
pub open spec fn prefix_bit(p: Seq<char>) -> Option<i32> {
    let l = lowercase(p);
    if l == "alt"@ {
        Some(MODIFIER_ALT)
    } else if l == "ctrl"@ || l == "control"@ {
        Some(MODIFIER_CTRL)
    } else if l == "meta"@ || l == "cmd"@ || l == "command"@ {
        Some(MODIFIER_META)
    } else if l == "shift"@ {
        Some(MODIFIER_SHIFT)
    } else {
        None
    }
}

/// The modifier mask of the prefix parts of a combination.
pub open spec fn prefix_mask(ps: Seq<Seq<char>>) -> i32
    decreases ps.len(),
{
    if ps.len() == 0 {
        0
    } else {
        match prefix_bit(ps.last()) {
            Some(b) => prefix_mask(ps.drop_last()) | b,
            None => prefix_mask(ps.drop_last()),
        }
    }
}

/// The keystrokes of a combination written like `Ctrl+Shift+z`: its last
/// part goes down and up, with the mask of the parts before it.
pub open spec fn press_combo_strokes(combo: Seq<char>) -> Seq<KeyStroke> {
    let parts = split(combo, '+');
    let (key, code) = combo_key(parts.last());
    let m = prefix_mask(parts.drop_last());
    seq![
        KeyStroke { down: true, key, code: Some(code), modifiers: m },
        KeyStroke { down: false, key, code: Some(code), modifiers: m },
    ]
}

fn combo_key_exec(k: &str) -> (r: (String, String))
    ensures
        (r.0@, r.1@) == combo_key(k@),
{
    let (a, b): (&str, &str) = if str_eq(k, "a") || str_eq(k, "A") {
        ("a", "KeyA")
    } else if str_eq(k, "c") || str_eq(k, "C") {
        ("c", "KeyC")
    } else if str_eq(k, "v") || str_eq(k, "V") {
        ("v", "KeyV")
    } else if str_eq(k, "x") || str_eq(k, "X") {
        ("x", "KeyX")
    } else if str_eq(k, "z") || str_eq(k, "Z") {
        ("z", "KeyZ")
    } else if str_eq(k, "Tab") || str_eq(k, "tab") {
        ("Tab", "Tab")
    } else if str_eq(k, "Enter") || str_eq(k, "enter") {
        ("Enter", "Enter")
    } else if str_eq(k, "Backspace") || str_eq(k, "backspace") {
        ("Backspace", "Backspace")
    } else if str_eq(k, "Delete") || str_eq(k, "delete") {
        ("Delete", "Delete")
    } else if str_eq(k, "ArrowUp") || str_eq(k, "up") {
        ("ArrowUp", "ArrowUp")
    } else if str_eq(k, "ArrowDown") || str_eq(k, "down") {
        ("ArrowDown", "ArrowDown")
    } else if str_eq(k, "ArrowLeft") || str_eq(k, "left") {
        ("ArrowLeft", "ArrowLeft")
    } else if str_eq(k, "ArrowRight") || str_eq(k, "right") {
        ("ArrowRight", "ArrowRight")
    } else {
        (k, k)
    };
    (a.to_owned(), b.to_owned())
}

fn prefix_bit_exec(p: &str) -> (r: Option<i32>)
    ensures
        r == prefix_bit(p@),
{
    let l = to_lowercase(p);
    let s = l.as_str();
    if str_eq(s, "alt") {
        Some(MODIFIER_ALT)
    } else if str_eq(s, "ctrl") || str_eq(s, "control") {
        Some(MODIFIER_CTRL)
    } else if str_eq(s, "meta") || str_eq(s, "cmd") || str_eq(s, "command") {
        Some(MODIFIER_META)
    } else if str_eq(s, "shift") {
        Some(MODIFIER_SHIFT)
    } else {
        None
    }
}

/// The key events of a combination written like `Ctrl+a`: the last part
/// pressed and released, with the modifiers named before it.
pub fn press_combo_events(combo: &str) -> (r: Vec<DispatchKeyEventParams>)
    ensures
        forall|i: int| 0 <= i < r@.len() ==> well_formed_event(#[trigger] r@[i]),
        r@.map_values(|p: DispatchKeyEventParams| stroke_of(p)) == press_combo_strokes(combo@),
{
    let cs = chars_of(combo);
    let parts = split_exec(cs.as_slice(), '+');
    let ghost ps = split(combo@, '+');
    proof {
        assert(ps.len() >= 1) by {
            lemma_split_nonempty(combo@, '+');
        }
    }
    let n = parts.len();
    let last = string_of(parts[n - 1].as_slice());
    let (key, code) = combo_key_exec(last.as_str());
    let mut m: i32 = 0;
    let mut i: usize = 0;
    while i < n - 1
        invariant
            n == parts@.len(),
            n == ps.len(),
            n >= 1,
            ps == split(combo@, '+'),
            forall|k: int| 0 <= k < parts@.len() ==> #[trigger] parts@[k]@ == ps[k],
            i <= n - 1,
            m == prefix_mask(ps.drop_last().take(i as int)),
        decreases n - 1 - i,
    {
        assert(ps.drop_last().take(i + 1).drop_last() =~= ps.drop_last().take(i as int));
        let p = string_of(parts[i].as_slice());
        match prefix_bit_exec(p.as_str()) {
            Some(b) => {
                m = m | b;
            },
            None => {},
        }
        i = i + 1;
    }
    assert(ps.drop_last().take((n - 1) as int) =~= ps.drop_last());
    let mut r: Vec<DispatchKeyEventParams> = Vec::new();
    r.push(key_event(true, key.as_str(), Some(code.as_str()), m));
    r.push(key_event(false, key.as_str(), Some(code.as_str()), m));
    assert(r@.map_values(|p: DispatchKeyEventParams| stroke_of(p)) =~= press_combo_strokes(combo@));
    r
}

// ───────────────────────── laws ─────────────────────────

/// Keys of a combination are released in the reverse order they were
/// pressed: the keystroke `i` places from the end releases the key the
/// keystroke `i` places from the start pressed.
pub proof fn law_combo_releases_in_reverse(keys: Seq<Seq<char>>, i: int)
    requires
        0 <= i < keys.len(),
    ensures
        combo_strokes(keys).len() == 2 * keys.len(),
        combo_strokes(keys)[i].down,
        combo_strokes(keys)[i].key == keys[i],
        !combo_strokes(keys)[2 * keys.len() - 1 - i].down,
        combo_strokes(keys)[2 * keys.len() - 1 - i].key == keys[i],
{
    let n = keys.len() as int;
    let held = keys.drop_last();
    let m = held_mask(held);
    let downs = held.map_values(|k: Seq<char>| KeyStroke { down: true, key: k, code: None, modifiers: m });
    let last = seq![
        KeyStroke { down: true, key: keys.last(), code: None, modifiers: m },
        KeyStroke { down: false, key: keys.last(), code: None, modifiers: m },
    ];
    let ups = held.reverse().map_values(|k: Seq<char>| KeyStroke { down: false, key: k, code: None, modifiers: 0 });
    let st = combo_strokes(keys);
    assert(st == downs + last + ups);
    assert(st.len() == 2 * n);
    let j = 2 * n - 1 - i;
    if i < n - 1 {
        assert(st[i] == downs[i]);
        assert(held[i] == keys[i]);
        assert(st[j] == ups[j - (n + 1)]);
        assert(held.reverse()[j - (n + 1)] == held[n - 2 - (j - (n + 1))]);
    } else {
        assert(st[i] == last[0]);
        assert(st[j] == last[1]);
    }
}

proof fn lemma_or_keeps_bit(x: i32, b: i32, c: i32)
    ensures
        (x | b) & b == b,
        (x & b) == b ==> ((x | c) & b) == b,
{
    assert((x | b) & b == b) by (bit_vector);
    assert((x & b) == b ==> ((x | c) & b) == b) by (bit_vector);
}

/// Every held modifier key of a combination sets its bit in the mask the
/// keystrokes carry.
pub proof fn law_held_modifier_sets_its_bit(ks: Seq<Seq<char>>, i: int, b: i32)
    requires
        0 <= i < ks.len(),
        held_key_bit(ks[i]) == Some(b),
    ensures
        held_mask(ks) & b == b,
    decreases ks.len(),
{
    let n = ks.len() - 1;
    if i == n {
        lemma_or_keeps_bit(held_mask(ks.drop_last()), b, b);
    } else {
        assert(ks.drop_last()[i] == ks[i]);
        law_held_modifier_sets_its_bit(ks.drop_last(), i, b);
        match held_key_bit(ks.last()) {
            Some(c) => lemma_or_keeps_bit(held_mask(ks.drop_last()), b, c),
            None => {},
        }
    }
}

/// Every modifier named before the last part of a combination such as
/// `ctrl+shift+z` sets its bit in the mask of both keystrokes.
pub proof fn law_prefix_modifier_sets_its_bit(ps: Seq<Seq<char>>, i: int, b: i32)
    requires
        0 <= i < ps.len(),
        prefix_bit(ps[i]) == Some(b),
    ensures
        prefix_mask(ps) & b == b,
    decreases ps.len(),
{
    let n = ps.len() - 1;
    if i == n {
        lemma_or_keeps_bit(prefix_mask(ps.drop_last()), b, b);
    } else {
        assert(ps.drop_last()[i] == ps[i]);
        law_prefix_modifier_sets_its_bit(ps.drop_last(), i, b);
        match prefix_bit(ps.last()) {
            Some(c) => lemma_or_keeps_bit(prefix_mask(ps.drop_last()), b, c),
            None => {},
        }
    }
}

/// The keystrokes of a combination before the final releases: the held
/// keys going down, then the last key down and up.
proof fn lemma_combo_mask(keys: Seq<Seq<char>>, j: int)
    requires
        keys.len() > 0,
        0 <= j <= keys.len(),
    ensures
        combo_strokes(keys)[j].modifiers == held_mask(keys.drop_last()),
        combo_strokes(keys).len() == 2 * keys.len(),
{
    let n = keys.len() as int;
    let held = keys.drop_last();
    let m = held_mask(held);
    let downs = held.map_values(|k: Seq<char>| KeyStroke { down: true, key: k, code: None, modifiers: m });
    let last = seq![
        KeyStroke { down: true, key: keys.last(), code: None, modifiers: m },
        KeyStroke { down: false, key: keys.last(), code: None, modifiers: m },
    ];
    let ups = held.reverse().map_values(|k: Seq<char>| KeyStroke { down: false, key: k, code: None, modifiers: 0 });
    let st = combo_strokes(keys);
    assert(st == downs + last + ups);
    if j < n - 1 {
        assert(st[j] == downs[j]);
    } else {
        assert(st[j] == last[j - (n - 1)]);
    }
}

proof fn lemma_no_modifier_no_mask(ks: Seq<Seq<char>>)
    requires
        forall|i: int| 0 <= i < ks.len() ==> held_key_bit(#[trigger] ks[i]) is None,
    ensures
        held_mask(ks) == 0,
    decreases ks.len(),
{
    if ks.len() > 0 {
        let d = ks.drop_last();
        assert forall|i: int| 0 <= i < d.len() implies held_key_bit(#[trigger] d[i]) is None by {
            assert(d[i] == ks[i]);
        }
        lemma_no_modifier_no_mask(d);
        assert(held_key_bit(ks[ks.len() - 1]) is None);
    }
}

/// Holding `Alt`, `Control`, `Meta` or `Command`, or `Shift` before the last
/// key of a combination sets the Alt (1), Ctrl (2), Meta (4) or Shift (8)
/// bit in every keystroke up to the last key's release; the final releases
/// of the held keys carry no modifier.
pub proof fn law_combo_holds_named_modifiers(keys: Seq<Seq<char>>, i: int, j: int)
    requires
        0 <= i < keys.len() - 1,
        0 <= j <= keys.len(),
    ensures
        keys[i] == "Alt"@ ==> combo_strokes(keys)[j].modifiers & 1 == 1,
        keys[i] == "Control"@ ==> combo_strokes(keys)[j].modifiers & 2 == 2,
        keys[i] == "Meta"@ || keys[i] == "Command"@ ==> combo_strokes(keys)[j].modifiers & 4 == 4,
        keys[i] == "Shift"@ ==> combo_strokes(keys)[j].modifiers & 8 == 8,
        forall|k: int| keys.len() < k < 2 * keys.len() ==> #[trigger] combo_strokes(keys)[k].modifiers == 0,
{
    reveal_strlit("Alt");
    reveal_strlit("Control");
    reveal_strlit("Meta");
    reveal_strlit("Command");
    reveal_strlit("Shift");
    let held = keys.drop_last();
    lemma_combo_mask(keys, j);
    assert(held[i] == keys[i]);
    if keys[i] == "Alt"@ {
        law_held_modifier_sets_its_bit(held, i, 1);
    } else if keys[i] == "Control"@ {
        law_held_modifier_sets_its_bit(held, i, 2);
    } else if keys[i] == "Meta"@ || keys[i] == "Command"@ {
        assert("Command"@[2] != "Control"@[2]);
        assert(held_key_bit(held[i]) == Some(MODIFIER_META));
        law_held_modifier_sets_its_bit(held, i, 4);
    } else if keys[i] == "Shift"@ {
        law_held_modifier_sets_its_bit(held, i, 8);
    }
    let n = keys.len() as int;
    let m = held_mask(held);
    let downs = held.map_values(|k: Seq<char>| KeyStroke { down: true, key: k, code: None, modifiers: m });
    let last = seq![
        KeyStroke { down: true, key: keys.last(), code: None, modifiers: m },
        KeyStroke { down: false, key: keys.last(), code: None, modifiers: m },
    ];
    let ups = held.reverse().map_values(|k: Seq<char>| KeyStroke { down: false, key: k, code: None, modifiers: 0 });
    assert(combo_strokes(keys) == downs + last + ups);
    assert forall|k: int| keys.len() < k < 2 * keys.len() implies #[trigger] combo_strokes(keys)[k].modifiers == 0 by {
        assert(combo_strokes(keys)[k] == ups[k - (n + 1)]);
    }
}

/// A combination whose held keys name no modifier carries no modifier in
/// any keystroke.
pub proof fn law_combo_without_modifiers(keys: Seq<Seq<char>>, j: int)
    requires
        keys.len() > 0,
        0 <= j < 2 * keys.len(),
        forall|i: int| 0 <= i < keys.len() - 1 ==> #[trigger] keys[i] != "Alt"@ && keys[i] != "Control"@
            && keys[i] != "Meta"@ && keys[i] != "Command"@ && keys[i] != "Shift"@,
    ensures
        combo_strokes(keys)[j].modifiers == 0,
{
    let held = keys.drop_last();
    assert forall|i: int| 0 <= i < held.len() implies held_key_bit(#[trigger] held[i]) is None by {
        assert(held[i] == keys[i]);
    }
    lemma_no_modifier_no_mask(held);
    if j <= keys.len() {
        lemma_combo_mask(keys, j);
    } else {
        law_combo_holds_named_modifiers(keys, 0, 0);
    }
}

/// In a combination written like `Ctrl+Shift+z`, a part before the last
/// that reads, in lower case, `alt`, `ctrl` or `control`, `meta`, `cmd` or
/// `command`, or `shift` sets the Alt (1), Ctrl (2), Meta (4) or Shift (8)
/// bit in both keystrokes.
pub proof fn law_press_combo_holds_named_modifiers(combo: Seq<char>, i: int, j: int)
    requires
        0 <= i < split(combo, '+').len() - 1,
        0 <= j < 2,
    ensures
        lowercase(split(combo, '+')[i]) == "alt"@ ==> press_combo_strokes(combo)[j].modifiers & 1 == 1,
        lowercase(split(combo, '+')[i]) == "ctrl"@ ==> press_combo_strokes(combo)[j].modifiers & 2 == 2,
        lowercase(split(combo, '+')[i]) == "control"@ ==> press_combo_strokes(combo)[j].modifiers & 2 == 2,
        lowercase(split(combo, '+')[i]) == "meta"@ ==> press_combo_strokes(combo)[j].modifiers & 4 == 4,
        lowercase(split(combo, '+')[i]) == "cmd"@ ==> press_combo_strokes(combo)[j].modifiers & 4 == 4,
        lowercase(split(combo, '+')[i]) == "command"@ ==> press_combo_strokes(combo)[j].modifiers & 4 == 4,
        lowercase(split(combo, '+')[i]) == "shift"@ ==> press_combo_strokes(combo)[j].modifiers & 8 == 8,
{
    reveal_strlit("alt");
    reveal_strlit("ctrl");
    reveal_strlit("control");
    reveal_strlit("meta");
    reveal_strlit("cmd");
    reveal_strlit("command");
    reveal_strlit("shift");
    let parts = split(combo, '+');
    let ps = parts.drop_last();
    let l = lowercase(parts[i]);
    assert(ps[i] == parts[i]);
    assert(press_combo_strokes(combo)[j].modifiers == prefix_mask(ps));
    assert(press_combo_strokes(combo)[j].modifiers == prefix_mask(ps));
    if l == "alt"@ {
        law_prefix_modifier_sets_its_bit(ps, i, 1);
    }
    if l == "ctrl"@ || l == "control"@ {
        assert("ctrl"@.len() == 4 && "control"@.len() == 7 && "alt"@.len() == 3);
        assert(l != "alt"@);
        assert(prefix_bit(ps[i]) == Some(MODIFIER_CTRL));
        law_prefix_modifier_sets_its_bit(ps, i, 2);
    }
    if l == "meta"@ || l == "cmd"@ || l == "command"@ {
        assert("command"@[2] != "control"@[2]);
        assert("meta"@.len() == 4 && "cmd"@.len() == 3 && "ctrl"@.len() == 4 && "alt"@.len() == 3);
        assert("meta"@[0] != "ctrl"@[0] && "cmd"@[0] != "alt"@[0]);
        assert(prefix_bit(ps[i]) == Some(MODIFIER_META));
        law_prefix_modifier_sets_its_bit(ps, i, 4);
    }
    if l == "shift"@ {
        law_prefix_modifier_sets_its_bit(ps, i, 8);
    }
}

} // verus!
