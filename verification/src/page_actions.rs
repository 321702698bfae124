//! Page actions done by a script run in the page: the script each action
//! runs, and what its reply means.
//!
//! Selectors and texts go into a script as JSON string literals, except
//! where a script takes them between single quotes, with escapes.
use vstd::prelude::*;
use crate::json::{json_quote, json_string_literal};
use crate::text::{chars_of, push_str, push_char, push_decimal, decimal, join, starts_with, starts_with_str, str_eq, utf8_len};
use crate::interact::{escape_arg, escape_js_arg};
use vstd::string::StringSliceAdditionalSpecFns;
use vstd::utf8::{decode_utf8, encode_utf8, is_char_boundary};

verus! {

// ───────────────────────── escapes ─────────────────────────

/// A character of a text put between single quotes: a quote gets a
/// backslash.
pub open spec fn quote_char(c: char) -> Seq<char> {
    if c == '\'' {
        "\\'"@
    } else {
        seq![c]
    }
}

/// A text with each single quote escaped by a backslash.
pub open spec fn quote_escaped(s: Seq<char>) -> Seq<char>
    decreases s.len(),
{
    if s.len() == 0 {
        Seq::empty()
    } else {
        quote_escaped(s.drop_last()) + quote_char(s.last())
    }
}

/// A character of a search text put between single quotes: a backslash is
/// doubled and a quote gets a backslash.
pub open spec fn hint_char(c: char) -> Seq<char> {
    if c == '\\' {
        "\\\\"@
    } else if c == '\'' {
        "\\'"@
    } else {
        seq![c]
    }
}

/// A search text with backslashes doubled and single quotes escaped.
pub open spec fn hint_escaped(s: Seq<char>) -> Seq<char>
    decreases s.len(),
{
    if s.len() == 0 {
        Seq::empty()
    } else {
        hint_escaped(s.drop_last()) + hint_char(s.last())
    }
}

/// Escapes the single quotes of a text with a backslash.
pub fn escape_quotes(s: &str) -> (r: String)
    ensures
        r@ == quote_escaped(s@),
{
    let cs = chars_of(s);
    let mut r = String::new();
    let mut i: usize = 0;
    proof {
        reveal_strlit("\\'");
    }
    while i < cs.len()
        invariant
            i <= cs@.len(),
            cs@ == s@,
            r@ == quote_escaped(cs@.take(i as int)),
        decreases cs@.len() - i,
    {
        let c = cs[i];
        let ghost before = r@;
        if c == '\'' {
            push_str(&mut r, "\\'");
        } else {
            push_char(&mut r, c);
        }
        assert(cs@.take(i + 1).drop_last() =~= cs@.take(i as int));
        assert(r@ == before + quote_char(c));
        i = i + 1;
    }
    assert(cs@.take(cs@.len() as int) =~= cs@);
    r
}

/// Doubles the backslashes of a search text and escapes its single quotes.
pub fn escape_hint(s: &str) -> (r: String)
    ensures
        r@ == hint_escaped(s@),
{
    let cs = chars_of(s);
    let mut r = String::new();
    let mut i: usize = 0;
    proof {
        reveal_strlit("\\'");
        reveal_strlit("\\\\");
    }
    while i < cs.len()
        invariant
            i <= cs@.len(),
            cs@ == s@,
            r@ == hint_escaped(cs@.take(i as int)),
        decreases cs@.len() - i,
    {
        let c = cs[i];
        let ghost before = r@;
        if c == '\\' {
            push_str(&mut r, "\\\\");
        } else if c == '\'' {
            push_str(&mut r, "\\'");
        } else {
            push_char(&mut r, c);
        }
        assert(cs@.take(i + 1).drop_last() =~= cs@.take(i as int));
        assert(r@ == before + hint_char(c));
        i = i + 1;
    }
    assert(cs@.take(cs@.len() as int) =~= cs@);
    r
}

// ───────────────────────── scripts ─────────────────────────

/// The document a script works on: the top document, unless it is a
/// frameset with little to act on, then the frame with the most to act on.
pub open spec fn active_doc_text() -> Seq<char> {
    "(function() { var topCount = document.querySelectorAll('a,button,input,select,textarea').length; if (topCount > 5 || !document.querySelector('frameset, iframe')) return document; var best = null, bestScore = 0; var frames = document.querySelectorAll('frame, iframe'); for (var i = 0; i < frames.length; i++) { try { var doc = frames[i].contentDocument; if (!doc || !doc.body) continue; var score = doc.querySelectorAll('a,button,input,select,textarea').length; score += Math.min(doc.body.innerText.length / 100, 50); if (score > bestScore) { bestScore = score; best = doc; } } catch(e) { } } return best || document; })()"@
}

/// The script that clicks the element a selector finds.
pub open spec fn click_css_text(selector: Seq<char>) -> Seq<char> {
    "(() => { const el = document.querySelector("@ + json_string_literal(selector)
        + "); if (!el) return 'not_found'; el.scrollIntoViewIfNeeded(); el.click(); return 'clicked: ' + (el.textContent || '').trim().substring(0, 40); })()"@
}

/// The script that sets the value of the input a selector finds, through the
/// input's own value setter, and sends the events a framework listens to.
pub open spec fn type_react_text(selector: Seq<char>, value: Seq<char>) -> Seq<char> {
    "(() => { const el = document.querySelector("@ + json_string_literal(selector)
        + "); if (!el) return 'not_found'; el.scrollIntoViewIfNeeded(); el.focus(); el.click(); const proto = el.tagName === 'TEXTAREA' ? window.HTMLTextAreaElement.prototype : window.HTMLInputElement.prototype; const nativeSetter = Object.getOwnPropertyDescriptor(proto, 'value')?.set; if (nativeSetter) { nativeSetter.call(el, "@
        + json_string_literal(value) + "); } else { el.value = "@ + json_string_literal(value)
        + "; } el.dispatchEvent(new Event('input', { bubbles: true })); el.dispatchEvent(new Event('change', { bubbles: true })); el.dispatchEvent(new KeyboardEvent('keydown', { key: 'a', bubbles: true })); el.dispatchEvent(new KeyboardEvent('keyup', { key: 'a', bubbles: true })); return 'typed: ' + el.value?.substring(0, 40); })()"@
}

/// The script that tells whether the element a selector finds is absent,
/// hidden or visible.
pub open spec fn selector_state_text(selector: Seq<char>) -> Seq<char> {
    "(() => { const el = document.querySelector("@ + json_string_literal(selector)
        + "); if (!el) return 'absent'; if (el.offsetParent === null && el.tagName !== 'BODY') return 'hidden'; return 'visible'; })()"@
}

/// The script that scrolls the element a selector finds to the middle of
/// the view.
pub open spec fn scroll_to_text(selector: Seq<char>) -> Seq<char> {
    "(() => { const el = document.querySelector("@ + json_string_literal(selector)
        + "); if (!el) return 'not_found'; el.scrollIntoView({ behavior: 'smooth', block: 'center' }); return 'scrolled'; })()"@
}

/// The script that gives the box of the element a selector finds.
pub open spec fn bounds_text(selector: Seq<char>) -> Seq<char> {
    "(() => { const el = document.querySelector("@ + json_string_literal(selector)
        + "); if (!el) return 'null'; const r = el.getBoundingClientRect(); return JSON.stringify({x: r.x, y: r.y, w: r.width, h: r.height}); })()"@
}

/// The script that finds the first link, button or menu item whose text
/// holds the given one and gives the point at its middle.
pub open spec fn hover_text(text: Seq<char>) -> Seq<char> {
    "(() => { const _doc = "@ + active_doc_text() + "; const target = "@ + json_string_literal(text)
        + "; const lower = target.toLowerCase(); for (const el of _doc.querySelectorAll('a, button, [role=\"button\"], [role=\"link\"], [role=\"menuitem\"]')) { const t = (el.textContent || el.getAttribute('aria-label') || '').trim(); if (t.toLowerCase().includes(lower)) { el.scrollIntoViewIfNeeded(); const rect = el.getBoundingClientRect(); return JSON.stringify({x: rect.x + rect.width/2, y: rect.y + rect.height/2, text: t.substring(0,60)}); } } return 'not_found'; })()"@
}

/// The script that sets the first select whose label holds the target (any
/// select for an empty target) to the value.
pub open spec fn select_option_text(target: Seq<char>, value: Seq<char>) -> Seq<char> {
    "(() => { const _doc = "@ + active_doc_text() + "; const target = "@ + json_string_literal(target)
        + "; const value = "@ + json_string_literal(value)
        + "; const lower = target.toLowerCase(); for (const el of _doc.querySelectorAll('select')) { const label = (el.getAttribute('aria-label') || el.name || el.id || '').toLowerCase(); if (label.includes(lower) || lower === '') { el.value = value; el.dispatchEvent(new Event('change', {bubbles: true})); return 'selected: ' + value; } } return 'not_found'; })()"@
}

/// The script that outlines the element a selector finds in red.
pub open spec fn highlight_text(selector: Seq<char>) -> Seq<char> {
    "(() => { const el = document.querySelector('"@ + quote_escaped(selector)
        + "'); if (!el) return 'not_found'; el.style.outline = '3px solid red'; el.style.outlineOffset = '2px'; return 'highlighted'; })()"@
}

/// The script that tells whether the page's text holds the search text.
pub open spec fn frame_search_text(hint: Seq<char>) -> Seq<char> {
    "!!(document.body && document.body.innerText.includes('"@ + hint_escaped(hint) + "'))"@
}

/// The script that stores a pair in `localStorage` or, when `session`, in
/// `sessionStorage`.
pub open spec fn storage_set_text(session: bool, key: Seq<char>, value: Seq<char>) -> Seq<char> {
    (if session { "sessionStorage"@ } else { "localStorage"@ }) + ".setItem("@ + json_string_literal(key) + ", "@
        + json_string_literal(value) + ")"@
}

/// The script that clicks the element a selector finds.
pub fn click_css_script(selector: &str) -> (r: String)
    ensures
        r@ == click_css_text(selector@),
{
    let q = json_quote(selector);
    let mut r = String::new();
    push_str(&mut r, "(() => { const el = document.querySelector(");
    push_str(&mut r, q.as_str());
    push_str(&mut r, "); if (!el) return 'not_found'; el.scrollIntoViewIfNeeded(); el.click(); return 'clicked: ' + (el.textContent || '').trim().substring(0, 40); })()");
    r
}

/// The script that types a value into the input a selector finds.
pub fn type_react_script(selector: &str, value: &str) -> (r: String)
    ensures
        r@ == type_react_text(selector@, value@),
{
    let q = json_quote(selector);
    let v = json_quote(value);
    let mut r = String::new();
    push_str(&mut r, "(() => { const el = document.querySelector(");
    push_str(&mut r, q.as_str());
    push_str(&mut r, "); if (!el) return 'not_found'; el.scrollIntoViewIfNeeded(); el.focus(); el.click(); const proto = el.tagName === 'TEXTAREA' ? window.HTMLTextAreaElement.prototype : window.HTMLInputElement.prototype; const nativeSetter = Object.getOwnPropertyDescriptor(proto, 'value')?.set; if (nativeSetter) { nativeSetter.call(el, ");
    push_str(&mut r, v.as_str());
    push_str(&mut r, "); } else { el.value = ");
    push_str(&mut r, v.as_str());
    push_str(&mut r, "; } el.dispatchEvent(new Event('input', { bubbles: true })); el.dispatchEvent(new Event('change', { bubbles: true })); el.dispatchEvent(new KeyboardEvent('keydown', { key: 'a', bubbles: true })); el.dispatchEvent(new KeyboardEvent('keyup', { key: 'a', bubbles: true })); return 'typed: ' + el.value?.substring(0, 40); })()");
    r
}

/// The script that tells whether the element a selector finds is shown.
pub fn selector_state_script(selector: &str) -> (r: String)
    ensures
        r@ == selector_state_text(selector@),
{
    let q = json_quote(selector);
    let mut r = String::new();
    push_str(&mut r, "(() => { const el = document.querySelector(");
    push_str(&mut r, q.as_str());
    push_str(&mut r, "); if (!el) return 'absent'; if (el.offsetParent === null && el.tagName !== 'BODY') return 'hidden'; return 'visible'; })()");
    r
}

/// The script that scrolls to the element a selector finds.
pub fn scroll_to_script(selector: &str) -> (r: String)
    ensures
        r@ == scroll_to_text(selector@),
{
    let q = json_quote(selector);
    let mut r = String::new();
    push_str(&mut r, "(() => { const el = document.querySelector(");
    push_str(&mut r, q.as_str());
    push_str(&mut r, "); if (!el) return 'not_found'; el.scrollIntoView({ behavior: 'smooth', block: 'center' }); return 'scrolled'; })()");
    r
}

/// The script that gives the box of the element a selector finds.
pub fn bounds_script(selector: &str) -> (r: String)
    ensures
        r@ == bounds_text(selector@),
{
    let q = json_quote(selector);
    let mut r = String::new();
    push_str(&mut r, "(() => { const el = document.querySelector(");
    push_str(&mut r, q.as_str());
    push_str(&mut r, "); if (!el) return 'null'; const r = el.getBoundingClientRect(); return JSON.stringify({x: r.x, y: r.y, w: r.width, h: r.height}); })()");
    r
}

fn push_active_doc(r: &mut String)
    ensures
        final(r)@ == old(r)@ + active_doc_text(),
{
    push_str(r, "(function() { var topCount = document.querySelectorAll('a,button,input,select,textarea').length; if (topCount > 5 || !document.querySelector('frameset, iframe')) return document; var best = null, bestScore = 0; var frames = document.querySelectorAll('frame, iframe'); for (var i = 0; i < frames.length; i++) { try { var doc = frames[i].contentDocument; if (!doc || !doc.body) continue; var score = doc.querySelectorAll('a,button,input,select,textarea').length; score += Math.min(doc.body.innerText.length / 100, 50); if (score > bestScore) { bestScore = score; best = doc; } } catch(e) { } } return best || document; })()");
}

/// The script that finds the element to hover over by its text.
pub fn hover_script(text: &str) -> (r: String)
    ensures
        r@ == hover_text(text@),
{
    let q = json_quote(text);
    let mut r = String::new();
    push_str(&mut r, "(() => { const _doc = ");
    push_active_doc(&mut r);
    push_str(&mut r, "; const target = ");
    push_str(&mut r, q.as_str());
    push_str(&mut r, "; const lower = target.toLowerCase(); for (const el of _doc.querySelectorAll('a, button, [role=\"button\"], [role=\"link\"], [role=\"menuitem\"]')) { const t = (el.textContent || el.getAttribute('aria-label') || '').trim(); if (t.toLowerCase().includes(lower)) { el.scrollIntoViewIfNeeded(); const rect = el.getBoundingClientRect(); return JSON.stringify({x: rect.x + rect.width/2, y: rect.y + rect.height/2, text: t.substring(0,60)}); } } return 'not_found'; })()");
    r
}

/// The script that chooses a value in the select named by the target.
pub fn select_option_script(target: &str, value: &str) -> (r: String)
    ensures
        r@ == select_option_text(target@, value@),
{
    let t = json_quote(target);
    let v = json_quote(value);
    let mut r = String::new();
    push_str(&mut r, "(() => { const _doc = ");
    push_active_doc(&mut r);
    push_str(&mut r, "; const target = ");
    push_str(&mut r, t.as_str());
    push_str(&mut r, "; const value = ");
    push_str(&mut r, v.as_str());
    push_str(&mut r, "; const lower = target.toLowerCase(); for (const el of _doc.querySelectorAll('select')) { const label = (el.getAttribute('aria-label') || el.name || el.id || '').toLowerCase(); if (label.includes(lower) || lower === '') { el.value = value; el.dispatchEvent(new Event('change', {bubbles: true})); return 'selected: ' + value; } } return 'not_found'; })()");
    r
}

/// The script that outlines the element a selector finds.
pub fn highlight_script(selector: &str) -> (r: String)
    ensures
        r@ == highlight_text(selector@),
{
    let e = escape_quotes(selector);
    let mut r = String::new();
    push_str(&mut r, "(() => { const el = document.querySelector('");
    push_str(&mut r, e.as_str());
    push_str(&mut r, "'); if (!el) return 'not_found'; el.style.outline = '3px solid red'; el.style.outlineOffset = '2px'; return 'highlighted'; })()");
    r
}

/// The script that looks for a text in a frame's page.
pub fn frame_search_script(hint: &str) -> (r: String)
    ensures
        r@ == frame_search_text(hint@),
{
    let e = escape_hint(hint);
    let mut r = String::new();
    push_str(&mut r, "!!(document.body && document.body.innerText.includes('");
    push_str(&mut r, e.as_str());
    push_str(&mut r, "'))");
    r
}

/// The script that stores a pair in the page's local or session storage.
pub fn storage_set_script(session: bool, key: &str, value: &str) -> (r: String)
    ensures
        r@ == storage_set_text(session, key@, value@),
{
    let k = json_quote(key);
    let v = json_quote(value);
    let mut r = String::new();
    if session {
        push_str(&mut r, "sessionStorage");
    } else {
        push_str(&mut r, "localStorage");
    }
    push_str(&mut r, ".setItem(");
    push_str(&mut r, k.as_str());
    push_str(&mut r, ", ");
    push_str(&mut r, v.as_str());
    push_str(&mut r, ")");
    r
}

/// What an element query reads, by name: `text`, `html`, `value`, `box`,
/// `styles` (the first twenty computed ones), `count`, or else the
/// attribute of that name.
pub open spec fn element_info_text(selector: Seq<char>, what: Seq<char>) -> Seq<char> {
    let q = quote_escaped(selector);
    if what == "text"@ {
        "document.querySelector('"@ + q + "')?.innerText || ''"@
    } else if what == "html"@ {
        "document.querySelector('"@ + q + "')?.innerHTML || ''"@
    } else if what == "value"@ {
        "document.querySelector('"@ + q + "')?.value || ''"@
    } else if what == "box"@ {
        "JSON.stringify(document.querySelector('"@ + q + "')?.getBoundingClientRect())"@
    } else if what == "styles"@ {
        "JSON.stringify(Object.fromEntries([...getComputedStyle(document.querySelector('"@ + q
            + "'))].map(p => [p, getComputedStyle(document.querySelector('"@ + q
            + "')).getPropertyValue(p)]).slice(0, 20)))"@
    } else if what == "count"@ {
        "document.querySelectorAll('"@ + q + "').length.toString()"@
    } else {
        "document.querySelector('"@ + q + "')?.getAttribute('"@ + quote_escaped(what) + "') || ''"@
    }
}

/// The script that reads what is asked of the element a selector finds.
pub fn element_info_script(selector: &str, what: &str) -> (r: String)
    ensures
        r@ == element_info_text(selector@, what@),
{
    let q = escape_quotes(selector);
    let mut r = String::new();
    proof {
        reveal_strlit("text");
        reveal_strlit("html");
        reveal_strlit("value");
        reveal_strlit("box");
        reveal_strlit("styles");
        reveal_strlit("count");
    }
    if str_eq(what, "text") {
        push_str(&mut r, "document.querySelector('");
        push_str(&mut r, q.as_str());
        push_str(&mut r, "')?.innerText || ''");
    } else if str_eq(what, "html") {
        push_str(&mut r, "document.querySelector('");
        push_str(&mut r, q.as_str());
        push_str(&mut r, "')?.innerHTML || ''");
    } else if str_eq(what, "value") {
        push_str(&mut r, "document.querySelector('");
        push_str(&mut r, q.as_str());
        push_str(&mut r, "')?.value || ''");
    } else if str_eq(what, "box") {
        push_str(&mut r, "JSON.stringify(document.querySelector('");
        push_str(&mut r, q.as_str());
        push_str(&mut r, "')?.getBoundingClientRect())");
    } else if str_eq(what, "styles") {
        push_str(&mut r, "JSON.stringify(Object.fromEntries([...getComputedStyle(document.querySelector('");
        push_str(&mut r, q.as_str());
        push_str(&mut r, "'))].map(p => [p, getComputedStyle(document.querySelector('");
        push_str(&mut r, q.as_str());
        push_str(&mut r, "')).getPropertyValue(p)]).slice(0, 20)))");
    } else if str_eq(what, "count") {
        push_str(&mut r, "document.querySelectorAll('");
        push_str(&mut r, q.as_str());
        push_str(&mut r, "').length.toString()");
    } else {
        let w = escape_quotes(what);
        push_str(&mut r, "document.querySelector('");
        push_str(&mut r, q.as_str());
        push_str(&mut r, "')?.getAttribute('");
        push_str(&mut r, w.as_str());
        push_str(&mut r, "') || ''");
    }
    r
}

/// The button a message is sent with: the one the selector finds, or when
/// the selector is empty the first submit or send button.
pub open spec fn send_button_text(button_selector: Seq<char>) -> Seq<char> {
    if button_selector.len() == 0 {
        "document.querySelector('button[type=\"submit\"], button[class*=\"send\"], button[aria-label*=\"Send\"], button[aria-label*=\"Enviar\"]')"@
    } else {
        "document.querySelector('"@ + quote_escaped(button_selector) + "')"@
    }
}

/// The script that writes a message into the input a selector finds, as if
/// typed, clicks the send button and reports: `NO_INPUT`, `NO_BUTTON`,
/// `BUTTON_DISABLED`, `SEND_ERROR` when the page then shows a send error,
/// else `SENT`.
pub open spec fn send_message_text(text: Seq<char>, input_selector: Seq<char>, button_selector: Seq<char>) -> Seq<char> {
    "(async () => { const el = document.querySelector('"@ + quote_escaped(input_selector)
        + "'); if (!el) return 'NO_INPUT'; el.focus(); document.execCommand('selectAll', false, null); document.execCommand('delete', false, null); document.execCommand('insertText', false, '"@
        + escape_arg(text)
        + "'); el.dispatchEvent(new InputEvent('beforeinput', {bubbles: true, cancelable: true, inputType: 'insertText', data: '.'})); el.dispatchEvent(new InputEvent('input', {bubbles: true, cancelable: true, inputType: 'insertText', data: '.'})); el.dispatchEvent(new KeyboardEvent('keydown', {key: '.', code: 'Period', bubbles: true})); el.dispatchEvent(new KeyboardEvent('keyup', {key: '.', code: 'Period', bubbles: true})); await new Promise(r => setTimeout(r, 300)); const btn = "@
        + send_button_text(button_selector)
        + "; if (!btn) return 'NO_BUTTON'; if (btn.disabled) return 'BUTTON_DISABLED'; btn.click(); await new Promise(r => setTimeout(r, 2000)); const body = document.body.innerText; if (body.includes('Volver a intentar') || body.includes('Error al enviar') || body.includes('Try again')) { return 'SEND_ERROR'; } return 'SENT'; })()"@
}

/// The script that sends a message through a chat-like input.
pub fn send_message_script(text: &str, input_selector: &str, button_selector: &str) -> (r: String)
    ensures
        r@ == send_message_text(text@, input_selector@, button_selector@),
{
    let t = escape_js_arg(text);
    let i = escape_quotes(input_selector);
    let mut r = String::new();
    push_str(&mut r, "(async () => { const el = document.querySelector('");
    push_str(&mut r, i.as_str());
    push_str(&mut r, "'); if (!el) return 'NO_INPUT'; el.focus(); document.execCommand('selectAll', false, null); document.execCommand('delete', false, null); document.execCommand('insertText', false, '");
    push_str(&mut r, t.as_str());
    push_str(&mut r, "'); el.dispatchEvent(new InputEvent('beforeinput', {bubbles: true, cancelable: true, inputType: 'insertText', data: '.'})); el.dispatchEvent(new InputEvent('input', {bubbles: true, cancelable: true, inputType: 'insertText', data: '.'})); el.dispatchEvent(new KeyboardEvent('keydown', {key: '.', code: 'Period', bubbles: true})); el.dispatchEvent(new KeyboardEvent('keyup', {key: '.', code: 'Period', bubbles: true})); await new Promise(r => setTimeout(r, 300)); const btn = ");
    if button_selector.unicode_len() == 0 {
        push_str(&mut r, "document.querySelector('button[type=\"submit\"], button[class*=\"send\"], button[aria-label*=\"Send\"], button[aria-label*=\"Enviar\"]')");
    } else {
        let b = escape_quotes(button_selector);
        push_str(&mut r, "document.querySelector('");
        push_str(&mut r, b.as_str());
        push_str(&mut r, "')");
    }
    push_str(&mut r, "; if (!btn) return 'NO_BUTTON'; if (btn.disabled) return 'BUTTON_DISABLED'; btn.click(); await new Promise(r => setTimeout(r, 2000)); const body = document.body.innerText; if (body.includes('Volver a intentar') || body.includes('Error al enviar') || body.includes('Try again')) { return 'SEND_ERROR'; } return 'SENT'; })()");
    r
}

// ───────────────────────── replies ─────────────────────────

/// An action whose script's reply says whether it was done.
#[derive(Debug, Clone, Copy, PartialEq, Eq, Structural)]
pub enum ScriptAction {
    ClickCss,
    TypeReact,
    ScrollTo,
    Bounds,
    Hover,
    SelectOption,
}

/// Whether the reply says the action was done: a click reply starts with
/// `clicked`, a typing reply with `typed`; a scroll reply is `scrolled`; a
/// box reply is anything but `null`, a hover reply anything but
/// `not_found`; a select reply does not start with `not_found`.
pub open spec fn action_done(a: ScriptAction, reply: Seq<char>) -> bool {
    match a {
        ScriptAction::ClickCss => starts_with(reply, "clicked"@),
        ScriptAction::TypeReact => starts_with(reply, "typed"@),
        ScriptAction::ScrollTo => reply == "scrolled"@,
        ScriptAction::Bounds => reply != "null"@,
        ScriptAction::Hover => reply != "not_found"@,
        ScriptAction::SelectOption => !starts_with(reply, "not_found"@),
    }
}

/// Whether the reply of an action's script says it was done.
pub fn script_succeeded(a: ScriptAction, reply: &str) -> (r: bool)
    ensures
        r == action_done(a, reply@),
{
    proof {
        reveal_strlit("clicked");
        reveal_strlit("typed");
        reveal_strlit("scrolled");
        reveal_strlit("null");
        reveal_strlit("not_found");
    }
    let cs = chars_of(reply);
    match a {
        ScriptAction::ClickCss => starts_with_str(cs.as_slice(), "clicked"),
        ScriptAction::TypeReact => starts_with_str(cs.as_slice(), "typed"),
        ScriptAction::ScrollTo => str_eq(reply, "scrolled"),
        ScriptAction::Bounds => !str_eq(reply, "null"),
        ScriptAction::Hover => !str_eq(reply, "not_found"),
        ScriptAction::SelectOption => !starts_with_str(cs.as_slice(), "not_found"),
    }
}

/// How long to wait between two looks at a selector, in milliseconds.
pub const SELECTOR_POLL_MS: u64 = 500;

/// What follows a look at a selector while waiting for it.
#[derive(Debug, Clone, Copy, PartialEq, Eq, Structural)]
pub enum SelectorWaitStep {
    /// The element is shown: the wait succeeds.
    Found,
    /// More time than allowed has passed: the wait fails.
    TimedOut,
    /// Look again after the poll interval.
    PollAgain,
}

/// The step after a look whose reply was `reply`, `elapsed_nanos` after the
/// wait began, with `timeout_ms` allowed.
pub open spec fn wait_step(reply: Seq<char>, elapsed_nanos: int, timeout_ms: int) -> SelectorWaitStep {
    if reply == "visible"@ {
        SelectorWaitStep::Found
    } else if elapsed_nanos > timeout_ms * 1_000_000 {
        SelectorWaitStep::TimedOut
    } else {
        SelectorWaitStep::PollAgain
    }
}

/// The step after a look at a selector while waiting for it to be shown.
pub fn selector_wait_step(reply: &str, elapsed_nanos: u128, timeout_ms: u64) -> (r: SelectorWaitStep)
    ensures
        r == wait_step(reply@, elapsed_nanos as int, timeout_ms as int),
{
    proof {
        reveal_strlit("visible");
    }
    if str_eq(reply, "visible") {
        SelectorWaitStep::Found
    } else if elapsed_nanos > (timeout_ms as u128) * 1_000_000 {
        SelectorWaitStep::TimedOut
    } else {
        SelectorWaitStep::PollAgain
    }
}

/// A shown element ends the wait whenever it is seen.
pub proof fn law_visible_ends_wait(elapsed_nanos: int, timeout_ms: int)
    ensures
        wait_step("visible"@, elapsed_nanos, timeout_ms) == SelectorWaitStep::Found,
{
}

/// The wait never fails before the allowed time has passed.
pub proof fn law_no_timeout_before_deadline(reply: Seq<char>, elapsed_nanos: int, timeout_ms: int)
    requires
        elapsed_nanos <= timeout_ms * 1_000_000,
    ensures
        wait_step(reply, elapsed_nanos, timeout_ms) != SelectorWaitStep::TimedOut,
{
}

// ───────────────────────── reports ─────────────────────────

/// A value as a report shows it: its first twenty bytes when longer.
pub open spec fn shown_value(value: Seq<char>) -> Seq<char> {
    if utf8_len(value) > 20 {
        decode_utf8(encode_utf8(value).take(20))
    } else {
        value
    }
}

/// The report line for a field of a form being filled.
pub open spec fn fill_line(target: Seq<char>, value: Seq<char>, focused: bool) -> Seq<char> {
    if focused {
        "filled: "@ + target + " = "@ + shown_value(value)
    } else {
        "not_found: "@ + target
    }
}

/// The report line for a field: `filled: target = value` (the value cut to
/// twenty bytes) when the field took focus, else `not_found: target`.
pub fn fill_report(target: &str, value: &str, focused: bool) -> (r: String)
    requires
        focused && utf8_len(value@) > 20 ==> is_char_boundary(encode_utf8(value@), 20),
    ensures
        r@ == fill_line(target@, value@, focused),
{
    let mut r = String::new();
    if focused {
        push_str(&mut r, "filled: ");
        push_str(&mut r, target);
        push_str(&mut r, " = ");
        assert(value.spec_bytes() == encode_utf8(value@));
        if value.len() > 20 {
            let (a, _b) = value.split_at(20);
            proof {
                assert(a.spec_bytes() == encode_utf8(a@));
                vstd::utf8::encode_utf8_decode_utf8(a@);
            }
            push_str(&mut r, a);
        } else {
            push_str(&mut r, value);
        }
    } else {
        push_str(&mut r, "not_found: ");
        push_str(&mut r, target);
    }
    r
}

/// The parts of an import's summary: how many cookies, `localStorage` and
/// `sessionStorage` items were imported, for those the state held.
pub open spec fn import_parts(cookies: Option<u64>, local: Option<u64>, session: Option<u64>) -> Seq<Seq<char>> {
    (match cookies { Some(n) => seq![decimal(n as nat) + " cookies"@], None => Seq::empty() })
        + (match local { Some(n) => seq![decimal(n as nat) + " localStorage"@], None => Seq::empty() })
        + (match session { Some(n) => seq![decimal(n as nat) + " sessionStorage"@], None => Seq::empty() })
}

/// The summary of an import: its parts joined with `, `.
pub fn import_summary(cookies: Option<u64>, local: Option<u64>, session: Option<u64>) -> (r: String)
    ensures
        r@ == join(import_parts(cookies, local, session), ", "@),
{
    let mut parts: Vec<String> = Vec::new();
    match cookies {
        Some(n) => {
            let mut p = String::new();
            push_decimal(&mut p, n);
            push_str(&mut p, " cookies");
            parts.push(p);
        },
        None => {},
    }
    match local {
        Some(n) => {
            let mut p = String::new();
            push_decimal(&mut p, n);
            push_str(&mut p, " localStorage");
            parts.push(p);
        },
        None => {},
    }
    match session {
        Some(n) => {
            let mut p = String::new();
            push_decimal(&mut p, n);
            push_str(&mut p, " sessionStorage");
            parts.push(p);
        },
        None => {},
    }
    assert(parts@.map_values(|s: String| s@) =~= import_parts(cookies, local, session));
    join_strings(&parts, ", ")
}

fn join_strings(parts: &Vec<String>, sep: &str) -> (r: String)
    ensures
        r@ == join(parts@.map_values(|s: String| s@), sep@),
{
    let mut cs: Vec<Vec<char>> = Vec::new();
    let mut i: usize = 0;
    while i < parts.len()
        invariant
            i <= parts@.len(),
            cs@.len() == i,
            forall|j: int| 0 <= j < i ==> #[trigger] cs@[j]@ == parts@[j]@,
        decreases parts@.len() - i,
    {
        cs.push(chars_of(parts[i].as_str()));
        i = i + 1;
    }
    assert(cs@.map_values(|p: Vec<char>| p@) =~= parts@.map_values(|s: String| s@));
    let sc = chars_of(sep);
    let j = crate::text::join_exec(&cs, sc.as_slice());
    crate::text::string_of(j.as_slice())
}

} // verus!
