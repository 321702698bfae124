//! Stealth fingerprint: the navigator and screen values a page sees, and the
//! script that installs them.
//!
//! The fingerprint is fixed rather than random, since randomness is itself
//! a detection signal.
use vstd::prelude::*;
use crate::text::{join, decimal, push_str, push_decimal};

verus! {

/// Stealth fingerprint configuration.
pub struct StealthConfig {
    pub screen_width: u32,
    pub screen_height: u32,
    pub languages: Vec<String>,
    pub platform: String,
}

/// A language tag in single quotes, as a JS string literal.
pub open spec fn quoted(l: Seq<char>) -> Seq<char> {
    "'"@ + l + "'"@
}

/// The quoted language tags separated by `", "`.
pub open spec fn quoted_list(langs: Seq<String>) -> Seq<char> {
    join(langs.map_values(|l: String| quoted(l@)), ", "@)
}

/// The available screen height: the height less a 40 pixel taskbar, and
/// never below zero.
pub open spec fn avail_height(h: u32) -> nat {
    if h >= 40 { (h - 40) as nat } else { 0 }
}

/// The script that overrides `navigator.languages`, `navigator.platform` and
/// the screen dimensions with the configured values.
pub open spec fn stealth_script(langs: Seq<String>, platform: Seq<char>, w: u32, h: u32) -> Seq<char> {
    "\nObject.defineProperty(navigator, 'languages', { get: () => ["@ + quoted_list(langs)
        + "] });\nObject.defineProperty(navigator, 'platform', { get: () => '"@ + platform
        + "' });\nObject.defineProperty(screen, 'width', { get: () => "@ + decimal(w as nat)
        + " });\nObject.defineProperty(screen, 'height', { get: () => "@ + decimal(h as nat)
        + " });\nObject.defineProperty(screen, 'availWidth', { get: () => "@ + decimal(w as nat)
        + " });\nObject.defineProperty(screen, 'availHeight', { get: () => "@ + decimal(avail_height(h))
        + " });\n"@
}

/// Appends the quoted language tags, separated by `", "`.
fn push_quoted_list(s: &mut String, langs: &Vec<String>)
    ensures
        final(s)@ == old(s)@ + quoted_list(langs@),
{
    let ghost qs = langs@.map_values(|l: String| quoted(l@));
    let mut i: usize = 0;
    while i < langs.len()
        invariant
            i <= langs.len(),
            qs == langs@.map_values(|l: String| quoted(l@)),
            s@ == old(s)@ + join(qs.take(i as int), ", "@),
        decreases langs.len() - i,
    {
        let ghost before = s@;
        assert(qs.take(i + 1).drop_last() =~= qs.take(i as int));
        if i > 0 {
            push_str(s, ", ");
        }
        push_str(s, "'");
        push_str(s, langs[i].as_str());
        push_str(s, "'");
        proof {
            if i == 0 {
                assert(qs.take(1)[0] == quoted(langs@[0]@));
                assert(s@ =~= old(s)@ + join(qs.take(1), ", "@));
            } else {
                assert(qs.take(i + 1).last() == quoted(langs@[i as int]@));
                assert(s@ =~= old(s)@ + (join(qs.take(i as int), ", "@) + ", "@ + qs.take(i + 1).last()));
            }
        }
        i = i + 1;
    }
    assert(qs.take(langs.len() as int) =~= qs);
}

impl StealthConfig {
    /// Default desktop Chrome fingerprint: a 1920x1080 screen, Spanish then
    /// English languages, on a Mac.
    pub fn default_desktop() -> (c: Self)
        ensures
            c.screen_width == 1920,
            c.screen_height == 1080,
            c.languages@.len() == 3,
            c.languages@[0]@ == "es-ES"@,
            c.languages@[1]@ == "es"@,
            c.languages@[2]@ == "en"@,
            c.platform@ == "MacIntel"@,
    {
        let mut languages: Vec<String> = Vec::new();
        languages.push(String::from_str("es-ES"));
        languages.push(String::from_str("es"));
        languages.push(String::from_str("en"));
        StealthConfig {
            screen_width: 1920,
            screen_height: 1080,
            languages,
            platform: String::from_str("MacIntel"),
        }
    }

    /// The script that installs this fingerprint in a page.
    pub fn to_js(&self) -> (js: String)
        ensures
            js@ == stealth_script(self.languages@, self.platform@, self.screen_width, self.screen_height),
    {
        let mut s = String::new();
        push_str(&mut s, "\nObject.defineProperty(navigator, 'languages', { get: () => [");
        push_quoted_list(&mut s, &self.languages);
        push_str(&mut s, "] });\nObject.defineProperty(navigator, 'platform', { get: () => '");
        push_str(&mut s, self.platform.as_str());
        push_str(&mut s, "' });\nObject.defineProperty(screen, 'width', { get: () => ");
        push_decimal(&mut s, self.screen_width as u64);
        push_str(&mut s, " });\nObject.defineProperty(screen, 'height', { get: () => ");
        push_decimal(&mut s, self.screen_height as u64);
        push_str(&mut s, " });\nObject.defineProperty(screen, 'availWidth', { get: () => ");
        push_decimal(&mut s, self.screen_width as u64);
        push_str(&mut s, " });\nObject.defineProperty(screen, 'availHeight', { get: () => ");
        let avail: u32 = self.screen_height.saturating_sub(40);
        push_decimal(&mut s, avail as u64);
        push_str(&mut s, " });\n");
        proof {
            assert(avail as nat == avail_height(self.screen_height));
        }
        s
    }
}

} // verus!
