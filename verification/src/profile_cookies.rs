//! Cookies written into a Chrome profile's cookie database, so that a
//! browser started on that profile has them.
//!
//! Chrome counts time in microseconds since 1601-01-01. A cookie given with
//! an expiry keeps it; one without expires thirty days after it is written.
use vstd::prelude::*;
use crate::text::text_or;

verus! {

/// Microseconds from Chrome's epoch, 1601-01-01, to the Unix epoch.
pub const CHROME_EPOCH_OFFSET: i64 = 11_644_473_600_000_000;

/// Thirty days in microseconds.
pub const THIRTY_DAYS: i64 = 2_592_000_000_000;

/// What a cookie file says of one cookie. The expiry is in whole seconds
/// since the Unix epoch, present only when the file gives one after the
/// first second.
#[derive(Debug, Clone)]
pub struct CookieFields {
    pub name: Option<String>,
    pub value: Option<String>,
    pub domain: Option<String>,
    pub path: Option<String>,
    pub secure: Option<bool>,
    pub http_only: Option<bool>,
    pub expires_secs: Option<i64>,
    /// The cookie lasts only as long as the browser session.
    pub session: Option<bool>,
}

/// The row written for a cookie in the profile's `cookies` table.
#[derive(Debug, Clone)]
pub struct ProfileCookieRow {
    pub creation_utc: i64,
    pub host_key: String,
    pub name: String,
    pub value: String,
    pub path: String,
    pub expires_utc: i64,
    pub is_secure: bool,
    pub is_httponly: bool,
    pub last_access_utc: i64,
    /// 2 for a secure cookie, 1 for another.
    pub source_scheme: i32,
}

/// A time that Chrome can count: the Unix time in microseconds, moved to
/// Chrome's epoch and thirty days later, fits in 64 bits.
pub open spec fn countable_now(now_unix_micros: i64) -> bool {
    0 <= now_unix_micros && now_unix_micros + CHROME_EPOCH_OFFSET + THIRTY_DAYS <= i64::MAX
}

/// An expiry that Chrome can count: in microseconds, and moved to Chrome's
/// epoch, it fits in 64 bits.
pub open spec fn countable_expiry(expires_secs: Option<i64>) -> bool {
    match expires_secs {
        Some(s) => i64::MIN <= s * 1_000_000 <= i64::MAX && s * 1_000_000 + CHROME_EPOCH_OFFSET <= i64::MAX,
        None => true,
    }
}

/// Whether the clock reading and a cookie's expiry are ones Chrome can
/// count, as writing the cookie needs.
pub fn times_countable(now_unix_micros: i64, expires_secs: Option<i64>) -> (r: bool)
    ensures
        r == (countable_now(now_unix_micros) && countable_expiry(expires_secs)),
{
    if now_unix_micros < 0 || now_unix_micros > i64::MAX - CHROME_EPOCH_OFFSET - THIRTY_DAYS {
        return false;
    }
    match expires_secs {
        Some(s) => {
            let lo: i64 = i64::MIN / 1_000_000;
            let hi: i64 = (i64::MAX - CHROME_EPOCH_OFFSET) / 1_000_000;
            lo <= s && s <= hi
        },
        None => true,
    }
}

/// The expiry written for a cookie: its own, moved to Chrome's epoch, or
/// thirty days from now.
pub open spec fn expiry_utc(expires_secs: Option<i64>, now_chrome: int) -> int {
    match expires_secs {
        Some(s) => s * 1_000_000 + CHROME_EPOCH_OFFSET,
        None => now_chrome + THIRTY_DAYS,
    }
}

/// The row for a cookie written now: none for a cookie without a name, nor,
/// when session cookies are left out, for a session cookie.
pub fn profile_cookie_row(c: &CookieFields, now_unix_micros: i64, skip_session: bool) -> (r: Option<ProfileCookieRow>)
    requires
        countable_now(now_unix_micros),
        countable_expiry(c.expires_secs),
    ensures
        c.name is None || (skip_session && c.session == Some(true)) <==> r is None,
        r matches Some(row) ==> {
            let now_chrome = now_unix_micros + CHROME_EPOCH_OFFSET;
            let secure = c.secure == Some(true);
            &&& row.name@ == text_or(c.name, Seq::empty())
            &&& row.value@ == text_or(c.value, Seq::empty())
            &&& row.host_key@ == text_or(c.domain, Seq::empty())
            &&& row.path@ == text_or(c.path, "/"@)
            &&& row.is_secure == secure
            &&& row.is_httponly == (c.http_only == Some(true))
            &&& row.creation_utc == now_chrome
            &&& row.last_access_utc == now_chrome
            &&& row.expires_utc == expiry_utc(c.expires_secs, now_chrome)
            &&& row.source_scheme == if secure { 2i32 } else { 1i32 }
        },
{
    let name = match &c.name {
        Some(n) => n.clone(),
        None => return None,
    };
    if skip_session && c.session == Some(true) {
        return None;
    }
    let now_chrome: i64 = now_unix_micros + CHROME_EPOCH_OFFSET;
    let expires_utc: i64 = match c.expires_secs {
        Some(s) => s * 1_000_000 + CHROME_EPOCH_OFFSET,
        None => now_chrome + THIRTY_DAYS,
    };
    let secure = c.secure == Some(true);
    proof {
        reveal_strlit("/");
    }
    Some(ProfileCookieRow {
        creation_utc: now_chrome,
        host_key: match &c.domain {
            Some(d) => d.clone(),
            None => String::new(),
        },
        name,
        value: match &c.value {
            Some(v) => v.clone(),
            None => String::new(),
        },
        path: match &c.path {
            Some(p) => p.clone(),
            None => "/".to_owned(),
        },
        expires_utc,
        is_secure: secure,
        is_httponly: c.http_only == Some(true),
        last_access_utc: now_chrome,
        source_scheme: if secure { 2 } else { 1 },
    })
}

} // verus!
