//! Auth identities: session backends and health, 2FA challenge kinds, the
//! keychain that holds credentials, and which profile serves a domain.
//!
//! Secrets live in the OS keychain under keys of the form
//! `profile/{profile_id}/{kind}`; what the keychain answers depends on the
//! machine, so only the shape of each answer is stated.
use vstd::prelude::*;
use crate::text::{str_eq, ends_with, push_str, chars_of, ends_with_exec, all_digits};
use crate::clock::{wall_clock_since_epoch, signed_nanos};

verus! {

/// Where a profile's session state is kept.
#[derive(Debug, Clone, Copy, PartialEq, Eq, Structural)]
pub enum SessionBackend {
    /// The library's own cookie store.
    ManagedCookies,
    /// A real Chrome user data directory.
    ChromeProfile,
}

impl Default for SessionBackend {
    fn default() -> (b: Self)
        ensures
            b == SessionBackend::ManagedCookies,
    {
        SessionBackend::ManagedCookies
    }
}

/// Health of a stored session.
#[derive(Debug, Clone, Copy, PartialEq, Eq, Structural)]
pub enum HealthStatus {
    Unknown,
    Valid,
    Expired,
    Invalid,
}

/// Health of a stored session, with the reason for it.
#[derive(Debug, Clone)]
pub struct SessionHealth {
    pub status: HealthStatus,
    pub reason: Option<String>,
}

/// Kind of second factor a site asks for.
#[derive(Debug, Clone, Copy, PartialEq, Eq, Structural)]
pub enum ChallengeType {
    OtpSms,
    OtpEmail,
    Totp,
    MagicLink,
    Captcha,
    SecurityQuestion,
    ApprovalPrompt,
    Unknown,
}

/// Progress of a second-factor challenge.
#[derive(Debug, Clone, Copy, PartialEq, Eq, Structural)]
pub enum ChallengeStatus {
    Pending,
    Resolved,
    Expired,
    Failed,
}

// ───────────────────────── keychain ─────────────────────────

/// A keychain entry of the `keyring` crate, carried opaquely.
#[verifier::external_type_specification]
#[verifier::external_body]
pub struct ExKeyringEntry(keyring::Entry);

/// What reading a keychain entry gave.
pub enum KeychainRead {
    /// The stored password.
    Found(String),
    /// The keychain holds no such entry.
    Missing,
    /// The keychain failed, with its message.
    Failed(String),
}

/// `keyring::Entry::new`: the entry of `user` under `service` in the
/// platform keychain, or the keychain's error message. Nothing is stated of
/// the outcome, which depends on the machine.
#[verifier::external_body]
fn keychain_entry(service: &str, user: &str) -> Result<keyring::Entry, String> {
    match keyring::Entry::new(service, user) {
        Ok(e) => Ok(e),
        Err(e) => Err(e.to_string()),
    }
}

/// `keyring::Entry::set_password`: stores the password, or gives the
/// keychain's error message.
#[verifier::external_body]
fn keychain_set(entry: &keyring::Entry, password: &str) -> Result<(), String> {
    match entry.set_password(password) {
        Ok(()) => Ok(()),
        Err(e) => Err(e.to_string()),
    }
}

/// `keyring::Entry::get_password`: the stored password, `Missing` for the
/// keychain's `NoEntry` error, and the message of any other error.
#[verifier::external_body]
fn keychain_get(entry: &keyring::Entry) -> KeychainRead {
    match entry.get_password() {
        Ok(p) => KeychainRead::Found(p),
        Err(keyring::Error::NoEntry) => KeychainRead::Missing,
        Err(e) => KeychainRead::Failed(e.to_string()),
    }
}

/// `keyring::Entry::delete_credential`, whose outcome is not reported.
#[verifier::external_body]
fn keychain_delete(entry: &keyring::Entry) {
    let _ = entry.delete_credential();
}

/// The keychain service every credential is stored under.
pub open spec fn keychain_service() -> Seq<char> {
    "neobrowser"@
}

/// The keychain key of a credential: `profile/{profile_id}/{kind}`.
pub open spec fn secret_key_text(profile_id: Seq<char>, kind: Seq<char>) -> Seq<char> {
    "profile/"@ + profile_id + "/"@ + kind
}

/// The keychain key of a credential of a profile, where `kind` is
/// `username`, `password` or `totp_seed`.
pub fn secret_key(profile_id: &str, kind: &str) -> (k: String)
    ensures
        k@ == secret_key_text(profile_id@, kind@),
{
    let mut k = String::new();
    push_str(&mut k, "profile/");
    push_str(&mut k, profile_id);
    push_str(&mut k, "/");
    push_str(&mut k, kind);
    k
}

/// `text` is `prefix` followed by something.
pub open spec fn has_prefix(text: Seq<char>, prefix: Seq<char>) -> bool {
    prefix.len() <= text.len() && text.take(prefix.len() as int) == prefix
}

fn prefixed(prefix: &str, detail: String) -> (r: String)
    ensures
        r@ == prefix@ + detail@,
        has_prefix(r@, prefix@),
{
    let mut r = String::new();
    push_str(&mut r, prefix);
    push_str(&mut r, detail.as_str());
    assert(r@.take(prefix@.len() as int) =~= prefix@);
    r
}

/// What storing gives, from what writing the keychain entry gave: success,
/// or the keychain's message after `keyring set: `.
pub fn write_outcome(written: Result<(), String>) -> (r: Result<(), String>)
    ensures
        match written {
            Ok(()) => r is Ok,
            Err(d) => r matches Err(e) && e@ == "keyring set: "@ + d@,
        },
        r matches Err(e) ==> has_prefix(e@, "keyring set: "@),
{
    match written {
        Ok(()) => Ok(()),
        Err(d) => Err(prefixed("keyring set: ", d)),
    }
}

/// What reading gives, from what reading the keychain entry gave: the
/// stored password, none when the keychain holds no such entry, or the
/// keychain's message after `keyring get: `.
pub fn read_outcome(read: KeychainRead) -> (r: Result<Option<String>, String>)
    ensures
        match read {
            KeychainRead::Found(v) => r == Ok::<Option<String>, String>(Some(v)),
            KeychainRead::Missing => r == Ok::<Option<String>, String>(None),
            KeychainRead::Failed(d) => r matches Err(e) && e@ == "keyring get: "@ + d@,
        },
        r matches Err(e) ==> has_prefix(e@, "keyring get: "@),
{
    match read {
        KeychainRead::Found(v) => Ok(Some(v)),
        KeychainRead::Missing => Ok(None),
        KeychainRead::Failed(d) => Err(prefixed("keyring get: ", d)),
    }
}

/// Credentials in the OS keychain.
pub struct SecretStore;

impl SecretStore {
    /// Store a credential in the keychain. A failure is reported with
    /// `keyring init: ` when the entry cannot be opened and `keyring set: `
    /// when it cannot be written.
    pub fn set(profile_id: &str, kind: &str, value: &str) -> (r: Result<(), String>)
        ensures
            r matches Err(e) ==> has_prefix(e@, "keyring init: "@) || has_prefix(e@, "keyring set: "@),
    {
        let key = secret_key(profile_id, kind);
        let entry = match keychain_entry("neobrowser", key.as_str()) {
            Ok(e) => e,
            Err(d) => return Err(prefixed("keyring init: ", d)),
        };
        write_outcome(keychain_set(&entry, value))
    }

    /// Read a credential from the keychain: `Ok(None)` when it holds none. A
    /// failure is reported with `keyring init: ` when the entry cannot be
    /// opened and `keyring get: ` when it cannot be read.
    pub fn get(profile_id: &str, kind: &str) -> (r: Result<Option<String>, String>)
        ensures
            r matches Err(e) ==> has_prefix(e@, "keyring init: "@) || has_prefix(e@, "keyring get: "@),
    {
        let key = secret_key(profile_id, kind);
        let entry = match keychain_entry("neobrowser", key.as_str()) {
            Ok(e) => e,
            Err(d) => return Err(prefixed("keyring init: ", d)),
        };
        read_outcome(keychain_get(&entry))
    }

    /// Delete a credential. Only a failure to open the entry is reported, with
    /// `keyring init: `; deleting an absent credential is no error.
    pub fn delete(profile_id: &str, kind: &str) -> (r: Result<(), String>)
        ensures
            r matches Err(e) ==> has_prefix(e@, "keyring init: "@),
    {
        let key = secret_key(profile_id, kind);
        let entry = match keychain_entry("neobrowser", key.as_str()) {
            Ok(e) => e,
            Err(d) => return Err(prefixed("keyring init: ", d)),
        };
        keychain_delete(&entry);
        Ok(())
    }
}

// ───────────────────────── one-time codes ─────────────────────────

/// The code `totp_rs` gives for a Base32 seed at a Unix time in seconds:
/// SHA-1, six digits, thirty-second steps.
pub uninterp spec fn totp_token(seed: Seq<char>, secs: u64) -> Seq<char>;

/// `totp_rs::Secret::try_from_base32` of the seed, then a `Totp` from
/// `Builder::new()` with that secret (SHA-1, six digits, thirty-second
/// steps, one step of skew) and its `generate` at `secs`, written with
/// `Display`. On success the code is named `totp_token`; it is six ASCII
/// digits, as `Display` writes a six-digit token. A seed that is no Base32
/// gives `TOTP decode: ` and the parser's message; a secret the builder
/// refuses (shorter than 128 bits) gives `TOTP init: ` and its message.
#[verifier::external_body]
fn totp_code_at(seed: &str, secs: u64) -> (r: Result<String, String>)
    ensures
        r matches Ok(code) ==> code@ == totp_token(seed@, secs) && code@.len() == 6 && all_digits(code@),
        r matches Err(e) ==> has_prefix(e@, "TOTP decode: "@) || has_prefix(e@, "TOTP init: "@),
{
    let secret = match totp_rs::Secret::try_from_base32(seed) {
        Ok(s) => s,
        Err(e) => return Err(format!("TOTP decode: {e}")),
    };
    match totp_rs::Builder::new().with_secret(secret).build() {
        Ok(t) => Ok(t.generate(secs).to_string()),
        Err(e) => Err(format!("TOTP init: {e}")),
    }
}

/// The message when the wall clock reads before the Unix epoch: what std's
/// `SystemTimeError` says, after `TOTP gen: `.
pub open spec fn clock_error_message() -> Seq<char> {
    "TOTP gen: second time provided was later than self"@
}

/// The one-time code of a seed at a wall-clock reading: the code at the
/// reading's whole seconds, or the clock error when the clock reads before
/// the Unix epoch.
pub fn totp_at_reading(seed: &str, reading: Result<u128, u128>) -> (r: Result<String, String>)
    requires
        reading matches Ok(n) ==> n < (u64::MAX as int + 1) * 1_000_000_000,
    ensures
        match reading {
            Ok(n) => match r {
                Ok(code) => code@ == totp_token(seed@, (n / 1_000_000_000) as u64) && code@.len() == 6
                    && all_digits(code@),
                Err(e) => has_prefix(e@, "TOTP decode: "@) || has_prefix(e@, "TOTP init: "@),
            },
            Err(_) => r matches Err(e) && e@ == clock_error_message(),
        },
{
    match reading {
        Ok(n) => {
            let secs = n / 1_000_000_000;
            assert(secs <= u64::MAX) by (nonlinear_arith)
                requires
                    n < (u64::MAX as int + 1) * 1_000_000_000,
                    secs == n / 1_000_000_000,
            ;
            totp_code_at(seed, secs as u64)
        },
        Err(_) => Err("TOTP gen: second time provided was later than self".to_string()),
    }
}

/// The message when a profile has no TOTP seed.
pub open spec fn no_seed_message(profile_id: Seq<char>) -> Seq<char> {
    "No TOTP seed for profile "@ + profile_id
}

/// The current one-time code of a profile, from the TOTP seed kept in the
/// keychain: six digits; the keychain's error when it cannot be read; the
/// message that names the profile when it holds no seed; the error of
/// decoding the seed; or `TOTP gen: ` when the clock reads before the Unix
/// epoch.
pub fn generate_totp(profile_id: &str) -> (r: Result<String, String>)
    ensures
        r matches Ok(code) ==> code@.len() == 6 && all_digits(code@),
        r matches Err(e) ==> has_prefix(e@, "keyring init: "@) || has_prefix(e@, "keyring get: "@)
            || e@ == no_seed_message(profile_id@) || has_prefix(e@, "TOTP decode: "@)
            || has_prefix(e@, "TOTP init: "@) || has_prefix(e@, "TOTP gen: "@),
{
    let seed = match SecretStore::get(profile_id, "totp_seed") {
        Ok(Some(s)) => s,
        Ok(None) => {
            let mut m = String::new();
            push_str(&mut m, "No TOTP seed for profile ");
            push_str(&mut m, profile_id);
            return Err(m);
        },
        Err(e) => return Err(e),
    };
    let r = totp_at_reading(seed.as_str(), wall_clock_since_epoch());
    proof {
        reveal_strlit("TOTP gen: ");
        reveal_strlit("TOTP gen: second time provided was later than self");
        if r is Err {
            let e = r->Err_0;
            if e@ == clock_error_message() {
                assert(e@.take(10) =~= "TOTP gen: "@);
            }
        }
    }
    r
}

// ───────────────────────── profile lookup ─────────────────────────

/// A profile registered for `registered` serves `domain`: the same domain,
/// or a subdomain of it.
pub open spec fn serves_domain(registered: Seq<char>, domain: Seq<char>) -> bool {
    domain == registered || ends_with(domain, "."@ + registered)
}

/// One of the registered domains serves `domain`.
pub open spec fn serves_any(registered: Seq<String>, domain: Seq<char>) -> bool {
    exists|j: int| 0 <= j < registered.len() && serves_domain(registered[j]@, domain)
}

/// Whether a domain registered for a profile serves `domain`.
pub fn profile_domain_matches(registered: &str, domain: &str) -> (r: bool)
    ensures
        r == serves_domain(registered@, domain@),
{
    if str_eq(domain, registered) {
        return true;
    }
    let mut suffix = String::new();
    push_str(&mut suffix, ".");
    push_str(&mut suffix, registered);
    let d = chars_of(domain);
    let sv = chars_of(suffix.as_str());
    ends_with_exec(d.as_slice(), sv.as_slice())
}

/// The first profile, given by its registered domains, that serves
/// `domain`.
pub fn profile_index_for_domain(profiles: &Vec<Vec<String>>, domain: &str) -> (r: Option<usize>)
    ensures
        r matches Some(i) ==> i < profiles@.len() && serves_any(profiles@[i as int]@, domain@)
            && forall|k: int| 0 <= k < i ==> !serves_any(#[trigger] profiles@[k]@, domain@),
        r is None ==> forall|k: int| 0 <= k < profiles@.len() ==> !serves_any(#[trigger] profiles@[k]@, domain@),
{
    let mut i: usize = 0;
    while i < profiles.len()
        invariant
            i <= profiles@.len(),
            forall|k: int| 0 <= k < i ==> !serves_any(#[trigger] profiles@[k]@, domain@),
        decreases profiles@.len() - i,
    {
        let doms = &profiles[i];
        let mut j: usize = 0;
        while j < doms.len()
            invariant
                i < profiles@.len(),
                *doms == profiles@[i as int],
                forall|k: int| 0 <= k < i ==> !serves_any(#[trigger] profiles@[k]@, domain@),
                j <= doms@.len(),
                forall|t: int| 0 <= t < j ==> !serves_domain(#[trigger] doms@[t]@, domain@),
            decreases doms@.len() - j,
        {
            if profile_domain_matches(doms[j].as_str(), domain) {
                assert(serves_domain(profiles@[i as int]@[j as int]@, domain@));
                return Some(i);
            }
            j = j + 1;
        }
        assert(!serves_any(profiles@[i as int]@, domain@));
        i = i + 1;
    }
    None
}

// ───────────────────────── profiles, sessions, challenges ─────────────────────────

/// An instant in UTC: whole seconds since the Unix epoch and the
/// nanoseconds past them.
#[derive(Debug, Clone, Copy, PartialEq, Eq, Structural)]
pub struct UtcTime {
    pub secs: i64,
    pub nanos: u32,
}

/// A named identity that logs into some sites.
#[derive(Debug, Clone)]
pub struct AuthProfile {
    pub profile_id: String,
    pub display_name: String,
    /// The sites it serves, each with its subdomains.
    pub domains: Vec<String>,
    pub login_url: Option<String>,
    /// A CSS selector or field name for the user name.
    pub username_field: Option<String>,
    pub password_field: Option<String>,
    pub totp_enabled: bool,
    pub preferred_backend: SessionBackend,
    pub created_at: UtcTime,
    pub updated_at: UtcTime,
}

/// The cookies and storage of a logged-in site, kept for a profile.
#[derive(Debug, Clone)]
pub struct StoredSession {
    pub session_id: String,
    pub profile_id: String,
    pub domain: String,
    pub created_at: UtcTime,
    pub updated_at: UtcTime,
    pub last_verified_at: Option<UtcTime>,
    pub health: SessionHealth,
    /// The cookies as the browser reported them.
    pub cookies: Vec<serde_json::Value>,
    pub local_storage: std::collections::HashMap<String, String>,
    /// URL patterns that show the site is logged in.
    pub auth_markers: Vec<String>,
    /// URL patterns that show the site is logged out.
    pub logout_markers: Vec<String>,
}

/// A second factor the user is asked for while an agent logs in.
#[derive(Debug, Clone)]
pub struct AuthChallenge {
    pub challenge_id: String,
    pub profile_id: String,
    pub domain: String,
    pub challenge_type: ChallengeType,
    pub status: ChallengeStatus,
    pub user_message: String,
    pub target_node_id: Option<String>,
    pub created_at: UtcTime,
    pub expires_at: Option<UtcTime>,
}

/// A value kept within the range of `i64`.
pub open spec fn clamp_i64(n: int) -> int {
    if n > i64::MAX {
        i64::MAX as int
    } else if n < i64::MIN {
        i64::MIN as int
    } else {
        n
    }
}

/// The UTC instant of a wall-clock reading, as chrono counts it: whole
/// seconds since the Unix epoch rounded down (negative before it, kept
/// within `i64`) and the nanoseconds past them.
pub open spec fn utc_of(w: Result<u128, u128>) -> (int, int) {
    (clamp_i64(signed_nanos(w) / 1_000_000_000), signed_nanos(w) % 1_000_000_000)
}

/// The UTC instant of a wall-clock reading.
pub fn utc_of_reading(w: Result<u128, u128>) -> (t: UtcTime)
    ensures
        (t.secs as int, t.nanos as int) == utc_of(w),
{
    let d: u128 = 1_000_000_000;
    match w {
        Ok(n) => {
            let q = n / d;
            let r = n % d;
            let secs: i64 = if q > i64::MAX as u128 { i64::MAX } else { q as i64 };
            UtcTime { secs, nanos: r as u32 }
        },
        Err(n) => {
            let q = n / d;
            let r = n % d;
            let (mag, nanos): (u128, u128) = if r == 0 { (q, 0) } else { (q + 1, d - r) };
            proof {
                let x = 0 - (n as int);
                if r == 0 {
                    vstd::arithmetic::div_mod::lemma_fundamental_div_mod_converse(x, 1_000_000_000, 0 - (q as int), 0);
                } else {
                    vstd::arithmetic::div_mod::lemma_fundamental_div_mod_converse(x, 1_000_000_000, 0 - (q as int) - 1, 1_000_000_000 - (r as int));
                }
            }
            let secs: i64 = if mag > i64::MAX as u128 + 1 { i64::MIN } else if mag == i64::MAX as u128 + 1 { i64::MIN } else { 0 - (mag as i64) };
            UtcTime { secs, nanos: nanos as u32 }
        },
    }
}

/// The current UTC instant, from the wall clock. The instant depends on the
/// clock; only its relation to the reading is stated.
fn utc_now() -> (t: UtcTime)
    ensures
        exists|w: Result<u128, u128>| (t.secs as int, t.nanos as int) == utc_of(w),
{
    utc_of_reading(wall_clock_since_epoch())
}

/// `uuid::Uuid::new_v4`, written with `to_string`. The id is random;
/// nothing is stated of it.
#[verifier::external_body]
fn new_uuid() -> String {
    uuid::Uuid::new_v4().to_string()
}

/// The session of a fresh login: a new id, the given cookies, storage and
/// logged-in markers, no logged-out markers, and health `Valid` for the
/// reason `Fresh login`; created, updated and verified at the same instant.
pub fn create_session_from_cookies(
    profile_id: &str,
    domain: &str,
    cookies: Vec<serde_json::Value>,
    local_storage: std::collections::HashMap<String, String>,
    auth_markers: Vec<String>,
) -> (s: StoredSession)
    ensures
        s.profile_id@ == profile_id@,
        s.domain@ == domain@,
        s.cookies == cookies,
        s.local_storage == local_storage,
        s.auth_markers == auth_markers,
        s.logout_markers@.len() == 0,
        s.updated_at == s.created_at,
        s.last_verified_at == Some(s.created_at),
        s.health.status == HealthStatus::Valid,
        s.health.reason matches Some(r) && r@ == "Fresh login"@,
{
    let now = utc_now();
    StoredSession {
        session_id: new_uuid(),
        profile_id: profile_id.to_owned(),
        domain: domain.to_owned(),
        created_at: now,
        updated_at: now,
        last_verified_at: Some(now),
        health: SessionHealth { status: HealthStatus::Valid, reason: Some("Fresh login".to_owned()) },
        cookies,
        local_storage,
        auth_markers,
        logout_markers: Vec::new(),
    }
}

/// Five minutes in seconds: how long a challenge stays open.
pub const CHALLENGE_SECS: i64 = 300;

/// A pending challenge with a new id, created now and expiring five minutes
/// after a second reading of the clock (none at the last second a 64-bit
/// count can hold).
pub fn create_challenge(
    profile_id: &str,
    domain: &str,
    challenge_type: ChallengeType,
    user_message: &str,
    target_node_id: Option<String>,
) -> (c: AuthChallenge)
    ensures
        c.profile_id@ == profile_id@,
        c.domain@ == domain@,
        c.challenge_type == challenge_type,
        c.status == ChallengeStatus::Pending,
        c.user_message@ == user_message@,
        c.target_node_id == target_node_id,
        c.expires_at matches Some(e) ==> e.secs >= i64::MIN + CHALLENGE_SECS,
{
    let created_at = utc_now();
    let later = utc_now();
    let expires_at = match later.secs.checked_add(CHALLENGE_SECS) {
        Some(secs) => Some(UtcTime { secs, nanos: later.nanos }),
        None => None,
    };
    AuthChallenge {
        challenge_id: new_uuid(),
        profile_id: profile_id.to_owned(),
        domain: domain.to_owned(),
        challenge_type,
        status: ChallengeStatus::Pending,
        user_message: user_message.to_owned(),
        target_node_id,
        created_at,
        expires_at,
    }
}

/// The first of the profiles that serves the domain.
pub fn find_profile_for_domain(profiles: &Vec<AuthProfile>, domain: &str) -> (r: Option<usize>)
    ensures
        r matches Some(i) ==> i < profiles@.len() && serves_any(profiles@[i as int].domains@, domain@)
            && forall|k: int| 0 <= k < i ==> !serves_any(#[trigger] profiles@[k].domains@, domain@),
        r is None ==> forall|k: int| 0 <= k < profiles@.len() ==> !serves_any(#[trigger] profiles@[k].domains@, domain@),
{
    let mut i: usize = 0;
    while i < profiles.len()
        invariant
            i <= profiles@.len(),
            forall|k: int| 0 <= k < i ==> !serves_any(#[trigger] profiles@[k].domains@, domain@),
        decreases profiles@.len() - i,
    {
        let ds = &profiles[i].domains;
        let mut j: usize = 0;
        while j < ds.len()
            invariant
                i < profiles@.len(),
                ds@ == profiles@[i as int].domains@,
                forall|k: int| 0 <= k < i ==> !serves_any(#[trigger] profiles@[k].domains@, domain@),
                j <= ds@.len(),
                forall|t: int| 0 <= t < j ==> !serves_domain(#[trigger] ds@[t]@, domain@),
            decreases ds@.len() - j,
        {
            if profile_domain_matches(ds[j].as_str(), domain) {
                assert(serves_domain(ds@[j as int]@, domain@));
                assert(serves_any(ds@, domain@));
                return Some(i);
            }
            j = j + 1;
        }
        assert(!serves_any(profiles@[i as int].domains@, domain@));
        i = i + 1;
    }
    None
}

} // verus!
