//! HTTP response cache.
//!
//! Caches responses to avoid fetching static resources again. Respects
//! Cache-Control, ETag, Last-Modified and Expires; evicts the least recently
//! accessed entry when a new response does not fit in the size limit.
//!
//! Times are nanoseconds on the cache's monotonic clock; the functions whose
//! names end in `_at` take the current time as an argument and are verified
//! for every value of it.
use vstd::prelude::*;
use std::time::Instant;
use crate::clock::{instant_now, nanos_since, unix_now_nanos};
use crate::string_map::StringMap;
use crate::text::{
    chars_of, contains, contains_exec, lowercase, parse_u64, parse_u64_exec, split, split_exec,
    starts_with, starts_with_exec, str_eq, to_lowercase, trim, trim_chars, slice_vec, utf8_len,
};

verus! {

/// Nanoseconds in a second.
pub const NANOS_PER_SEC: u128 = 1_000_000_000;

/// Freshness lifetime given to a cacheable response that states none: five
/// minutes, in nanoseconds.
pub const DEFAULT_MAX_AGE_NANOS: u128 = 300_000_000_000;

/// What `httpdate::parse_http_date` gives for a text, as whole seconds since
/// the Unix epoch; `None` where it reports an error.
pub uninterp spec fn http_date_secs(s: Seq<char>) -> Option<u64>;

/// `httpdate::parse_http_date`, as seconds since the Unix epoch; its result is
/// named `http_date_secs`.
#[verifier::external_body]
fn parse_http_date_secs(s: &str) -> (r: Option<u64>)
    ensures
        r == http_date_secs(s@),
{
    match httpdate::parse_http_date(s) {
        Ok(t) => t.duration_since(std::time::UNIX_EPOCH).ok().map(|d| d.as_secs()),
        Err(_) => None,
    }
}

/// A response handed back from the cache.
pub struct CachedResponse {
    pub body: String,
    pub status: u16,
    pub headers: StringMap,
}

/// What the cache holds for one URL.
pub struct CacheRecord {
    pub url: Seq<char>,
    pub body: Seq<char>,
    pub status: u16,
    pub headers: Map<Seq<char>, Seq<char>>,
    pub inserted: nat,
    pub last_accessed: nat,
    pub max_age: nat,
    pub etag: Option<Seq<char>>,
    pub last_modified: Option<Seq<char>>,
    pub size: nat,
}

struct CacheEntry {
    url: String,
    body: String,
    status: u16,
    headers: StringMap,
    inserted: u128,
    last_accessed: u128,
    max_age: u128,
    etag: Option<String>,
    last_modified: Option<String>,
    size: usize,
}

/// The text of an optional string.
pub open spec fn opt_view(o: Option<String>) -> Option<Seq<char>> {
    match o {
        Some(s) => Some(s@),
        None => None,
    }
}

impl CacheEntry {
    spec fn record(&self) -> CacheRecord {
        CacheRecord {
            url: self.url@,
            body: self.body@,
            status: self.status,
            headers: self.headers@,
            inserted: self.inserted as nat,
            last_accessed: self.last_accessed as nat,
            max_age: self.max_age as nat,
            etag: opt_view(self.etag),
            last_modified: opt_view(self.last_modified),
            size: self.size as nat,
        }
    }
}

spec fn records_of(es: Seq<CacheEntry>) -> Seq<CacheRecord> {
    es.map_values(|e: CacheEntry| e.record())
}

/// HTTP response cache with least-recently-accessed eviction.
pub struct HttpCache {
    entries: Vec<CacheEntry>,
    max_size: usize,
    current_size: usize,
    clock: Instant,
}

// ───────────────────────── the model ─────────────────────────

/// Sum of the stored body sizes.
pub open spec fn total_size(rs: Seq<CacheRecord>) -> nat
    decreases rs.len(),
{
    if rs.len() == 0 {
        0
    } else {
        total_size(rs.drop_last()) + rs.last().size
    }
}

/// No URL is stored twice.
pub open spec fn urls_distinct(rs: Seq<CacheRecord>) -> bool {
    forall|i: int, j: int| 0 <= i < rs.len() && 0 <= j < rs.len() && i != j ==> rs[i].url != rs[j].url
}

/// Each record's size is the byte length of its body.
pub open spec fn sizes_match(rs: Seq<CacheRecord>) -> bool {
    forall|i: int| 0 <= i < rs.len() ==> (#[trigger] rs[i]).size == utf8_len(rs[i].body)
}

/// Where the record for `url` stands.
pub open spec fn lookup(rs: Seq<CacheRecord>, url: Seq<char>) -> Option<int> {
    if exists|i: int| 0 <= i < rs.len() && rs[i].url == url {
        Some(choose|i: int| 0 <= i < rs.len() && rs[i].url == url)
    } else {
        None
    }
}

/// Time from `from` to `to`, zero when `to` is earlier (`Instant::duration_since`).
pub open spec fn elapsed(to: nat, from: nat) -> nat {
    if to >= from {
        (to - from) as nat
    } else {
        0
    }
}

/// The record has outlived its freshness lifetime at `now`.
pub open spec fn expired(r: CacheRecord, now: nat) -> bool {
    elapsed(now, r.inserted) > r.max_age
}

/// The value of the first of two header names that is present.
pub open spec fn header_either(h: Map<Seq<char>, Seq<char>>, a: Seq<char>, b: Seq<char>) -> Option<
    Seq<char>,
> {
    if h.contains_key(a) {
        Some(h[a])
    } else if h.contains_key(b) {
        Some(h[b])
    } else {
        None
    }
}

/// The Cache-Control value, lowercased; empty when absent.
pub open spec fn cache_control_lower(h: Map<Seq<char>, Seq<char>>) -> Seq<char> {
    match header_either(h, "cache-control"@, "Cache-Control"@) {
        Some(v) => lowercase(v),
        None => Seq::empty(),
    }
}

/// Only a 200 response without Set-Cookie and without no-store, no-cache or
/// private in Cache-Control is cached.
pub open spec fn cacheable(status: u16, h: Map<Seq<char>, Seq<char>>) -> bool {
    &&& status == 200
    &&& !h.contains_key("set-cookie"@)
    &&& !h.contains_key("Set-Cookie"@)
    &&& !contains(cache_control_lower(h), "no-store"@)
    &&& !contains(cache_control_lower(h), "no-cache"@)
    &&& !contains(cache_control_lower(h), "private"@)
}

/// The seconds of the first `max-age=` directive among the pieces whose
/// value parses.
pub open spec fn first_max_age(pieces: Seq<Seq<char>>) -> Option<u64>
    decreases pieces.len(),
{
    if pieces.len() == 0 {
        None
    } else {
        let d = trim(pieces[0]);
        if starts_with(d, "max-age="@) && parse_u64(trim(d.skip("max-age="@.len() as int)))
            is Some {
            parse_u64(trim(d.skip("max-age="@.len() as int)))
        } else {
            first_max_age(pieces.drop_first())
        }
    }
}

/// The max-age of the Cache-Control header, in seconds.
pub open spec fn max_age_secs(h: Map<Seq<char>, Seq<char>>) -> Option<u64> {
    match header_either(h, "cache-control"@, "Cache-Control"@) {
        Some(v) => first_max_age(split(lowercase(v), ',')),
        None => None,
    }
}

/// The lifetime that Expires gives, in nanoseconds, with the wall clock at
/// `wall_now` nanoseconds since the epoch: the time until the date, `None`
/// for a date in the past, for `0`, `-1` or a text that is no HTTP date.
pub open spec fn expires_nanos(h: Map<Seq<char>, Seq<char>>, wall_now: int) -> Option<nat> {
    match header_either(h, "expires"@, "Expires"@) {
        Some(v) => if trim(v) == "0"@ || trim(v) == "-1"@ {
            None
        } else {
            match http_date_secs(v) {
                Some(ts) => if ts * NANOS_PER_SEC >= wall_now {
                    Some((ts * NANOS_PER_SEC - wall_now) as nat)
                } else {
                    None
                },
                None => None,
            }
        },
        None => None,
    }
}

/// The freshness lifetime of a response, in nanoseconds: max-age, else the
/// Expires date, else five minutes.
pub open spec fn lifetime_nanos(h: Map<Seq<char>, Seq<char>>, wall_now: int) -> nat {
    match max_age_secs(h) {
        Some(s) => (s * NANOS_PER_SEC) as nat,
        None => match expires_nanos(h, wall_now) {
            Some(d) => d,
            None => DEFAULT_MAX_AGE_NANOS as nat,
        },
    }
}

/// The least recently accessed record, the first one among equals.
pub open spec fn is_lru(rs: Seq<CacheRecord>, i: int) -> bool {
    &&& 0 <= i < rs.len()
    &&& forall|j: int| 0 <= j < rs.len() ==> rs[i].last_accessed <= rs[j].last_accessed
    &&& forall|j: int| 0 <= j < i ==> rs[j].last_accessed > rs[i].last_accessed
}

/// Index of the record that eviction removes.
pub open spec fn lru_index(rs: Seq<CacheRecord>) -> int {
    choose|i: int| is_lru(rs, i)
}

/// Evicts least recently accessed records until `incoming` more bytes fit in
/// `max`, or nothing is left.
pub open spec fn evict_to_fit(rs: Seq<CacheRecord>, incoming: nat, max: nat) -> Seq<CacheRecord>
    decreases rs.len(),
{
    let i = lru_index(rs);
    if rs.len() > 0 && total_size(rs) + incoming > max && 0 <= i < rs.len() {
        evict_to_fit(rs.remove(i), incoming, max)
    } else {
        rs
    }
}

/// The records without the one for `url`.
pub open spec fn without_url(rs: Seq<CacheRecord>, url: Seq<char>) -> Seq<CacheRecord> {
    match lookup(rs, url) {
        Some(i) => rs.remove(i),
        None => rs,
    }
}

/// The record that storing a response creates at `now`.
pub open spec fn new_record(
    url: Seq<char>,
    status: u16,
    h: Map<Seq<char>, Seq<char>>,
    body: Seq<char>,
    size: nat,
    now: nat,
    wall_now: int,
) -> CacheRecord {
    CacheRecord {
        url,
        body,
        status,
        headers: h,
        inserted: now,
        last_accessed: now,
        max_age: lifetime_nanos(h, wall_now),
        etag: header_either(h, "etag"@, "ETag"@),
        last_modified: header_either(h, "last-modified"@, "Last-Modified"@),
        size,
    }
}

/// The records after storing a response of `size` bytes at `now`.
pub open spec fn store_records(
    rs: Seq<CacheRecord>,
    max: nat,
    url: Seq<char>,
    status: u16,
    h: Map<Seq<char>, Seq<char>>,
    body: Seq<char>,
    size: nat,
    now: nat,
    wall_now: int,
) -> Seq<CacheRecord> {
    if !cacheable(status, h) {
        rs
    } else {
        let kept = evict_to_fit(without_url(rs, url), size, max);
        if size > max {
            kept
        } else {
            kept.push(new_record(url, status, h, body, size, now, wall_now))
        }
    }
}

/// A record with its access time set to `now`.
pub open spec fn accessed(r: CacheRecord, now: nat) -> CacheRecord {
    CacheRecord { last_accessed: now, ..r }
}

/// A record with its insertion and access times set to `now`.
pub open spec fn refreshed(r: CacheRecord, now: nat) -> CacheRecord {
    CacheRecord { inserted: now, last_accessed: now, ..r }
}

/// The records after a lookup of `url` at `now`: a fresh hit records the
/// access.
pub open spec fn get_records(rs: Seq<CacheRecord>, url: Seq<char>, now: nat) -> Seq<CacheRecord> {
    match lookup(rs, url) {
        Some(i) => if expired(rs[i], now) {
            rs
        } else {
            rs.update(i, accessed(rs[i], now))
        },
        None => rs,
    }
}

/// The record that a lookup of `url` at `now` answers with: present and
/// not expired.
pub open spec fn get_hit(rs: Seq<CacheRecord>, url: Seq<char>, now: nat) -> Option<CacheRecord> {
    match lookup(rs, url) {
        Some(i) => if expired(rs[i], now) {
            None
        } else {
            Some(rs[i])
        },
        None => None,
    }
}

/// The records after touching `url` at `now`.
pub open spec fn touch_records(rs: Seq<CacheRecord>, url: Seq<char>, now: nat) -> Seq<CacheRecord> {
    match lookup(rs, url) {
        Some(i) => rs.update(i, refreshed(rs[i], now)),
        None => rs,
    }
}

/// The response that a record answers with.
pub open spec fn response_matches(resp: CachedResponse, r: CacheRecord) -> bool {
    resp.body@ == r.body && resp.status == r.status && resp.headers@ == r.headers
}

// ───────────────────────── lemmas ─────────────────────────

proof fn lemma_total_push(rs: Seq<CacheRecord>, r: CacheRecord)
    ensures
        total_size(rs.push(r)) == total_size(rs) + r.size,
{
    assert(rs.push(r).drop_last() =~= rs);
}

proof fn lemma_total_remove(rs: Seq<CacheRecord>, i: int)
    requires
        0 <= i < rs.len(),
    ensures
        total_size(rs.remove(i)) + rs[i].size == total_size(rs),
    decreases rs.len(),
{
    if i == rs.len() - 1 {
        assert(rs.remove(i) =~= rs.drop_last());
    } else {
        lemma_total_remove(rs.drop_last(), i);
        assert(rs.remove(i).drop_last() =~= rs.drop_last().remove(i));
        assert(rs.remove(i).last() == rs.last());
    }
}

proof fn lemma_total_update(rs: Seq<CacheRecord>, i: int, r: CacheRecord)
    requires
        0 <= i < rs.len(),
        r.size == rs[i].size,
    ensures
        total_size(rs.update(i, r)) == total_size(rs),
    decreases rs.len(),
{
    if i == rs.len() - 1 {
        assert(rs.update(i, r).drop_last() =~= rs.drop_last());
    } else {
        lemma_total_update(rs.drop_last(), i, r);
        assert(rs.update(i, r).drop_last() =~= rs.drop_last().update(i, r));
    }
}

proof fn lemma_lookup_found(rs: Seq<CacheRecord>, url: Seq<char>, i: int)
    requires
        urls_distinct(rs),
        0 <= i < rs.len(),
        rs[i].url == url,
    ensures
        lookup(rs, url) == Some(i),
{
}

proof fn lemma_lru_unique(rs: Seq<CacheRecord>, i: int)
    requires
        is_lru(rs, i),
    ensures
        lru_index(rs) == i,
{
    let k = lru_index(rs);
    assert(is_lru(rs, k));
    if k < i {
        assert(rs[k].last_accessed > rs[i].last_accessed);
    } else if k > i {
        assert(rs[i].last_accessed > rs[k].last_accessed);
    }
}

proof fn lemma_remove_keeps_distinct(rs: Seq<CacheRecord>, i: int)
    requires
        urls_distinct(rs),
        0 <= i < rs.len(),
    ensures
        urls_distinct(rs.remove(i)),
        forall|j: int| 0 <= j < rs.remove(i).len() ==> rs.remove(i)[j].url != rs[i].url,
{
    rs.remove_ensures(i);
    let t = rs.remove(i);
    assert forall|a: int, b: int|
        0 <= a < t.len() && 0 <= b < t.len() && a != b implies t[a].url != t[b].url by {
        let a2 = if a < i { a } else { a + 1 };
        let b2 = if b < i { b } else { b + 1 };
        assert(t[a] == rs[a2]);
        assert(t[b] == rs[b2]);
    }
    assert forall|j: int| 0 <= j < t.len() implies t[j].url != rs[i].url by {
        let j2 = if j < i { j } else { j + 1 };
        assert(t[j] == rs[j2]);
    }
}

proof fn lemma_remove_keeps_absent(rs: Seq<CacheRecord>, i: int, url: Seq<char>)
    requires
        0 <= i < rs.len(),
        forall|j: int| 0 <= j < rs.len() ==> rs[j].url != url,
    ensures
        forall|j: int| 0 <= j < rs.remove(i).len() ==> rs.remove(i)[j].url != url,
{
    rs.remove_ensures(i);
    assert forall|j: int| 0 <= j < rs.remove(i).len() implies rs.remove(i)[j].url != url by {
        let j2 = if j < i { j } else { j + 1 };
        assert(rs.remove(i)[j] == rs[j2]);
    }
}

// ───────────────────────── header helpers ─────────────────────────

fn header_either_exec<'a>(h: &'a StringMap, a: &str, b: &str) -> (r: Option<&'a String>)
    ensures
        opt_ref_view(r) == header_either(h@, a@, b@),
{
    match h.get(a) {
        Some(v) => Some(v),
        None => h.get(b),
    }
}

/// The text of an optional string reference.
pub open spec fn opt_ref_view(o: Option<&String>) -> Option<Seq<char>> {
    match o {
        Some(s) => Some(s@),
        None => None,
    }
}

fn clone_opt(o: Option<&String>) -> (r: Option<String>)
    ensures
        opt_view(r) == opt_ref_view(o),
{
    match o {
        Some(s) => Some(s.clone()),
        None => None,
    }
}

/// Decides whether a response may be cached.
pub fn is_cacheable(status: u16, headers: &StringMap) -> (r: bool)
    ensures
        r == cacheable(status, headers@),
{
    if status != 200 {
        return false;
    }
    if headers.contains_key("set-cookie") || headers.contains_key("Set-Cookie") {
        return false;
    }
    let cc: Vec<char> = match header_either_exec(headers, "cache-control", "Cache-Control") {
        Some(v) => chars_of(to_lowercase(v.as_str()).as_str()),
        None => Vec::new(),
    };
    proof {
        assert(cc@ == cache_control_lower(headers@));
    }
    let no_store = chars_of("no-store");
    let no_cache = chars_of("no-cache");
    let private = chars_of("private");
    if contains_exec(cc.as_slice(), no_store.as_slice()) || contains_exec(
        cc.as_slice(),
        no_cache.as_slice(),
    ) || contains_exec(cc.as_slice(), private.as_slice()) {
        return false;
    }
    true
}

/// The max-age directive of Cache-Control, in seconds.
pub fn parse_max_age(headers: &StringMap) -> (r: Option<u64>)
    ensures
        r == max_age_secs(headers@),
{
    let cc = match header_either_exec(headers, "cache-control", "Cache-Control") {
        Some(v) => v,
        None => return None,
    };
    let lower = to_lowercase(cc.as_str());
    let lc = chars_of(lower.as_str());
    let pieces = split_exec(lc.as_slice(), ',');
    let ghost ps = split(lc@, ',');
    let prefix = chars_of("max-age=");
    let mut i: usize = 0;
    assert(ps.skip(0) =~= ps);
    assert(first_max_age(ps) == max_age_secs(headers@));
    while i < pieces.len()
        invariant
            first_max_age(ps) == max_age_secs(headers@),
            i <= pieces@.len(),
            pieces@.len() == ps.len(),
            forall|k: int| 0 <= k < pieces@.len() ==> #[trigger] pieces@[k]@ == ps[k],
            prefix@ == "max-age="@,
            first_max_age(ps) == first_max_age(ps.skip(i as int)),
        decreases pieces@.len() - i,
    {
        let d = trim_chars(pieces[i].as_slice());
        assert(ps.skip(i as int).len() > 0);
        assert(ps.skip(i as int)[0] == ps[i as int]);
        assert(d@ == trim(ps.skip(i as int)[0]));
        if starts_with_exec(d.as_slice(), prefix.as_slice()) {
            let rest = slice_vec(d.as_slice(), prefix.len(), d.len());
            assert(rest@ =~= d@.skip("max-age="@.len() as int));
            let val = trim_chars(rest.as_slice());
            let parsed = parse_u64_exec(val.as_slice());
            if parsed.is_some() {
                assert(prefix@.len() == "max-age="@.len());
                assert(val@ == trim(d@.skip("max-age="@.len() as int)));
                assert(first_max_age(ps.skip(i as int)) == parsed);
                return parsed;
            }
        }
        assert(ps.skip(i as int).drop_first() =~= ps.skip(i + 1));
        i = i + 1;
    }
    None
}

/// The lifetime that the Expires header gives, in nanoseconds, with the
/// wall clock at `wall_now` nanoseconds since the Unix epoch.
pub fn parse_expires(headers: &StringMap, wall_now: i128) -> (r: Option<u128>)
    ensures
        r matches Some(d) ==> expires_nanos(headers@, wall_now as int) == Some(d as nat),
        r is None ==> expires_nanos(headers@, wall_now as int) is None,
{
    let v = match header_either_exec(headers, "expires", "Expires") {
        Some(v) => v,
        None => return None,
    };
    let t = trim_chars(chars_of(v.as_str()).as_slice());
    let zero = chars_of("0");
    let minus_one = chars_of("-1");
    if crate::text::chars_eq(t.as_slice(), zero.as_slice()) || crate::text::chars_eq(
        t.as_slice(),
        minus_one.as_slice(),
    ) {
        return None;
    }
    match parse_http_date_secs(v.as_str()) {
        Some(ts) => {
            let tn: u128 = (ts as u128) * NANOS_PER_SEC;
            if wall_now < 0 {
                let back: u128 = ((0 - (wall_now + 1)) as u128) + 1;
                Some(tn + back)
            } else if tn >= wall_now as u128 {
                Some(tn - wall_now as u128)
            } else {
                None
            }
        },
        None => None,
    }
}

/// The freshness lifetime of a response in nanoseconds.
pub fn freshness_lifetime(headers: &StringMap, wall_now: i128) -> (r: u128)
    ensures
        r == lifetime_nanos(headers@, wall_now as int),
        max_age_secs(headers@) matches Some(s) ==> r == s * 1_000_000_000,
{
    match parse_max_age(headers) {
        Some(s) => (s as u128) * NANOS_PER_SEC,
        None => match parse_expires(headers, wall_now) {
            Some(d) => d,
            None => DEFAULT_MAX_AGE_NANOS,
        },
    }
}

// ───────────────────────── the cache ─────────────────────────

impl HttpCache {
    /// The stored records in order.
    pub closed spec fn records(&self) -> Seq<CacheRecord> {
        records_of(self.entries@)
    }

    /// The size limit in bytes.
    pub closed spec fn max_bytes(&self) -> nat {
        self.max_size as nat
    }

    /// The bytes in use.
    pub closed spec fn used_bytes(&self) -> nat {
        self.current_size as nat
    }

    /// Well-formedness: no URL twice, each record's size is the byte length
    /// of its body, and the bytes in use are the sum of the stored sizes and
    /// stay within the limit.
    pub closed spec fn wf(&self) -> bool {
        &&& urls_distinct(self.records())
        &&& sizes_match(self.records())
        &&& self.current_size as nat == total_size(self.records())
        &&& self.current_size <= self.max_size
    }

    /// What well-formedness gives a caller: no URL is stored twice, each
    /// record's size is the byte length of its body, and the bytes in use
    /// are the sum of the stored sizes, within the limit.
    pub proof fn lemma_wf(&self)
        requires
            self.wf(),
        ensures
            urls_distinct(self.records()),
            sizes_match(self.records()),
            self.used_bytes() == total_size(self.records()),
            self.used_bytes() <= self.max_bytes(),
    {
    }

    /// A cache of at most `max_size_mb` megabytes.
    pub fn new(max_size_mb: usize) -> (c: HttpCache)
        requires
            max_size_mb * 1024 * 1024 <= usize::MAX,
        ensures
            c.wf(),
            c.records() == Seq::<CacheRecord>::empty(),
            c.max_bytes() == max_size_mb * 1024 * 1024,
    {
        Self::with_max_bytes(max_size_mb * 1024 * 1024)
    }

    /// A cache of at most `max_bytes` bytes.
    pub fn with_max_bytes(max_bytes: usize) -> (c: HttpCache)
        ensures
            c.wf(),
            c.records() == Seq::<CacheRecord>::empty(),
            c.max_bytes() == max_bytes,
    {
        let c = HttpCache {
            entries: Vec::new(),
            max_size: max_bytes,
            current_size: 0,
            clock: instant_now(),
        };
        assert(c.records() =~= Seq::<CacheRecord>::empty());
        c
    }

    /// The current time on the cache's clock, in nanoseconds.
    fn now(&self) -> u128 {
        nanos_since(&self.clock)
    }

    fn find(&self, url: &str) -> (r: Option<usize>)
        requires
            self.wf(),
        ensures
            r matches Some(i) ==> i < self.entries@.len() && lookup(self.records(), url@) == Some(
                i as int,
            ),
            r is None ==> lookup(self.records(), url@) is None,
    {
        let mut i: usize = 0;
        while i < self.entries.len()
            invariant
                self.wf(),
                i <= self.entries@.len(),
                forall|j: int| 0 <= j < i ==> self.records()[j].url != url@,
            decreases self.entries@.len() - i,
        {
            if str_eq(self.entries[i].url.as_str(), url) {
                proof {
                    lemma_lookup_found(self.records(), url@, i as int);
                }
                return Some(i);
            }
            i = i + 1;
        }
        None
    }

    /// A fresh response for `url` at time `now`; a hit records the access.
    pub fn get_at(&mut self, url: &str, now: u128) -> (r: Option<CachedResponse>)
        requires
            old(self).wf(),
        ensures
            final(self).wf(),
            final(self).max_bytes() == old(self).max_bytes(),
            final(self).records() == get_records(old(self).records(), url@, now as nat),
            r is Some <==> get_hit(old(self).records(), url@, now as nat) is Some,
            r matches Some(resp) ==> response_matches(
                resp,
                get_hit(old(self).records(), url@, now as nat)->0,
            ),
    {
        let i = match self.find(url) {
            Some(i) => i,
            None => return None,
        };
        let inserted = self.entries[i].inserted;
        let age: u128 = if now >= inserted { now - inserted } else { 0 };
        if age > self.entries[i].max_age {
            return None;
        }
        let resp = CachedResponse {
            body: self.entries[i].body.clone(),
            status: self.entries[i].status,
            headers: self.entries[i].headers.clone(),
        };
        let ghost old_rs = self.records();
        self.entries[i].last_accessed = now;
        proof {
            assert(self.records() =~= old_rs.update(i as int, accessed(old_rs[i as int], now as nat)));
            lemma_total_update(old_rs, i as int, accessed(old_rs[i as int], now as nat));
        }
        Some(resp)
    }

    /// A fresh response for `url`, read at the current time.
    pub fn get(&mut self, url: &str) -> (r: Option<CachedResponse>)
        requires
            old(self).wf(),
        ensures
            final(self).wf(),
            final(self).max_bytes() == old(self).max_bytes(),
            exists|now: nat|
                {
                    &&& final(self).records() == get_records(old(self).records(), url@, now)
                    &&& (r is Some <==> get_hit(old(self).records(), url@, now) is Some)
                    &&& r matches Some(resp) ==> response_matches(
                        resp,
                        get_hit(old(self).records(), url@, now)->0,
                    )
                },
    {
        let now = self.now();
        self.get_at(url, now)
    }

    /// Removes the least recently accessed entry.
    fn evict(&mut self)
        requires
            old(self).wf(),
            old(self).entries@.len() > 0,
        ensures
            final(self).wf(),
            final(self).max_size == old(self).max_size,
            final(self).records() == old(self).records().remove(lru_index(old(self).records())),
            0 <= lru_index(old(self).records()) < old(self).records().len(),
    {
        let ghost rs = self.records();
        let mut best: usize = 0;
        let mut j: usize = 1;
        while j < self.entries.len()
            invariant
                rs == records_of(self.entries@),
                self.entries@.len() > 0,
                best < j <= self.entries@.len(),
                forall|k: int| 0 <= k < j ==> rs[best as int].last_accessed <= rs[k].last_accessed,
                forall|k: int| 0 <= k < best ==> rs[k].last_accessed > rs[best as int].last_accessed,
            decreases self.entries@.len() - j,
        {
            if self.entries[j].last_accessed < self.entries[best].last_accessed {
                best = j;
            }
            j = j + 1;
        }
        proof {
            lemma_lru_unique(rs, best as int);
            lemma_total_remove(rs, best as int);
            lemma_remove_keeps_distinct(rs, best as int);
        }
        let e = self.entries.remove(best);
        self.current_size = self.current_size - e.size;
        proof {
            assert(self.records() =~= rs.remove(best as int));
        }
    }

    /// Stores a response at time `now`, with the wall clock at `wall_now`
    /// nanoseconds since the Unix epoch. Only cacheable responses are kept;
    /// an earlier response for the URL is replaced.
    pub fn store_at(
        &mut self,
        url: &str,
        status: u16,
        headers: &StringMap,
        body: &str,
        now: u128,
        wall_now: i128,
    )
        requires
            old(self).wf(),
        ensures
            final(self).wf(),
            final(self).max_bytes() == old(self).max_bytes(),
            final(self).records() == store_records(
                old(self).records(),
                old(self).max_bytes(),
                url@,
                status,
                headers@,
                body@,
                crate::text::byte_len(body),
                now as nat,
                wall_now as int,
            ),
    {
        if !is_cacheable(status, headers) {
            return;
        }
        let max_age = freshness_lifetime(headers, wall_now);
        let etag = clone_opt(header_either_exec(headers, "etag", "ETag"));
        let last_modified = clone_opt(header_either_exec(headers, "last-modified", "Last-Modified"));
        let body_size = body.len();
        let ghost rs0 = self.records();
        match self.find(url) {
            Some(i) => {
                proof {
                    lemma_total_remove(rs0, i as int);
                    lemma_remove_keeps_distinct(rs0, i as int);
                }
                let old_entry = self.entries.remove(i);
                self.current_size = self.current_size - old_entry.size;
                proof {
                    assert(self.records() =~= rs0.remove(i as int));
                }
            },
            None => {},
        }
        proof {
            assert(self.records() == without_url(rs0, url@));
            assert forall|j: int| 0 <= j < self.records().len() implies self.records()[j].url != url@ by {
                if let Some(i) = lookup(rs0, url@) {
                    lemma_remove_keeps_distinct(rs0, i);
                }
            }
        }
        let ghost rs1 = self.records();
        while body_size > self.max_size - self.current_size && self.entries.len() > 0
            invariant
                self.wf(),
                self.max_size == old(self).max_size,
                evict_to_fit(self.records(), body_size as nat, self.max_size as nat)
                    == evict_to_fit(rs1, body_size as nat, self.max_size as nat),
                forall|j: int| 0 <= j < self.records().len() ==> self.records()[j].url != url@,
            decreases self.entries@.len(),
        {
            let ghost before = self.records();
            self.evict();
            proof {
                lemma_remove_keeps_absent(before, lru_index(before), url@);
                assert(evict_to_fit(before, body_size as nat, self.max_size as nat) == evict_to_fit(
                    before.remove(lru_index(before)),
                    body_size as nat,
                    self.max_size as nat,
                ));
            }
        }
        let ghost kept = self.records();
        assert(evict_to_fit(kept, body_size as nat, self.max_size as nat) == kept);
        assert(kept == evict_to_fit(rs1, body_size as nat, self.max_size as nat));
        assert(kept == evict_to_fit(without_url(rs0, url@), body_size as nat, old(self).max_size as nat));
        if body_size > self.max_size {
            return;
        }
        let entry = CacheEntry {
            url: url.to_owned(),
            body: body.to_owned(),
            status,
            headers: headers.clone(),
            inserted: now,
            last_accessed: now,
            max_age,
            etag,
            last_modified,
            size: body_size,
        };
        proof {
            lemma_total_push(kept, entry.record());
        }
        self.entries.push(entry);
        self.current_size = self.current_size + body_size;
        proof {
            assert(self.records() =~= kept.push(entry.record()));
            assert(entry.record() == new_record(
                url@,
                status,
                headers@,
                body@,
                body_size as nat,
                now as nat,
                wall_now as int,
            ));
        }
    }

    /// Stores a response, reading the clocks. Only cacheable responses are
    /// kept; an earlier response for the URL is replaced.
    pub fn store(&mut self, url: &str, status: u16, headers: &StringMap, body: &str)
        requires
            old(self).wf(),
        ensures
            final(self).wf(),
            final(self).max_bytes() == old(self).max_bytes(),
            exists|now: nat, wall_now: int|
                final(self).records() == store_records(
                    old(self).records(),
                    old(self).max_bytes(),
                    url@,
                    status,
                    headers@,
                    body@,
                    crate::text::byte_len(body),
                    now,
                    wall_now,
                ),
    {
        let now = self.now();
        let wall_now = unix_now_nanos();
        self.store_at(url, status, headers, body, now, wall_now);
    }

    /// Conditional request headers for a cached URL: If-None-Match from the
    /// ETag and If-Modified-Since from Last-Modified. Empty for an unknown URL.
    pub fn conditional_headers(&self, url: &str) -> (h: StringMap)
        requires
            self.wf(),
        ensures
            h@ == conditional_map(self.records(), url@),
    {
        let mut h = StringMap::new();
        if let Some(i) = self.find(url) {
            if let Some(etag) = &self.entries[i].etag {
                h.insert("If-None-Match", etag.as_str());
            }
            if let Some(lm) = &self.entries[i].last_modified {
                h.insert("If-Modified-Since", lm.as_str());
            }
        }
        h
    }

    /// Marks `url` as just fetched at time `now` (for a 304 answer): both its
    /// access and insertion times become `now`.
    pub fn touch_at(&mut self, url: &str, now: u128)
        requires
            old(self).wf(),
        ensures
            final(self).wf(),
            final(self).max_bytes() == old(self).max_bytes(),
            final(self).records() == touch_records(old(self).records(), url@, now as nat),
    {
        if let Some(i) = self.find(url) {
            let ghost old_rs = self.records();
            self.entries[i].last_accessed = now;
            self.entries[i].inserted = now;
            proof {
                assert(self.records() =~= old_rs.update(i as int, refreshed(old_rs[i as int], now as nat)));
                lemma_total_update(old_rs, i as int, refreshed(old_rs[i as int], now as nat));
            }
        }
    }

    /// Marks `url` as just fetched, at the current time.
    pub fn touch(&mut self, url: &str)
        requires
            old(self).wf(),
        ensures
            final(self).wf(),
            final(self).max_bytes() == old(self).max_bytes(),
            exists|now: nat| final(self).records() == touch_records(old(self).records(), url@, now),
    {
        let now = self.now();
        self.touch_at(url, now);
    }

    /// Removes every entry.
    pub fn clear(&mut self)
        requires
            old(self).wf(),
        ensures
            final(self).wf(),
            final(self).max_bytes() == old(self).max_bytes(),
            final(self).records() == Seq::<CacheRecord>::empty(),
            final(self).used_bytes() == 0,
    {
        self.entries = Vec::new();
        self.current_size = 0;
        assert(self.records() =~= Seq::<CacheRecord>::empty());
    }

    /// Bytes in use: the sum of the stored body sizes.
    pub fn size(&self) -> (r: usize)
        requires
            self.wf(),
        ensures
            r == self.used_bytes(),
            r == total_size(self.records()),
            r <= self.max_bytes(),
    {
        self.current_size
    }

    /// Number of cached entries.
    pub fn len(&self) -> (r: usize)
        ensures
            r == self.records().len(),
    {
        self.entries.len()
    }

    /// Whether the cache holds no entry.
    pub fn is_empty(&self) -> (r: bool)
        ensures
            r == (self.records().len() == 0),
    {
        self.entries.len() == 0
    }
}

/// The conditional headers for `url`: If-None-Match from its ETag and
/// If-Modified-Since from its Last-Modified, empty when `url` is not cached.
pub open spec fn conditional_map(rs: Seq<CacheRecord>, url: Seq<char>) -> Map<Seq<char>, Seq<char>> {
    match lookup(rs, url) {
        Some(i) => {
            let m0 = Map::<Seq<char>, Seq<char>>::empty();
            let m1 = match rs[i].etag {
                Some(e) => m0.insert("If-None-Match"@, e),
                None => m0,
            };
            match rs[i].last_modified {
                Some(l) => m1.insert("If-Modified-Since"@, l),
                None => m1,
            }
        },
        None => Map::empty(),
    }
}


// ───────────────────────── laws ─────────────────────────

proof fn lemma_evict_keeps_absent(rs: Seq<CacheRecord>, incoming: nat, max: nat, url: Seq<char>)
    requires
        forall|j: int| 0 <= j < rs.len() ==> rs[j].url != url,
    ensures
        forall|j: int|
            0 <= j < evict_to_fit(rs, incoming, max).len() ==> evict_to_fit(rs, incoming, max)[j].url
                != url,
    decreases rs.len(),
{
    let i = lru_index(rs);
    if rs.len() > 0 && total_size(rs) + incoming > max && 0 <= i < rs.len() {
        lemma_remove_keeps_absent(rs, i, url);
        lemma_evict_keeps_absent(rs.remove(i), incoming, max, url);
    }
}

proof fn lemma_without_url_absent(rs: Seq<CacheRecord>, url: Seq<char>)
    requires
        urls_distinct(rs),
    ensures
        forall|j: int| 0 <= j < without_url(rs, url).len() ==> without_url(rs, url)[j].url != url,
{
    match lookup(rs, url) {
        Some(i) => {
            lemma_remove_keeps_distinct(rs, i);
        },
        None => {},
    }
}

/// Read after write: once a cacheable response that fits has been stored,
/// a lookup of its URL within its freshness lifetime answers with that
/// response.
pub proof fn law_get_returns_stored(
    c: HttpCache,
    url: Seq<char>,
    status: u16,
    h: Map<Seq<char>, Seq<char>>,
    body: Seq<char>,
    size: nat,
    now: nat,
    wall_now: int,
    later: nat,
)
    requires
        c.wf(),
        cacheable(status, h),
        size <= c.max_bytes(),
        elapsed(later, now) <= lifetime_nanos(h, wall_now),
    ensures
        ({
            let after = store_records(c.records(), c.max_bytes(), url, status, h, body, size, now, wall_now);
            &&& get_hit(after, url, later) is Some
            &&& get_hit(after, url, later)->0.body == body
            &&& get_hit(after, url, later)->0.status == status
            &&& get_hit(after, url, later)->0.headers == h
        }),
{
    let rs = c.records();
    let kept = evict_to_fit(without_url(rs, url), size, c.max_bytes());
    lemma_without_url_absent(rs, url);
    lemma_evict_keeps_absent(without_url(rs, url), size, c.max_bytes(), url);
    let after = kept.push(new_record(url, status, h, body, size, now, wall_now));
    let k = kept.len() as int;
    assert(after[k].url == url);
    let i = lookup(after, url)->0;
    assert(after[i].url == url);
    if i < k {
        assert(after[i] == kept[i]);
    }
}

/// A response that may not be cached leaves the cache as it was.
pub proof fn law_uncacheable_not_stored(
    c: HttpCache,
    url: Seq<char>,
    status: u16,
    h: Map<Seq<char>, Seq<char>>,
    body: Seq<char>,
    size: nat,
    now: nat,
    wall_now: int,
)
    requires
        c.wf(),
        !cacheable(status, h),
    ensures
        store_records(c.records(), c.max_bytes(), url, status, h, body, size, now, wall_now)
            == c.records(),
{
}

/// A URL that is not cached is a miss, and a miss changes nothing.
pub proof fn law_unknown_url_misses(c: HttpCache, url: Seq<char>, now: nat)
    requires
        c.wf(),
        lookup(c.records(), url) is None,
    ensures
        get_hit(c.records(), url, now) is None,
        get_records(c.records(), url, now) == c.records(),
        conditional_map(c.records(), url) == Map::<Seq<char>, Seq<char>>::empty(),
{
}

/// A touched entry is fresh: a lookup at the time of the touch is a hit.
pub proof fn law_touch_makes_fresh(c: HttpCache, url: Seq<char>, now: nat)
    requires
        c.wf(),
        lookup(c.records(), url) is Some,
    ensures
        get_hit(touch_records(c.records(), url, now), url, now) is Some,
{
    let rs = c.records();
    let i = lookup(rs, url)->0;
    let t = touch_records(rs, url, now);
    assert(t[i].url == url);
    lemma_lookup_found(rs, url, i);
    assert(urls_distinct(t)) by {
        assert forall|a: int, b: int| 0 <= a < t.len() && 0 <= b < t.len() && a != b implies t[a].url != t[b].url by {
            assert(t[a].url == rs[a].url);
            assert(t[b].url == rs[b].url);
        }
    }
    lemma_lookup_found(t, url, i);
}

/// Storing keeps the bytes in use within the limit: the stored bodies
/// always fit.
pub proof fn law_store_respects_limit(
    c: HttpCache,
    url: Seq<char>,
    status: u16,
    h: Map<Seq<char>, Seq<char>>,
    body: Seq<char>,
    size: nat,
    now: nat,
    wall_now: int,
)
    requires
        c.wf(),
    ensures
        total_size(store_records(c.records(), c.max_bytes(), url, status, h, body, size, now, wall_now))
            <= c.max_bytes(),
{
    let rs = c.records();
    if cacheable(status, h) {
        let w = without_url(rs, url);
        if let Some(i) = lookup(rs, url) {
            lemma_total_remove(rs, i);
        }
        lemma_evict_fits(w, size, c.max_bytes());
        let kept = evict_to_fit(w, size, c.max_bytes());
        lemma_total_push(kept, new_record(url, status, h, body, size, now, wall_now));
    }
}

proof fn lemma_lru_exists(rs: Seq<CacheRecord>)
    requires
        rs.len() > 0,
    ensures
        is_lru(rs, lru_index(rs)),
        0 <= lru_index(rs) < rs.len(),
    decreases rs.len(),
{
    if rs.len() == 1 {
        assert(is_lru(rs, 0));
    } else {
        let p = rs.drop_last();
        lemma_lru_exists(p);
        let k = lru_index(p);
        let n = rs.len() - 1;
        if rs[n].last_accessed < rs[k].last_accessed {
            assert forall|j: int| 0 <= j < rs.len() implies rs[n].last_accessed <= rs[j].last_accessed by {
                if j < n {
                    assert(p[j] == rs[j]);
                }
            }
            assert forall|j: int| 0 <= j < n implies rs[j].last_accessed > rs[n].last_accessed by {
                assert(p[j] == rs[j]);
            }
            assert(is_lru(rs, n));
        } else {
            assert forall|j: int| 0 <= j < rs.len() implies rs[k].last_accessed <= rs[j].last_accessed by {
                if j < n {
                    assert(p[j] == rs[j]);
                }
            }
            assert forall|j: int| 0 <= j < k implies rs[j].last_accessed > rs[k].last_accessed by {
                assert(p[j] == rs[j]);
            }
            assert(is_lru(rs, k));
        }
    }
}

proof fn lemma_evict_fits(rs: Seq<CacheRecord>, incoming: nat, max: nat)
    ensures
        evict_to_fit(rs, incoming, max).len() == 0 || total_size(evict_to_fit(rs, incoming, max))
            + incoming <= max,
        total_size(evict_to_fit(rs, incoming, max)) <= total_size(rs),
    decreases rs.len(),
{
    let i = lru_index(rs);
    if rs.len() > 0 {
        lemma_lru_exists(rs);
    }
    if rs.len() > 0 && total_size(rs) + incoming > max && 0 <= i < rs.len() {
        lemma_total_remove(rs, i);
        lemma_evict_fits(rs.remove(i), incoming, max);
    }
}

/// Eviction removes a least recently accessed entry first: while a new
/// response does not fit, the entry with the smallest access time goes.
pub proof fn law_evicts_least_recent(rs: Seq<CacheRecord>, incoming: nat, max: nat)
    requires
        rs.len() > 0,
        total_size(rs) + incoming > max,
    ensures
        is_lru(rs, lru_index(rs)),
        evict_to_fit(rs, incoming, max) == evict_to_fit(rs.remove(lru_index(rs)), incoming, max),
{
    lemma_lru_exists(rs);
}

proof fn lemma_remove_keeps_sizes(rs: Seq<CacheRecord>, i: int)
    requires
        sizes_match(rs),
        0 <= i < rs.len(),
    ensures
        sizes_match(rs.remove(i)),
{
    rs.remove_ensures(i);
    assert forall|j: int| 0 <= j < rs.remove(i).len() implies (#[trigger] rs.remove(i)[j]).size == utf8_len(
        rs.remove(i)[j].body,
    ) by {
        let j2 = if j < i { j } else { j + 1 };
        assert(rs.remove(i)[j] == rs[j2]);
    }
}

proof fn lemma_evict_keeps_valid(rs: Seq<CacheRecord>, incoming: nat, max: nat)
    requires
        urls_distinct(rs),
        sizes_match(rs),
    ensures
        urls_distinct(evict_to_fit(rs, incoming, max)),
        sizes_match(evict_to_fit(rs, incoming, max)),
    decreases rs.len(),
{
    let i = lru_index(rs);
    if rs.len() > 0 && total_size(rs) + incoming > max && 0 <= i < rs.len() {
        lemma_remove_keeps_distinct(rs, i);
        lemma_remove_keeps_sizes(rs, i);
        lemma_evict_keeps_valid(rs.remove(i), incoming, max);
    }
}

/// Storing keeps the cache's accounting: no URL is stored twice, each
/// record's size is the byte length of its body, and the stored sizes stay
/// within the limit. A cacheable response that fits is stored once, with
/// its body, status and headers; an earlier record for its URL is taken
/// out first, so its bytes are not counted twice: the bytes in use are
/// those of the records kept plus the new body.
pub proof fn law_store_accounting(
    c: HttpCache,
    url: Seq<char>,
    status: u16,
    h: Map<Seq<char>, Seq<char>>,
    body: Seq<char>,
    now: nat,
    wall_now: int,
)
    requires
        c.wf(),
    ensures
        ({
            let rs = c.records();
            let max = c.max_bytes();
            let size = utf8_len(body);
            let after = store_records(rs, max, url, status, h, body, size, now, wall_now);
            let kept = evict_to_fit(without_url(rs, url), size, max);
            &&& urls_distinct(after)
            &&& sizes_match(after)
            &&& total_size(after) <= max
            &&& (lookup(rs, url) matches Some(i) ==> total_size(without_url(rs, url)) + rs[i].size == total_size(rs))
            &&& (cacheable(status, h) && size <= max ==> {
                &&& after == kept.push(new_record(url, status, h, body, size, now, wall_now))
                &&& total_size(after) == total_size(kept) + size
                &&& lookup(after, url) == Some(kept.len() as int)
                &&& after[kept.len() as int].body == body
                &&& after[kept.len() as int].status == status
                &&& after[kept.len() as int].headers == h
            })
        }),
{
    c.lemma_wf();
    let rs = c.records();
    let max = c.max_bytes();
    let size = utf8_len(body);
    law_store_respects_limit(c, url, status, h, body, size, now, wall_now);
    let w = without_url(rs, url);
    match lookup(rs, url) {
        Some(i) => {
            lemma_total_remove(rs, i);
            lemma_remove_keeps_distinct(rs, i);
            lemma_remove_keeps_sizes(rs, i);
        },
        None => {},
    }
    lemma_without_url_absent(rs, url);
    lemma_evict_keeps_valid(w, size, max);
    lemma_evict_keeps_absent(w, size, max, url);
    let kept = evict_to_fit(w, size, max);
    if cacheable(status, h) && size <= max {
        let r = new_record(url, status, h, body, size, now, wall_now);
        let after = kept.push(r);
        lemma_total_push(kept, r);
        let k = kept.len() as int;
        assert forall|a: int, b: int| 0 <= a < after.len() && 0 <= b < after.len() && a != b implies after[a].url
            != after[b].url by {
            if a < k && b < k {
                assert(after[a] == kept[a] && after[b] == kept[b]);
            } else if a < k {
                assert(after[a] == kept[a]);
            } else {
                assert(after[b] == kept[b]);
            }
        }
        assert forall|j: int| 0 <= j < after.len() implies (#[trigger] after[j]).size == utf8_len(after[j].body) by {
            if j < k {
                assert(after[j] == kept[j]);
            }
        }
        lemma_lookup_found(after, url, k);
    }
}

/// A lookup changes no body, status, header, URL or size, nor how many
/// records there are or the bytes in use; it answers exactly when the URL
/// is cached and not expired, with the stored record; and a miss on an
/// expired record leaves every record as it was, so the record's
/// validators stay available for a conditional request.
pub proof fn law_get_keeps_contents(c: HttpCache, url: Seq<char>, now: nat)
    requires
        c.wf(),
    ensures
        ({
            let rs = c.records();
            let after = get_records(rs, url, now);
            &&& after.len() == rs.len()
            &&& total_size(after) == total_size(rs)
            &&& forall|j: int| 0 <= j < rs.len() ==> {
                &&& (#[trigger] after[j]).url == rs[j].url
                &&& after[j].body == rs[j].body
                &&& after[j].status == rs[j].status
                &&& after[j].headers == rs[j].headers
                &&& after[j].size == rs[j].size
                &&& after[j].etag == rs[j].etag
                &&& after[j].last_modified == rs[j].last_modified
            }
            &&& (get_hit(rs, url, now) is Some <==> (lookup(rs, url) matches Some(i) && !expired(rs[i], now)))
            &&& (get_hit(rs, url, now) matches Some(r) ==> r == rs[lookup(rs, url)->0])
            &&& (get_hit(rs, url, now) is None ==> after == rs)
            &&& conditional_map(after, url) == conditional_map(rs, url)
        }),
{
    c.lemma_wf();
    let rs = c.records();
    match lookup(rs, url) {
        Some(i) => {
            if !expired(rs[i], now) {
                let after = rs.update(i, accessed(rs[i], now));
                lemma_total_update(rs, i, accessed(rs[i], now));
                assert forall|a: int, b: int| 0 <= a < after.len() && 0 <= b < after.len() && a != b implies after[a].url
                    != after[b].url by {
                    assert(after[a].url == rs[a].url && after[b].url == rs[b].url);
                }
                lemma_lookup_found(after, url, i);
            }
        },
        None => {},
    }
}

/// Touching changes no body, status, header, URL or size, nor how many
/// records there are or the bytes in use. A cached URL gets both its
/// insertion and access times set to `now`, and nothing else changes; an
/// unknown URL changes nothing.
pub proof fn law_touch_keeps_contents(c: HttpCache, url: Seq<char>, now: nat)
    requires
        c.wf(),
    ensures
        ({
            let rs = c.records();
            let after = touch_records(rs, url, now);
            &&& after.len() == rs.len()
            &&& total_size(after) == total_size(rs)
            &&& forall|j: int| 0 <= j < rs.len() ==> {
                &&& (#[trigger] after[j]).url == rs[j].url
                &&& after[j].body == rs[j].body
                &&& after[j].status == rs[j].status
                &&& after[j].headers == rs[j].headers
                &&& after[j].size == rs[j].size
                &&& after[j].max_age == rs[j].max_age
            }
            &&& (lookup(rs, url) matches Some(i) ==> {
                &&& after[i].inserted == now
                &&& after[i].last_accessed == now
                &&& forall|j: int| 0 <= j < rs.len() && j != i ==> #[trigger] after[j] == rs[j]
            })
            &&& (lookup(rs, url) is None ==> after == rs)
        }),
{
    let rs = c.records();
    match lookup(rs, url) {
        Some(i) => {
            lemma_total_update(rs, i, refreshed(rs[i], now));
        },
        None => {},
    }
}

/// The freshness lifetime: a parsable `max-age=N` in Cache-Control gives N
/// seconds whatever Expires says; without one, a future Expires date gives
/// the time until it; with neither, five minutes.
pub proof fn law_max_age_wins_over_expires(h: Map<Seq<char>, Seq<char>>, wall_now: int)
    ensures
        max_age_secs(h) matches Some(s) ==> lifetime_nanos(h, wall_now) == s * 1_000_000_000,
        max_age_secs(h) is None ==> (expires_nanos(h, wall_now) matches Some(d) ==> lifetime_nanos(h, wall_now)
            == d),
        max_age_secs(h) is None && expires_nanos(h, wall_now) is None ==> lifetime_nanos(h, wall_now)
            == 300_000_000_000,
{
}

/// A response stored with `max-age=N` is served for N seconds from its
/// storing and not after, whatever its Expires header says.
pub proof fn law_max_age_bounds_serving(
    c: HttpCache,
    url: Seq<char>,
    status: u16,
    h: Map<Seq<char>, Seq<char>>,
    body: Seq<char>,
    size: nat,
    now: nat,
    wall_now: int,
    later: nat,
    secs: u64,
)
    requires
        c.wf(),
        cacheable(status, h),
        size <= c.max_bytes(),
        max_age_secs(h) == Some(secs),
    ensures
        ({
            let after = store_records(c.records(), c.max_bytes(), url, status, h, body, size, now, wall_now);
            &&& elapsed(later, now) <= secs * 1_000_000_000 ==> get_hit(after, url, later) is Some
            &&& elapsed(later, now) > secs * 1_000_000_000 ==> get_hit(after, url, later) is None
        }),
{
    let rs = c.records();
    let kept = evict_to_fit(without_url(rs, url), size, c.max_bytes());
    lemma_without_url_absent(rs, url);
    lemma_evict_keeps_absent(without_url(rs, url), size, c.max_bytes(), url);
    let after = kept.push(new_record(url, status, h, body, size, now, wall_now));
    let k = kept.len() as int;
    assert(after[k].url == url);
    let i = lookup(after, url)->0;
    assert(after[i].url == url);
    if i < k {
        assert(after[i] == kept[i]);
    }
    assert(i == k);
    assert(after[k].max_age == secs * 1_000_000_000);
}

/// Only a 200 answer is cached, and never one that sets a cookie or whose
/// Cache-Control says `no-store`, `no-cache` or `private` (in any case).
pub proof fn law_uncacheable_responses(status: u16, h: Map<Seq<char>, Seq<char>>)
    ensures
        status != 200 ==> !cacheable(status, h),
        h.contains_key("set-cookie"@) || h.contains_key("Set-Cookie"@) ==> !cacheable(status, h),
        contains(cache_control_lower(h), "no-store"@) ==> !cacheable(status, h),
        contains(cache_control_lower(h), "no-cache"@) ==> !cacheable(status, h),
        contains(cache_control_lower(h), "private"@) ==> !cacheable(status, h),
{
}

} // verus!
