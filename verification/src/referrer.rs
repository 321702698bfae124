//! Referrer policy: which Referer header a request carries, per the W3C
//! Referrer Policy specification.
use vstd::prelude::*;
use crate::text::{chars_of, starts_with, starts_with_exec, str_eq};
use crate::urls::{origin_of_url, url_origin};

verus! {

/// How much of the page URL a request may reveal.
#[derive(Debug, Clone, Copy, PartialEq, Eq)]
pub enum ReferrerPolicy {
    /// Never send a referrer.
    NoReferrer,
    /// Send only the origin of the page.
    Origin,
    /// Send the full URL to the same origin, nothing elsewhere.
    SameOrigin,
    /// Full URL to the same origin, the origin to any other origin, and
    /// nothing on a downgrade from an HTTPS page to a non-HTTPS target.
    StrictOriginWhenCrossOrigin,
}

/// The origin of a URL, empty when it does not parse.
pub open spec fn origin_text(url: Seq<char>) -> Seq<char> {
    match url_origin(url) {
        Some(o) => o,
        None => Seq::empty(),
    }
}

/// Both URLs parse and have the same origin (scheme, host and port).
pub open spec fn same_origin(a: Seq<char>, b: Seq<char>) -> bool {
    url_origin(a) is Some && url_origin(b) is Some && url_origin(a) == url_origin(b)
}

/// The URL uses HTTPS.
pub open spec fn is_https(url: Seq<char>) -> bool {
    starts_with(url, "https://"@) || starts_with(url, "https:"@)
}

/// The Referer value that a request from `page` to `target` carries.
pub open spec fn referrer_for(page: Seq<char>, target: Seq<char>, policy: ReferrerPolicy) -> Option<
    Seq<char>,
> {
    match policy {
        ReferrerPolicy::NoReferrer => None,
        ReferrerPolicy::Origin => Some(origin_text(page)),
        ReferrerPolicy::SameOrigin => if same_origin(page, target) {
            Some(page)
        } else {
            None
        },
        ReferrerPolicy::StrictOriginWhenCrossOrigin => if same_origin(page, target) {
            Some(page)
        } else if is_https(page) && !is_https(target) {
            None
        } else {
            Some(origin_text(page))
        },
    }
}

/// The text of an optional string.
pub open spec fn opt_text(o: Option<String>) -> Option<Seq<char>> {
    match o {
        Some(s) => Some(s@),
        None => None,
    }
}

/// Compute the Referer header value based on the referrer policy.
pub fn compute_referrer(page_url: &str, target_url: &str, policy: &ReferrerPolicy) -> (r: Option<
    String,
>)
    ensures
        opt_text(r) == referrer_for(page_url@, target_url@, *policy),
{
    match policy {
        ReferrerPolicy::NoReferrer => None,
        ReferrerPolicy::Origin => Some(origin_of(page_url)),
        ReferrerPolicy::SameOrigin => {
            if same_origin_exec(page_url, target_url) {
                Some(page_url.to_owned())
            } else {
                None
            }
        },
        ReferrerPolicy::StrictOriginWhenCrossOrigin => {
            if same_origin_exec(page_url, target_url) {
                Some(page_url.to_owned())
            } else if is_https_exec(page_url) && !is_https_exec(target_url) {
                None
            } else {
                Some(origin_of(page_url))
            }
        },
    }
}

/// Extract the origin from a URL string (scheme, host and port); empty
/// when the URL does not parse.
pub fn origin_of(url: &str) -> (r: String)
    ensures
        r@ == origin_text(url@),
{
    match origin_of_url(url) {
        Some(o) => o,
        None => String::new(),
    }
}

/// Check whether two URLs have the same origin.
pub fn same_origin_exec(a: &str, b: &str) -> (r: bool)
    ensures
        r == same_origin(a@, b@),
{
    match (origin_of_url(a), origin_of_url(b)) {
        (Some(oa), Some(ob)) => str_eq(oa.as_str(), ob.as_str()),
        _ => false,
    }
}

/// Check whether a URL uses HTTPS.
pub fn is_https_exec(url: &str) -> (r: bool)
    ensures
        r == is_https(url@),
{
    let u = chars_of(url);
    let a = chars_of("https://");
    let b = chars_of("https:");
    starts_with_exec(u.as_slice(), a.as_slice()) || starts_with_exec(u.as_slice(), b.as_slice())
}

/// No policy ever reveals more than the page URL; and apart from the
/// `Origin` policy, a cross-origin request never carries the full URL.
pub proof fn law_cross_origin_never_full_url(page: Seq<char>, target: Seq<char>, policy: ReferrerPolicy)
    requires
        !same_origin(page, target),
        policy != ReferrerPolicy::Origin,
    ensures
        referrer_for(page, target, policy) is None || referrer_for(page, target, policy) == Some(
            origin_text(page),
        ),
{
}

/// Strict origin-when-cross-origin never sends a referrer from an HTTPS
/// page to a non-HTTPS target of another origin (no downgrade leak).
pub proof fn law_no_referrer_on_downgrade(page: Seq<char>, target: Seq<char>)
    requires
        !same_origin(page, target),
        is_https(page),
        !is_https(target),
    ensures
        referrer_for(page, target, ReferrerPolicy::StrictOriginWhenCrossOrigin) is None,
{
}

/// Strict origin-when-cross-origin sends the page's origin to every other
/// origin unless the request goes from an HTTPS page to a non-HTTPS target.
pub proof fn law_cross_origin_sends_origin(page: Seq<char>, target: Seq<char>)
    requires
        !same_origin(page, target),
        !(is_https(page) && !is_https(target)),
    ensures
        referrer_for(page, target, ReferrerPolicy::StrictOriginWhenCrossOrigin) == Some(
            origin_text(page),
        ),
{
}

/// `no-referrer` never sends anything; every other policy sends the full
/// page URL to its own origin, except `origin`, which sends the origin.
pub proof fn law_same_origin_policies(page: Seq<char>, target: Seq<char>, policy: ReferrerPolicy)
    requires
        same_origin(page, target),
    ensures
        policy == ReferrerPolicy::NoReferrer ==> referrer_for(page, target, policy) is None,
        policy == ReferrerPolicy::Origin ==> referrer_for(page, target, policy) == Some(
            origin_text(page),
        ),
        policy == ReferrerPolicy::SameOrigin || policy
            == ReferrerPolicy::StrictOriginWhenCrossOrigin ==> referrer_for(page, target, policy)
            == Some(page),
{
}

} // verus!
