//! URL parsing through the `url` crate. What the parser returns takes the
//! WHATWG URL standard to state, so its results are named here and the logic
//! around them is verified over those names.
use vstd::prelude::*;

verus! {

/// The ASCII serialization of the origin of `s` parsed as an absolute URL
/// (`Url::parse(s)` then `origin().ascii_serialization()`); `None` when `s`
/// does not parse.
pub uninterp spec fn url_origin(s: Seq<char>) -> Option<Seq<char>>;

/// The host of `s` parsed as an absolute URL (`Url::host_str`); `None` when
/// `s` does not parse or has no host.
pub uninterp spec fn url_host(s: Seq<char>) -> Option<Seq<char>>;

/// The scheme of `s` parsed as an absolute URL (`Url::scheme`); `None` when
/// `s` does not parse.
pub uninterp spec fn url_scheme(s: Seq<char>) -> Option<Seq<char>>;

/// The path of `s` parsed as an absolute URL (`Url::path`); `None` when `s`
/// does not parse.
pub uninterp spec fn url_path(s: Seq<char>) -> Option<Seq<char>>;

/// `reference` resolved against the absolute URL `base` and serialized
/// (`Url::parse(base)` then `join(reference)`); `None` when either step
/// fails.
pub uninterp spec fn url_join(base: Seq<char>, reference: Seq<char>) -> Option<Seq<char>>;

/// `url::Url::parse` followed by `Origin::ascii_serialization`; the result is
/// named `url_origin`.
#[verifier::external_body]
pub(crate) fn origin_of_url(s: &str) -> (r: Option<String>)
    ensures
        r matches Some(o) ==> url_origin(s@) == Some(o@),
        r is None ==> url_origin(s@) is None,
{
    url::Url::parse(s).ok().map(|u| u.origin().ascii_serialization())
}

/// `url::Url::parse` followed by `Url::host_str`; the result is named
/// `url_host`.
#[verifier::external_body]
pub(crate) fn host_of_url(s: &str) -> (r: Option<String>)
    ensures
        r matches Some(h) ==> url_host(s@) == Some(h@),
        r is None ==> url_host(s@) is None,
{
    url::Url::parse(s).ok().and_then(|u| u.host_str().map(|h| h.to_string()))
}

/// `url::Url::parse` followed by `Url::scheme`; the result is named
/// `url_scheme`.
#[verifier::external_body]
pub(crate) fn scheme_of_url(s: &str) -> (r: Option<String>)
    ensures
        r matches Some(h) ==> url_scheme(s@) == Some(h@),
        r is None ==> url_scheme(s@) is None,
{
    url::Url::parse(s).ok().map(|u| u.scheme().to_string())
}

/// `url::Url::parse` followed by `Url::path`; the result is named `url_path`.
#[verifier::external_body]
pub(crate) fn path_of_url(s: &str) -> (r: Option<String>)
    ensures
        r matches Some(h) ==> url_path(s@) == Some(h@),
        r is None ==> url_path(s@) is None,
{
    url::Url::parse(s).ok().map(|u| u.path().to_string())
}

/// `url::Url::parse(base)` followed by `Url::join(reference)` and
/// serialization; the result is named `url_join`.
#[verifier::external_body]
pub(crate) fn join_url(base: &str, reference: &str) -> (r: Option<String>)
    ensures
        r matches Some(h) ==> url_join(base@, reference@) == Some(h@),
        r is None ==> url_join(base@, reference@) is None,
{
    url::Url::parse(base).ok().and_then(|b| b.join(reference).ok()).map(|u| u.to_string())
}

/// The `application/x-www-form-urlencoded` serialization of the pairs in
/// order (`url::form_urlencoded::Serializer` with `extend_pairs` then
/// `finish`): each name and value percent-encoded, `name=value` joined by
/// `&`.
pub uninterp spec fn form_urlencoded_text(pairs: Seq<(Seq<char>, Seq<char>)>) -> Seq<char>;

/// `url::form_urlencoded::Serializer` over the pairs; the result is named
/// `form_urlencoded_text`.
#[verifier::external_body]
pub(crate) fn form_urlencode(pairs: &Vec<(String, String)>) -> (r: String)
    ensures
        r@ == form_urlencoded_text(pairs@.map_values(|p: (String, String)| (p.0@, p.1@))),
{
    url::form_urlencoded::Serializer::new(String::new()).extend_pairs(pairs.iter()).finish()
}

} // verus!
