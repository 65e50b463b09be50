//! URLs, as the `url` crate reads them.
//!
//! A URL is held as the text that the `url` crate serialises it to.  What the
//! crate makes of a text is not proved here: each of its answers has a name,
//! and the contracts of this crate speak of those names.

use url::Url;
use vstd::prelude::*;

verus! {

/// The characters of a text that may be absent.
pub open spec fn text_of(text: Option<String>) -> Option<Seq<char>> {
    match text {
        Some(t) => Some(t@),
        None => None,
    }
}

/// The URL that `Url::parse` reads from `text`, serialised; none where it
/// fails.
pub uninterp spec fn url_parsed(text: Seq<char>) -> Option<Seq<char>>;

/// The URL that `Url::join` makes of `reference`, read against the URL
/// `base`, serialised; none where `base` is no URL or joining fails.
pub uninterp spec fn url_joined(base: Seq<char>, reference: Seq<char>) -> Option<Seq<char>>;

/// The scheme of the URL `url`, as `Url::scheme` gives it; none where `url` is
/// no URL.
pub uninterp spec fn url_scheme(url: Seq<char>) -> Option<Seq<char>>;

/// Whether the URL `url` has a host, as `Url::has_host` says; none where `url`
/// is no URL.
pub uninterp spec fn url_has_host(url: Seq<char>) -> Option<bool>;

/// The URL `url` after `Url::set_host` gave it the host `host`, serialised;
/// none where `url` is no URL or the host cannot be set.
pub uninterp spec fn url_with_host(url: Seq<char>, host: Seq<char>) -> Option<Seq<char>>;

/// The last segment of the path of the URL `url`, as the last item of
/// `Url::path_segments`; none where `url` is no URL or has no such segments.
pub uninterp spec fn url_last_segment(url: Seq<char>) -> Option<Seq<char>>;

/// Reads `text` as an absolute URL with `Url::parse` and gives its
/// serialisation; none where `Url::parse` fails.  The contract names the
/// result and claims nothing else of it.
#[verifier::external_body]
pub(crate) fn parse(text: &str) -> (r: Option<String>)
    ensures
        text_of(r) == url_parsed(text@),
{
    match Url::parse(text) {
        Ok(url) => Some(String::from(url)),
        Err(_) => None,
    }
}

/// Reads `reference` against the URL `base` with `Url::join` and gives the
/// serialisation of the result; none where `Url::parse` fails on `base` or
/// `Url::join` fails.  The contract names the result and claims nothing else
/// of it.
#[verifier::external_body]
pub(crate) fn join(base: &str, reference: &str) -> (r: Option<String>)
    ensures
        text_of(r) == url_joined(base@, reference@),
{
    match Url::parse(base) {
        Ok(base) => match base.join(reference) {
            Ok(url) => Some(String::from(url)),
            Err(_) => None,
        },
        Err(_) => None,
    }
}

/// The scheme of the URL `url`, from `Url::scheme`; none where `Url::parse`
/// fails on `url`.  The contract names the result and claims nothing else of
/// it.
#[verifier::external_body]
pub(crate) fn scheme(url: &str) -> (r: Option<String>)
    ensures
        text_of(r) == url_scheme(url@),
{
    match Url::parse(url) {
        Ok(url) => Some(String::from(url.scheme())),
        Err(_) => None,
    }
}

/// Whether the URL `url` has a host, from `Url::has_host`; none where
/// `Url::parse` fails on `url`.  The contract names the result and claims
/// nothing else of it.
#[verifier::external_body]
pub(crate) fn has_host(url: &str) -> (r: Option<bool>)
    ensures
        r == url_has_host(url@),
{
    match Url::parse(url) {
        Ok(url) => Some(url.has_host()),
        Err(_) => None,
    }
}

/// The URL `url` with the host `host`, set by `Url::set_host`, serialised;
/// none where `Url::parse` fails on `url` or `Url::set_host` fails.  The
/// contract names the result and claims nothing else of it.
#[verifier::external_body]
pub(crate) fn with_host(url: &str, host: &str) -> (r: Option<String>)
    ensures
        text_of(r) == url_with_host(url@, host@),
{
    match Url::parse(url) {
        Ok(mut url) => match url.set_host(Some(host)) {
            Ok(()) => Some(String::from(url)),
            Err(_) => None,
        },
        Err(_) => None,
    }
}

/// The last segment of the path of the URL `url`, the last item that
/// `Url::path_segments` gives; none where `Url::parse` fails on `url` or the
/// URL has no such segments.  The contract names the result and claims
/// nothing else of it.
#[verifier::external_body]
pub(crate) fn last_segment(url: &str) -> (r: Option<String>)
    ensures
        text_of(r) == url_last_segment(url@),
{
    match Url::parse(url) {
        Ok(url) => url.path_segments().and_then(|segments| segments.last()).map(String::from),
        Err(_) => None,
    }
}

} // verus!
