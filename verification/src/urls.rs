//! URLs, held as their serialized text, with parsing and joining done by
//! the `url` crate.

use vstd::prelude::*;
use crate::text::views;

verus! {

/// The error of the `url` crate.
#[verifier::external_type_specification]
#[verifier::external_body]
pub struct ExUrlParseError(url::ParseError);

/// The serialization of `Url::parse(input)`, or `None` when it fails.
pub uninterp spec fn url_parse(input: Seq<char>) -> Option<Seq<char>>;

/// The serialization of `Url::parse(base)?.join(input)`, or `None` when
/// either step fails.
pub uninterp spec fn url_join(base: Seq<char>, input: Seq<char>) -> Option<Seq<char>>;

/// `Url::parse(input)?.scheme()`, or `None` when parsing fails.
pub uninterp spec fn url_scheme(input: Seq<char>) -> Option<Seq<char>>;

/// `Url::parse(input)?.host()` as whether the host is a domain and its
/// display, or `None` when parsing fails; the inner `None` is a URL without
/// a host.
pub uninterp spec fn url_host(input: Seq<char>) -> Option<Option<(bool, Seq<char>)>>;

/// `Url::parse(input)?.path_segments()` collected, or `None` when parsing
/// fails; the inner `None` is a URL that cannot be a base.
pub uninterp spec fn url_path_segments(input: Seq<char>) -> Option<Option<Seq<Seq<char>>>>;

/// Parses an absolute URL with `Url::parse` and returns its serialization.
#[verifier::external_body]
pub(crate) fn parse_url(input: &str) -> (r: Result<String, url::ParseError>)
    ensures
        match r {
            Ok(s) => url_parse(input@) == Some(s@),
            Err(_) => url_parse(input@) is None,
        },
{
    match url::Url::parse(input) {
        Ok(u) => Ok(u.as_str().to_string()),
        Err(e) => Err(e),
    }
}

/// Joins `input` onto the URL `base` with `Url::join` and returns the
/// serialization of the result.
#[verifier::external_body]
pub(crate) fn join_url(base: &str, input: &str) -> (r: Result<String, url::ParseError>)
    ensures
        match r {
            Ok(s) => url_join(base@, input@) == Some(s@),
            Err(_) => url_join(base@, input@) is None,
        },
{
    match url::Url::parse(base) {
        Ok(u) => match u.join(input) {
            Ok(j) => Ok(j.as_str().to_string()),
            Err(e) => Err(e),
        },
        Err(e) => Err(e),
    }
}

/// The scheme of the URL `input`, by `Url::scheme`.
#[verifier::external_body]
pub(crate) fn scheme_of(input: &str) -> (r: Result<String, url::ParseError>)
    ensures
        match r {
            Ok(s) => url_scheme(input@) == Some(s@),
            Err(_) => url_scheme(input@) is None,
        },
{
    match url::Url::parse(input) {
        Ok(u) => Ok(u.scheme().to_string()),
        Err(e) => Err(e),
    }
}

/// The host of the URL `input`, by `Url::host`: whether it is a domain and
/// how it displays.
#[verifier::external_body]
pub(crate) fn host_of(input: &str) -> (r: Result<Option<(bool, String)>, url::ParseError>)
    ensures
        match r {
            Ok(Some((d, h))) => url_host(input@) == Some(Some((d, h@))),
            Ok(None) => url_host(input@) == Some(None::<(bool, Seq<char>)>),
            Err(_) => url_host(input@) is None,
        },
{
    match url::Url::parse(input) {
        Ok(u) => match u.host() {
            Some(url::Host::Domain(d)) => Ok(Some((true, d.to_string()))),
            Some(h) => Ok(Some((false, h.to_string()))),
            None => Ok(None),
        },
        Err(e) => Err(e),
    }
}

/// The path segments of the URL `input`, by `Url::path_segments`.
#[verifier::external_body]
pub(crate) fn path_segments_of(input: &str) -> (r: Result<Option<Vec<String>>, url::ParseError>)
    ensures
        match r {
            Ok(Some(v)) => url_path_segments(input@) == Some(Some(views(v@))),
            Ok(None) => url_path_segments(input@) == Some(None::<Seq<Seq<char>>>),
            Err(_) => url_path_segments(input@) is None,
        },
{
    match url::Url::parse(input) {
        Ok(u) => match u.path_segments() {
            Some(segments) => Ok(Some(segments.map(|s| s.to_string()).collect())),
            None => Ok(None),
        },
        Err(e) => Err(e),
    }
}

} // verus!
