//! Semantic version requirements, checked by the `semver` crate.

use vstd::prelude::*;
use semver::Error as SemverError;

verus! {

/// The error of the `semver` crate.
#[verifier::external_type_specification]
#[verifier::external_body]
pub struct ExSemverError(SemverError);

/// How `semver::VersionReq::parse(input)` displays, or `None` when it fails.
pub uninterp spec fn semver_req(input: Seq<char>) -> Option<Seq<char>>;

/// Whether `semver::Version::parse(input)` succeeds.
pub uninterp spec fn semver_version_valid(input: Seq<char>) -> bool;

/// `VersionReq::parse(req)?.matches(&Version::parse(version)?)`, or `None`
/// when either fails to parse.
pub uninterp spec fn semver_matches(req: Seq<char>, version: Seq<char>) -> Option<bool>;

/// Parses a version requirement with `semver::VersionReq::parse` and
/// returns how it displays.
#[verifier::external_body]
pub(crate) fn parse_req(input: &str) -> (r: Result<String, SemverError>)
    ensures
        match r {
            Ok(s) => semver_req(input@) == Some(s@),
            Err(_) => semver_req(input@) is None,
        },
{
    match semver::VersionReq::parse(input) {
        Ok(req) => Ok(req.to_string()),
        Err(e) => Err(e),
    }
}

/// Checks a version with `semver::Version::parse`.
#[verifier::external_body]
pub(crate) fn parse_version(input: &str) -> (r: Result<(), SemverError>)
    ensures
        r is Ok <==> semver_version_valid(input@),
{
    match semver::Version::parse(input) {
        Ok(_) => Ok(()),
        Err(e) => Err(e),
    }
}

/// Whether the version `version` matches the requirement `req`, by
/// `semver::VersionReq::matches`; `None` when either does not parse.
#[verifier::external_body]
pub(crate) fn req_matches(req: &str, version: &str) -> (r: Option<bool>)
    ensures
        r == semver_matches(req@, version@),
        r is Some <==> (semver_req(req@) is Some && semver_version_valid(version@)),
{
    match (semver::VersionReq::parse(req), semver::Version::parse(version)) {
        (Ok(r), Ok(v)) => Some(r.matches(&v)),
        _ => None,
    }
}

} // verus!
