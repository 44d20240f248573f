//! Build information of charted-server and small helpers shared by its crates.

use vstd::prelude::*;
use crate::text::{concat, str_eq};

verus! {

/// The version of the Rust compiler that charted-server was compiled on.
pub const RUSTC_VERSION: &'static str = "1.87.0-nightly";

/// The Git commit hash that this build was built off from.
pub const COMMIT_HASH: &'static str = "aa15e981";

/// RFC3339-formatted date of when charted-server was last built at.
pub const BUILD_DATE: &'static str = "2025-03-08T09:36:08.685954602+00:00";

/// The current version of `charted-server`.
pub const VERSION: &'static str = "0.1.0";

/// The commit hash that is treated as "no commit hash".
pub const PLACEHOLDER_COMMIT_HASH: &'static str = "d1cebae";

/// `v{version}+{commit}`, or `v{version}` when the commit hash is empty or
/// the placeholder hash.
pub open spec fn version_string(version: Seq<char>, commit: Seq<char>) -> Seq<char> {
    if commit == PLACEHOLDER_COMMIT_HASH@ || commit.len() == 0 {
        "v"@ + version
    } else {
        "v"@ + version + "+"@ + commit
    }
}

/// Formats a version as `version()` does, for a given version and commit hash.
pub fn format_version(version: &str, commit: &str) -> (r: String)
    ensures
        r@ == version_string(version@, commit@),
{
    let mut buf = concat("v", version);
    proof {
        reveal_strlit("v");
        reveal_strlit("+");
    }
    if !(str_eq(commit, PLACEHOLDER_COMMIT_HASH) || commit.unicode_len() == 0) {
        buf.append("+");
        buf.append(commit);
    }
    buf
}

/// Returns the version of charted-server combined with its commit hash:
/// `v{VERSION}+{COMMIT_HASH}`, or `v{VERSION}` without a commit hash.
pub fn version() -> (r: String)
    ensures
        r@ == version_string(VERSION@, COMMIT_HASH@),
{
    format_version(VERSION, COMMIT_HASH)
}

/// An ASCII letter or digit: what `Alphanumeric` samples.
pub open spec fn is_alphanumeric(c: char) -> bool {
    ('a' <= c && c <= 'z') || ('A' <= c && c <= 'Z') || ('0' <= c && c <= '9')
}

/// Generates a random string of `len` ASCII letters and digits, with
/// `rand::distr::Alphanumeric` sampled by `rand::rng()`.
#[verifier::external_body]
pub fn rand_string(len: usize) -> (r: String)
    ensures
        r@.len() == len,
        forall|i: int| 0 <= i < len ==> is_alphanumeric(#[trigger] r@[i]),
{
    rand::distr::SampleString::sample_string(&rand::distr::Alphanumeric, &mut rand::rng(), len)
}

/// The report type of `eyre`.
#[verifier::external_type_specification]
#[verifier::external_body]
pub struct ExReport(eyre::Report);

/// Extension trait to extend `Result<T, E>`.
pub trait ResultExt<E>: Sized {
    /// The success type.
    type Ok;

    /// Transforms this `Result` into an `eyre::Result`, with the error
    /// converted into an `eyre::Report`.
    fn into_report(self) -> Result<Self::Ok, eyre::Report> where E: Into<eyre::Report>;
}

impl<T, E> ResultExt<E> for Result<T, E> {
    type Ok = T;

    fn into_report(self) -> (r: Result<T, eyre::Report>) where E: Into<eyre::Report>
        ensures
            r is Ok <==> self is Ok,
            self is Ok ==> r == Ok::<T, eyre::Report>(self->Ok_0),
    {
        match self {
            Ok(t) => Ok(t),
            Err(e) => Err(e.into()),
        }
    }
}

} // verus!
