//! What the charted Helm plugin's commands decide: its version and user
//! agents, the checks of the `.charted.hcl` version requirements, the
//! formatting and linting steps, the registry endpoints and the handling of
//! the registry's answers during `push`, and the resolution of `charted://`
//! download URIs.

use vstd::prelude::*;
use crate::api::ErrorCode;
use crate::build_info::{COMMIT_HASH, VERSION};
use crate::config::{
    key_position, find_key, versioned_path, PLUGIN_VERSION, RegistryConfig, RepositoryConfig, VersionReq,
};
use crate::text::{
    concat, contains_char, decimal, has_char, i64_to_decimal, join, joined, pad_right, pad_right_str,
    is_white_space, lemma_without_first_none, lemma_without_first_prefix, remove_first_n, signed_decimal, spaces,
    str_eq, trim, trim_start, trimmed, u64_to_decimal, views, without_first,
};
use crate::urls::{
    host_of, parse_url, path_segments_of, scheme_of, url_host, url_join, url_parse,
    url_path_segments, url_scheme,
};
use crate::versions::semver_matches;

verus! {

/// `v{plugin version}+{commit hash}`.
pub open spec fn spec_version() -> Seq<char> {
    "v"@ + PLUGIN_VERSION@ + "+"@ + COMMIT_HASH@
}

/// The plugin's version and the commit it was built from.
pub fn version() -> (r: String)
    ensures
        r@ == spec_version(),
{
    let mut s = concat("v", PLUGIN_VERSION);
    s.append("+");
    s.append(COMMIT_HASH);
    s
}

/// Where the plugin's sources live.
pub const PLUGIN_HOMEPAGE: &'static str = "https://github.com/charted-dev/charted/tree/main/tools/helm-plugin";

/// The user agent of the plugin's HTTP client.
pub open spec fn spec_user_agent() -> Seq<char> {
    "Noelware/charted-helm-plugin (+"@ + spec_version() + "; "@ + PLUGIN_HOMEPAGE@ + ")"@
}

/// The user agent of the plugin's HTTP client:
/// `Noelware/charted-helm-plugin (+{version}; {homepage})`.
pub fn user_agent() -> (r: String)
    ensures
        r@ == spec_user_agent(),
{
    let mut s = concat("Noelware/charted-helm-plugin (+", version().as_str());
    s.append("; ");
    s.append(PLUGIN_HOMEPAGE);
    s.append(")");
    s
}

/// The user agent of the repository downloader.
pub open spec fn spec_download_user_agent() -> Seq<char> {
    "Noelware/charted-helm-plugin (+"@ + PLUGIN_HOMEPAGE@ + "; v"@ + VERSION@ + "+"@ + COMMIT_HASH@ + ")"@
}

/// The user agent of the repository downloader:
/// `Noelware/charted-helm-plugin (+{homepage}; v{version}+{commit})`.
pub fn download_user_agent() -> (r: String)
    ensures
        r@ == spec_download_user_agent(),
{
    let mut s = concat("Noelware/charted-helm-plugin (+", PLUGIN_HOMEPAGE);
    s.append("; v");
    s.append(VERSION);
    s.append("+");
    s.append(COMMIT_HASH);
    s.append(")");
    s
}

/// The user agent of the API client.
pub open spec fn spec_client_user_agent() -> Seq<char> {
    "Noelware/charted-helm v"@ + trimmed(PLUGIN_VERSION@) + "+"@ + COMMIT_HASH@
}

/// The user agent of the API client: `Noelware/charted-helm v{version}+{commit}`.
pub fn client_user_agent() -> (r: String)
    ensures
        r@ == spec_client_user_agent(),
{
    let mut s = concat("Noelware/charted-helm v", trim(PLUGIN_VERSION).as_str());
    s.append("+");
    s.append(COMMIT_HASH);
    s
}

/// The version that `helm version --template '{{ .Version }}'` printed,
/// cleaned up: trimmed, without the first two `'` and the first `v`.
pub open spec fn spec_clean_helm_version(output: Seq<char>) -> Seq<char> {
    without_first(without_first(trimmed(output), '\'', 2), 'v', 1)
}

/// Cleans up what `helm version --template '{{ .Version }}'` printed.
pub fn clean_helm_version(output: &str) -> (r: String)
    ensures
        r@ == spec_clean_helm_version(output@),
{
    let t = trim(output);
    let unquoted = remove_first_n(t.as_str(), '\'', 2);
    remove_first_n(unquoted.as_str(), 'v', 1)
}

/// The arguments that ask Helm for its version.
pub fn helm_version_args() -> (r: Vec<String>)
    ensures
        views(r@) == seq!["version"@, "--template"@, "'{{ .Version }}'"@],
{
    let mut v: Vec<String> = Vec::new();
    v.push(String::from_str("version"));
    v.push(String::from_str("--template"));
    v.push(String::from_str("'{{ .Version }}'"));
    assert(views(v@) =~= seq!["version"@, "--template"@, "'{{ .Version }}'"@]);
    v
}

/// Whether the plugin's own version satisfies the `charted { version }`
/// requirement; `None` when the plugin's version is not a semantic version.
pub fn plugin_satisfies(req: &VersionReq) -> (r: Option<bool>)
    ensures
        r == semver_matches(req.spec_source(), PLUGIN_VERSION@),
{
    req.matches(PLUGIN_VERSION)
}

/// Whether the version that Helm printed satisfies the `charted { helm }`
/// requirement; `None` when the cleaned-up output is not a semantic version.
pub fn helm_satisfies(req: &VersionReq, helm_output: &str) -> (r: Option<bool>)
    ensures
        r == semver_matches(req.spec_source(), spec_clean_helm_version(helm_output@)),
{
    let version = clean_helm_version(helm_output);
    req.matches(version.as_str())
}

/// Why the plugin refuses to run on a host.
#[derive(Debug, Clone, Copy, PartialEq, Eq, Structural)]
pub enum PlatformError {
    /// Only Windows, macOS and Linux are supported.
    UnsupportedOs,
    /// Only x86_64 and ARM64 are supported.
    UnsupportedArch,
}

/// An operating system the plugin runs on.
pub open spec fn supported_os(os: Seq<char>) -> bool {
    os == "windows"@ || os == "macos"@ || os == "linux"@
}

/// A CPU architecture the plugin runs on.
pub open spec fn supported_arch(arch: Seq<char>) -> bool {
    arch == "x86_64"@ || arch == "aarch64"@
}

/// Checks the host's operating system, then its CPU architecture.
pub fn check_platform(os: &str, arch: &str) -> (r: Result<(), PlatformError>)
    ensures
        r == if !supported_os(os@) {
            Err::<(), PlatformError>(PlatformError::UnsupportedOs)
        } else if !supported_arch(arch@) {
            Err::<(), PlatformError>(PlatformError::UnsupportedArch)
        } else {
            Ok::<(), PlatformError>(())
        },
{
    if !(str_eq(os, "windows") || str_eq(os, "macos") || str_eq(os, "linux")) {
        return Err(PlatformError::UnsupportedOs);
    }
    if !(str_eq(arch, "x86_64") || str_eq(arch, "aarch64")) {
        return Err(PlatformError::UnsupportedArch);
    }
    Ok(())
}

/// What to do with the output of `hclfmt -check`.
#[derive(Debug, Clone, Copy, PartialEq, Eq, Structural)]
pub enum HclfmtAction {
    /// `hclfmt` failed; report its exit code.
    Failed,
    /// The file is formatted already.
    Unchanged,
    /// Write the formatted contents over the file.
    Rewrite,
    /// Show the difference and fail.
    ShowDifference,
}

/// Decides what to do after running `hclfmt -check`: whether it succeeded,
/// whether its output is the file as it stands, and whether `--fix` was
/// given.
pub fn hclfmt_action(succeeded: bool, unchanged: bool, fix: bool) -> (r: HclfmtAction)
    ensures
        r == if !succeeded {
            HclfmtAction::Failed
        } else if unchanged {
            HclfmtAction::Unchanged
        } else if fix {
            HclfmtAction::Rewrite
        } else {
            HclfmtAction::ShowDifference
        },
{
    if !succeeded {
        HclfmtAction::Failed
    } else if unchanged {
        HclfmtAction::Unchanged
    } else if fix {
        HclfmtAction::Rewrite
    } else {
        HclfmtAction::ShowDifference
    }
}

/// The arguments of `hclfmt -check {path}`.
pub fn hclfmt_args(config_path: &str) -> (r: Vec<String>)
    ensures
        views(r@) == seq!["-check"@, config_path@],
{
    let mut v: Vec<String> = Vec::new();
    v.push(String::from_str("-check"));
    v.push(String::from_str(config_path));
    assert(views(v@) =~= seq!["-check"@, config_path@]);
    v
}

/// The arguments of `helm lint`, followed by the extra ones given.
pub fn helm_lint_args(extra: &Vec<String>) -> (r: Vec<String>)
    ensures
        views(r@) == seq!["lint"@] + views(extra@),
{
    let mut v: Vec<String> = Vec::new();
    v.push(String::from_str("lint"));
    let mut i: usize = 0;
    while i < extra.len()
        invariant
            i <= extra@.len(),
            views(v@) == seq!["lint"@] + views(extra@.subrange(0, i as int)),
        decreases extra@.len() - i,
    {
        let ghost before = v@;
        let item = extra[i].clone();
        v.push(item);
        assert(v@ == before.push(extra@[i as int]));
        assert(views(v@) =~= views(before).push(extra@[i as int]@));
        assert(views(extra@.subrange(0, i + 1)) =~= views(extra@.subrange(0, i as int)).push(extra@[i as int]@));
        i = i + 1;
        assert(views(v@) =~= seq!["lint"@] + views(extra@.subrange(0, i as int)));
    }
    assert(extra@.subrange(0, extra@.len() as int) =~= extra@);
    v
}

/// How a command line is echoed: `$ {program} {args joined by spaces}`.
pub open spec fn spec_command_line(program: Seq<char>, args: Seq<Seq<char>>) -> Seq<char> {
    "$ "@ + program + " "@ + joined(args, " "@)
}

/// Echoes a command line before it runs.
pub fn command_line(program: &str, args: &Vec<String>) -> (r: String)
    ensures
        r@ == spec_command_line(program@, views(args@)),
{
    let mut s = concat("$ ", program);
    s.append(" ");
    s.append(join(args, " ").as_str());
    s
}

/// The line-number column of a difference: the number left-aligned in
/// three characters, or three spaces where a side has no line.
pub open spec fn spec_line_cell(index: Option<u64>) -> Seq<char> {
    match index {
        Some(i) => pad_right(decimal(i as nat), 3),
        None => spaces(3),
    }
}

/// Renders the line-number column of a difference.
pub fn line_cell(index: Option<u64>) -> (r: String)
    ensures
        r@ == spec_line_cell(index),
{
    match index {
        Some(i) => pad_right_str(u64_to_decimal(i).as_str(), 3),
        None => {
            let s = pad_right_str("", 3);
            assert(""@ + spaces(3) =~= spaces(3)) by { reveal_strlit(""); }
            s
        },
    }
}

/// What `push` does with the repository argument.
#[derive(Debug, Clone, Copy, PartialEq, Eq, Structural)]
pub enum PushTarget {
    /// No repository is configured; nothing is pushed.
    NothingConfigured,
    /// Push the repository at this position of the configured list.
    Repository(usize),
    /// `.` with several repositories configured, which is not supported.
    MultipleUnsupported,
    /// No repository of that name is configured.
    Unknown,
}

/// Chooses the repository that `push` uploads: `.` names the only
/// configured repository, any other argument a repository by name.
pub fn push_target(repositories: &Vec<(String, RepositoryConfig)>, repo: &str) -> (r: PushTarget)
    ensures
        r == if repositories@.len() == 0 {
            PushTarget::NothingConfigured
        } else if repo@ == "."@ && repositories@.len() == 1 {
            PushTarget::Repository(0)
        } else if repo@ == "."@ {
            PushTarget::MultipleUnsupported
        } else {
            match key_position(repositories@, repo@) {
                Some(i) => PushTarget::Repository(i as usize),
                None => PushTarget::Unknown,
            }
        },
{
    if repositories.len() == 0 {
        return PushTarget::NothingConfigured;
    }
    let dot = str_eq(repo, ".");
    if dot && repositories.len() == 1 {
        return PushTarget::Repository(0);
    }
    if dot {
        return PushTarget::MultipleUnsupported;
    }
    match find_key(repositories, repo) {
        Some(i) => PushTarget::Repository(i),
        None => PushTarget::Unknown,
    }
}

/// The registry path of a repository: `repositories/{owner}/{name}`.
pub open spec fn repository_path(owner: Seq<char>, name: Seq<char>) -> Seq<char> {
    "repositories/"@ + owner + "/"@ + name
}

/// The registry path of a release: `repositories/{id}/releases/{version}`.
pub open spec fn release_path(id: int, version: Seq<char>) -> Seq<char> {
    "repositories/"@ + signed_decimal(id) + "/releases/"@ + version
}

/// The registry path that a release's chart is uploaded to.
pub open spec fn tarball_path(id: int, version: Seq<char>) -> Seq<char> {
    release_path(id, version) + "/tarball"@
}

/// The endpoint that a registry's liveness is checked on.
pub fn heartbeat_endpoint(registry: &RegistryConfig) -> (r: Result<String, url::ParseError>)
    ensures
        match r {
            Ok(s) => url_join(registry.url@, versioned_path(registry.version, "heartbeat"@)) == Some(s@),
            Err(_) => url_join(registry.url@, versioned_path(registry.version, "heartbeat"@)) is None,
        },
{
    registry.join_url("heartbeat")
}

/// The endpoint of a repository on a registry.
pub fn repository_endpoint(registry: &RegistryConfig, owner: &str, name: &str) -> (r: Result<String, url::ParseError>)
    ensures
        match r {
            Ok(s) => url_join(registry.url@, versioned_path(registry.version, repository_path(owner@, name@))) == Some(s@),
            Err(_) => url_join(registry.url@, versioned_path(registry.version, repository_path(owner@, name@))) is None,
        },
{
    let mut path = concat("repositories/", owner);
    path.append("/");
    path.append(name);
    registry.join_url(path.as_str())
}

/// The text of a release's path.
fn release_path_string(id: i64, version: &str) -> (r: String)
    ensures
        r@ == release_path(id as int, version@),
{
    let mut path = concat("repositories/", i64_to_decimal(id).as_str());
    path.append("/releases/");
    path.append(version);
    path
}

/// The endpoint of a release of a repository on a registry.
pub fn release_endpoint(registry: &RegistryConfig, id: i64, version: &str) -> (r: Result<String, url::ParseError>)
    ensures
        match r {
            Ok(s) => url_join(registry.url@, versioned_path(registry.version, release_path(id as int, version@))) == Some(s@),
            Err(_) => url_join(registry.url@, versioned_path(registry.version, release_path(id as int, version@))) is None,
        },
{
    let path = release_path_string(id, version);
    registry.join_url(path.as_str())
}

/// The endpoint that a release's chart is uploaded to.
pub fn tarball_endpoint(registry: &RegistryConfig, id: i64, version: &str) -> (r: Result<String, url::ParseError>)
    ensures
        match r {
            Ok(s) => url_join(registry.url@, versioned_path(registry.version, tarball_path(id as int, version@))) == Some(s@),
            Err(_) => url_join(registry.url@, versioned_path(registry.version, tarball_path(id as int, version@))) is None,
        },
{
    let mut path = release_path_string(id, version);
    path.append("/tarball");
    registry.join_url(path.as_str())
}

/// The file that `helm package` writes for a chart: `{name}-{version}.tgz`.
pub fn package_file_name(name: &str, version: &str) -> (r: String)
    ensures
        r@ == name@ + "-"@ + version@ + ".tgz"@,
{
    let mut s = concat(name, "-");
    s.append(version);
    s.append(".tgz");
    s
}

/// An HTTP status of the 2xx class.
pub open spec fn is_success(status: u16) -> bool {
    200 <= status <= 299
}

/// An HTTP status of the 4xx class.
pub open spec fn is_client_error(status: u16) -> bool {
    400 <= status <= 499
}

/// An HTTP status of the 5xx class.
pub open spec fn is_server_error(status: u16) -> bool {
    500 <= status <= 599
}

/// How `push` goes on after a registry answered.
#[derive(Debug, Clone, Copy, PartialEq, Eq, Structural)]
pub enum ResponseOutcome {
    /// Read the answer and go on.
    Proceed,
    /// The registry is not answering properly; stop with code 1.
    RegistryUnavailable,
    /// The registry refused the request; stop with code 1.
    ClientError,
    /// An answer that should never come, such as a redirect; stop with code 127.
    Unexpected,
}

impl ResponseOutcome {
    /// The code the plugin exits with, if it stops.
    pub open spec fn spec_exit_code(self) -> Option<i32> {
        match self {
            ResponseOutcome::Proceed => None,
            ResponseOutcome::RegistryUnavailable => Some(1),
            ResponseOutcome::ClientError => Some(1),
            ResponseOutcome::Unexpected => Some(127),
        }
    }

    /// The code the plugin exits with, if it stops.
    pub fn exit_code(&self) -> (r: Option<i32>)
        ensures
            r == self.spec_exit_code(),
    {
        match self {
            ResponseOutcome::Proceed => None,
            ResponseOutcome::RegistryUnavailable => Some(1),
            ResponseOutcome::ClientError => Some(1),
            ResponseOutcome::Unexpected => Some(127),
        }
    }
}

/// The answer to a heartbeat: only a success lets `push` go on.
pub fn heartbeat_outcome(status: u16) -> (r: ResponseOutcome)
    ensures
        r == if is_success(status) { ResponseOutcome::Proceed } else { ResponseOutcome::RegistryUnavailable },
{
    if 200 <= status && status <= 299 {
        ResponseOutcome::Proceed
    } else {
        ResponseOutcome::RegistryUnavailable
    }
}

/// The answer to the lookup of a repository.
pub fn repository_outcome(status: u16) -> (r: ResponseOutcome)
    ensures
        r == if is_success(status) {
            ResponseOutcome::Proceed
        } else if is_server_error(status) {
            ResponseOutcome::RegistryUnavailable
        } else if is_client_error(status) {
            ResponseOutcome::ClientError
        } else {
            ResponseOutcome::Unexpected
        },
{
    if 200 <= status && status <= 299 {
        ResponseOutcome::Proceed
    } else if 500 <= status && status <= 599 {
        ResponseOutcome::RegistryUnavailable
    } else if 400 <= status && status <= 499 {
        ResponseOutcome::ClientError
    } else {
        ResponseOutcome::Unexpected
    }
}

/// The answer to the lookup of a release: a `404` is read like a success,
/// since its body says whether the release is missing.
pub fn release_outcome(status: u16) -> (r: ResponseOutcome)
    ensures
        r == if is_success(status) || status == 404 {
            ResponseOutcome::Proceed
        } else if is_server_error(status) {
            ResponseOutcome::RegistryUnavailable
        } else if is_client_error(status) {
            ResponseOutcome::ClientError
        } else {
            ResponseOutcome::Unexpected
        },
{
    if (200 <= status && status <= 299) || status == 404 {
        ResponseOutcome::Proceed
    } else if 500 <= status && status <= 599 {
        ResponseOutcome::RegistryUnavailable
    } else if 400 <= status && status <= 499 {
        ResponseOutcome::ClientError
    } else {
        ResponseOutcome::Unexpected
    }
}

/// What the body of a release lookup says.
#[derive(Debug, Clone, Copy, PartialEq, Eq, Structural)]
pub enum ReleaseAnswer {
    /// The release exists.
    Available,
    /// The registry answered with exactly one error, `EntityNotFound`.
    Missing,
    /// The registry answered with other errors; stop with code 1.
    UnknownError,
    /// A success without data; an error.
    InvalidResponse,
}

/// Reads the body of a release lookup: its `success` flag, whether it
/// holds data, and the codes of its errors.
pub fn release_answer(success: bool, has_data: bool, errors: &Vec<ErrorCode>) -> (r: ReleaseAnswer)
    ensures
        r == if success && has_data {
            ReleaseAnswer::Available
        } else if !success {
            if errors@.len() == 1 && errors@[0] == ErrorCode::EntityNotFound {
                ReleaseAnswer::Missing
            } else {
                ReleaseAnswer::UnknownError
            }
        } else {
            ReleaseAnswer::InvalidResponse
        },
{
    if success && has_data {
        ReleaseAnswer::Available
    } else if !success {
        if errors.len() == 1 && errors[0] == ErrorCode::EntityNotFound {
            ReleaseAnswer::Missing
        } else {
            ReleaseAnswer::UnknownError
        }
    } else {
        ReleaseAnswer::InvalidResponse
    }
}

/// Whether `push` asks before uploading: when the release is not on the
/// registry yet, outside CI and without `--force`.
pub open spec fn spec_should_confirm(release_available: bool, in_ci: bool, force: bool) -> bool {
    !release_available && !in_ci && !force
}

/// Whether `push` asks before uploading.
pub fn should_confirm(release_available: bool, in_ci: bool, force: bool) -> (r: bool)
    ensures
        r == spec_should_confirm(release_available, in_ci, force),
{
    !release_available && !in_ci && !force
}

/// The answer to "Do you wish to push a new version?".
#[derive(Debug, Clone, Copy, PartialEq, Eq, Structural)]
pub enum Confirmation {
    Yes,
    No,
    /// There is no terminal to ask on.
    NoTerminal,
    /// Asking failed otherwise.
    Failed,
}

/// What `push` does before packaging the chart.
#[derive(Debug, Clone, Copy, PartialEq, Eq, Structural)]
pub enum PushStep {
    /// Package and upload the chart.
    Upload,
    /// Stop without uploading.
    Skip,
    /// Stop with the error of the prompt.
    Abort,
}

/// What `push` does with a chart version: a release that the registry
/// holds already is left alone; otherwise CI and `--force` upload without
/// asking, and the answer to the question decides, uploading when there is
/// no terminal to ask on.
pub open spec fn spec_push_step(release_available: bool, in_ci: bool, force: bool, answer: Confirmation) -> PushStep {
    if release_available {
        PushStep::Skip
    } else if !spec_should_confirm(release_available, in_ci, force) {
        PushStep::Upload
    } else {
        match answer {
            Confirmation::Yes => PushStep::Upload,
            Confirmation::No => PushStep::Skip,
            Confirmation::NoTerminal => PushStep::Upload,
            Confirmation::Failed => PushStep::Abort,
        }
    }
}

/// Decides whether `push` uploads, given whether the release is on the
/// registry, whether it runs in CI, `--force`, and the answer to the
/// question when it was asked. A release that the registry holds already
/// is left alone; otherwise CI and `--force` upload without asking, and
/// without a terminal to ask on it uploads.
pub fn push_step(release_available: bool, in_ci: bool, force: bool, answer: Confirmation) -> (r: PushStep)
    ensures
        r == spec_push_step(release_available, in_ci, force, answer),
{
    if release_available {
        return PushStep::Skip;
    }
    if !should_confirm(release_available, in_ci, force) {
        return PushStep::Upload;
    }
    match answer {
        Confirmation::Yes => PushStep::Upload,
        Confirmation::No => PushStep::Skip,
        Confirmation::NoTerminal => PushStep::Upload,
        Confirmation::Failed => PushStep::Abort,
    }
}

/// Why a `charted://` URI could not be resolved.
#[derive(Debug, Clone, Copy, PartialEq, Eq, Structural)]
pub enum DownloadError {
    /// The text is not a URL.
    InvalidUri,
    /// The scheme is not `charted`.
    NotChartedScheme,
    /// The host is an IP address, which cannot name a registry.
    IpHost,
    /// The URI has no host.
    NoHost,
    /// The URI has no path to take the repository from.
    NoPath,
    /// `https://{host}` is not a URL.
    InvalidRegistry,
    /// `charted://{owner}/` without the repository's name.
    MissingPathParam,
    /// `charted://{registry}/` without the owner.
    MissingFirstParam,
    /// `charted://{registry}/{owner}` without the repository's name.
    MissingSecondParam,
}

/// The owner and name of the repository that a URI with the domain
/// `domain` and the path segments `segments` names: with a dot in the
/// domain, the domain is a registry and the first two segments name the
/// repository; without one, the domain is the owner and the first segment
/// the name.
pub open spec fn spec_owner_and_repo(domain: Seq<char>, segments: Seq<Seq<char>>) -> Result<(Seq<char>, Seq<char>), DownloadError> {
    if !has_char(domain, '.') {
        if segments.len() >= 1 {
            Ok((domain, segments[0]))
        } else {
            Err(DownloadError::MissingPathParam)
        }
    } else if segments.len() == 0 {
        Err(DownloadError::MissingFirstParam)
    } else if segments.len() == 1 {
        Err(DownloadError::MissingSecondParam)
    } else {
        Ok((segments[0], segments[1]))
    }
}

/// Takes the repository's owner and name from a URI's domain and path
/// segments.
pub fn owner_and_repo(domain: &str, segments: &Vec<String>) -> (r: Result<(String, String), DownloadError>)
    ensures
        match r {
            Ok((o, n)) => spec_owner_and_repo(domain@, views(segments@)) == Ok::<(Seq<char>, Seq<char>), DownloadError>((o@, n@)),
            Err(e) => spec_owner_and_repo(domain@, views(segments@)) == Err::<(Seq<char>, Seq<char>), DownloadError>(e),
        },
{
    if !contains_char(domain, '.') {
        if segments.len() >= 1 {
            Ok((String::from_str(domain), segments[0].clone()))
        } else {
            Err(DownloadError::MissingPathParam)
        }
    } else if segments.len() == 0 {
        Err(DownloadError::MissingFirstParam)
    } else if segments.len() == 1 {
        Err(DownloadError::MissingSecondParam)
    } else {
        Ok((segments[0].clone(), segments[1].clone()))
    }
}

/// Where a download comes from: the registries to try and the repository.
pub struct DownloadPlan {
    /// The registries to try, in order.
    pub registries: Vec<String>,
    /// The owner of the repository.
    pub owner: String,
    /// The name of the repository.
    pub repo: String,
}

/// How a `charted://` URI resolves, given the registries of the chosen
/// context: the scheme must be `charted` and the host a domain; a domain
/// with a dot is the registry `https://{domain}`, any other domain leaves
/// the context's registries in place.
pub open spec fn spec_resolve_download(uri: Seq<char>, context_registries: Seq<Seq<char>>)
    -> Result<(Seq<Seq<char>>, Seq<char>, Seq<char>), DownloadError>
{
    match url_scheme(uri) {
        None => Err(DownloadError::InvalidUri),
        Some(scheme) => if scheme != "charted"@ {
            Err(DownloadError::NotChartedScheme)
        } else {
            match url_host(uri) {
                None => Err(DownloadError::InvalidUri),
                Some(None) => Err(DownloadError::NoHost),
                Some(Some((is_domain, domain))) => if !is_domain {
                    Err(DownloadError::IpHost)
                } else {
                    let registries = if has_char(domain, '.') {
                        match url_parse("https://"@ + domain) {
                            Some(u) => Ok(seq![u]),
                            None => Err(DownloadError::InvalidRegistry),
                        }
                    } else {
                        Ok(context_registries)
                    };
                    match registries {
                        Err(e) => Err(e),
                        Ok(regs) => match url_path_segments(uri) {
                            None => Err(DownloadError::InvalidUri),
                            Some(None) => Err(DownloadError::NoPath),
                            Some(Some(segments)) => match spec_owner_and_repo(domain, segments) {
                                Ok((owner, repo)) => Ok((regs, owner, repo)),
                                Err(e) => Err(e),
                            },
                        },
                    }
                },
            }
        },
    }
}

/// Resolves a `charted://` URI into the registries to try and the
/// repository to download.
pub fn resolve_download(uri: &str, context_registries: &Vec<String>) -> (r: Result<DownloadPlan, DownloadError>)
    ensures
        match r {
            Ok(p) => spec_resolve_download(uri@, views(context_registries@))
                == Ok::<(Seq<Seq<char>>, Seq<char>, Seq<char>), DownloadError>((views(p.registries@), p.owner@, p.repo@)),
            Err(e) => spec_resolve_download(uri@, views(context_registries@))
                == Err::<(Seq<Seq<char>>, Seq<char>, Seq<char>), DownloadError>(e),
        },
{
    let scheme = match scheme_of(uri) {
        Ok(s) => s,
        Err(_) => return Err(DownloadError::InvalidUri),
    };
    if !str_eq(scheme.as_str(), "charted") {
        return Err(DownloadError::NotChartedScheme);
    }
    let domain = match host_of(uri) {
        Err(_) => return Err(DownloadError::InvalidUri),
        Ok(None) => return Err(DownloadError::NoHost),
        Ok(Some((is_domain, h))) => {
            if !is_domain {
                return Err(DownloadError::IpHost);
            }
            h
        },
    };
    let registries: Vec<String> = if contains_char(domain.as_str(), '.') {
        let address = concat("https://", domain.as_str());
        match parse_url(address.as_str()) {
            Ok(u) => {
                let mut v: Vec<String> = Vec::new();
                v.push(u);
                assert(views(v@) =~= seq![v@[0]@]);
                v
            },
            Err(_) => return Err(DownloadError::InvalidRegistry),
        }
    } else {
        context_registries.clone()
    };
    let segments = match path_segments_of(uri) {
        Err(_) => return Err(DownloadError::InvalidUri),
        Ok(None) => return Err(DownloadError::NoPath),
        Ok(Some(s)) => s,
    };
    match owner_and_repo(domain.as_str(), &segments) {
        Ok((owner, repo)) => Ok(DownloadPlan { registries, owner, repo }),
        Err(e) => Err(e),
    }
}

/// The heartbeat address of a registry: its URL with `heartbeat` appended.
pub fn heartbeat_url(registry: &str) -> (r: String)
    ensures
        r@ == registry@ + "heartbeat"@,
{
    concat(registry, "heartbeat")
}

/// The registries whose heartbeat answered with a success, in order.
pub open spec fn spec_viable(registries: Seq<Seq<char>>, statuses: Seq<u16>) -> Seq<Seq<char>>
    decreases registries.len(),
{
    if registries.len() == 0 || statuses.len() == 0 {
        Seq::empty()
    } else {
        let rest = spec_viable(registries.drop_last(), statuses.drop_last());
        if is_success(statuses.last()) {
            rest.push(registries.last())
        } else {
            rest
        }
    }
}

/// Keeps the registries whose heartbeat answered with a success;
/// `statuses[i]` is the answer of `registries[i]`.
pub fn viable_registries(registries: &Vec<String>, statuses: &Vec<u16>) -> (r: Vec<String>)
    requires
        registries@.len() == statuses@.len(),
    ensures
        views(r@) == spec_viable(views(registries@), statuses@),
{
    let mut out: Vec<String> = Vec::new();
    let mut i: usize = 0;
    while i < registries.len()
        invariant
            registries@.len() == statuses@.len(),
            i <= registries@.len(),
            views(out@) == spec_viable(views(registries@.subrange(0, i as int)), statuses@.subrange(0, i as int)),
        decreases registries@.len() - i,
    {
        let ghost regs = views(registries@.subrange(0, i + 1));
        let ghost sts = statuses@.subrange(0, i + 1);
        assert(regs.drop_last() =~= views(registries@.subrange(0, i as int)));
        assert(sts.drop_last() =~= statuses@.subrange(0, i as int));
        assert(regs.last() == registries@[i as int]@);
        assert(sts.last() == statuses@[i as int]);
        let ghost before = out@;
        let status = statuses[i];
        if 200 <= status && status <= 299 {
            let item = registries[i].clone();
            out.push(item);
            assert(views(out@) =~= views(before).push(registries@[i as int]@));
        }
        i = i + 1;
    }
    assert(registries@.subrange(0, registries@.len() as int) =~= registries@);
    assert(statuses@.subrange(0, statuses@.len() as int) =~= statuses@);
    out
}

/// The server the API commands talk to when none is given.
pub const DEFAULT_SERVER_URL: &'static str = "https://charts.noelware.org";

/// The server to talk to: the given one, else the default server.
pub fn server_url(given: Option<&str>) -> (r: String)
    ensures
        r@ == match given {
            Some(u) => u@,
            None => DEFAULT_SERVER_URL@,
        },
{
    match given {
        Some(u) => String::from_str(u),
        None => String::from_str(DEFAULT_SERVER_URL),
    }
}

/// The line that a new `servers.yaml` starts with: `{server}: null`.
pub fn servers_file_line(server: &str) -> (r: String)
    ensures
        r@ == server@ + ": null"@,
{
    concat(server, ": null")
}

/// Why no keychain entry could be named for a server.
#[derive(Debug, Clone, Copy, PartialEq, Eq, Structural)]
pub enum KeychainError {
    /// The server URL does not parse.
    InvalidUrl,
    /// The server URL has no host.
    NoHost,
}

/// The keychain entry that holds a server's API key: `{host}:api:key`.
pub open spec fn spec_keychain_target(server: Seq<char>) -> Result<Seq<char>, KeychainError> {
    match url_host(server) {
        None => Err(KeychainError::InvalidUrl),
        Some(None) => Err(KeychainError::NoHost),
        Some(Some((_, host))) => Ok(host + ":api:key"@),
    }
}

/// Names the keychain entry that holds a server's API key.
pub fn keychain_target(server: &str) -> (r: Result<String, KeychainError>)
    ensures
        match r {
            Ok(t) => spec_keychain_target(server@) == Ok::<Seq<char>, KeychainError>(t@),
            Err(e) => spec_keychain_target(server@) == Err::<Seq<char>, KeychainError>(e),
        },
{
    match host_of(server) {
        Err(_) => Err(KeychainError::InvalidUrl),
        Ok(None) => Err(KeychainError::NoHost),
        Ok(Some((_, host))) => Ok(concat(host.as_str(), ":api:key")),
    }
}

/// The route of the API keys, or of one API key by name.
pub fn apikeys_route(name: Option<&str>) -> (r: String)
    ensures
        r@ == match name {
            Some(n) => "/apikeys/"@ + n@,
            None => "/apikeys"@,
        },
{
    match name {
        Some(n) => concat("/apikeys/", n),
        None => String::from_str("/apikeys"),
    }
}

/// The route of the user that the API key belongs to.
pub const ME_ROUTE: &'static str = "/users/@me";

/// The `Authorization` header value for an API key: `ApiKey {key}`.
pub fn api_key_authorization(key: &str) -> (r: String)
    ensures
        r@ == "ApiKey "@ + key@,
{
    concat("ApiKey ", key)
}

/// Where the `auth.yaml` file is, when it is not in its default place.
pub struct CommonAuthArgs {
    /// Location of an `auth.yaml` file.
    pub auth: Option<String>,
}

/// The command that prints the user that the API key belongs to.
pub struct Me;

/// The options of the version command.
pub struct Version {
    /// Whether the version is printed as JSON.
    pub json: bool,
}

/// The GitHub address that the JSON version output shows: the commit's page
/// when the commit hash is empty, else the repository's page.
pub open spec fn spec_github_url(commit: Seq<char>) -> Seq<char> {
    if commit.len() == 0 {
        "https://github.com/charted-dev/charted/commit/"@ + commit
    } else {
        "https://github.com/charted-dev/charted"@
    }
}

impl Version {
    /// The GitHub address of the JSON output.
    pub fn github_url(commit: &str) -> (r: String)
        ensures
            r@ == spec_github_url(commit@),
    {
        if commit.unicode_len() == 0 {
            concat("https://github.com/charted-dev/charted/commit/", commit)
        } else {
            String::from_str("https://github.com/charted-dev/charted")
        }
    }

    /// The line that links to the commit, printed when there is a commit hash.
    pub fn github_line(commit: &str) -> (r: Option<String>)
        ensures
            match r {
                Some(l) => commit@.len() > 0 && l@ == "\u{bb} GitHub: https://github.com/charted-dev/charted/commit/"@ + commit@,
                None => commit@.len() == 0,
            },
    {
        if commit.unicode_len() == 0 {
            None
        } else {
            Some(concat("\u{bb} GitHub: https://github.com/charted-dev/charted/commit/", commit))
        }
    }

    /// The first line of the text output: `charted-helm-plugin {version} ({date})`.
    pub fn headline(version: &str, date: &str) -> (r: String)
        ensures
            r@ == "charted-helm-plugin "@ + version@ + " ("@ + date@ + ")"@,
    {
        let mut s = concat("charted-helm-plugin ", version);
        s.append(" (");
        s.append(date);
        s.append(")");
        s
    }

    /// The platform line of the text output; on Linux it names the
    /// distribution too.
    pub fn platform_line(os_name: &str, arch: &str, distribution: &str, os_version: &str, rustc: &str) -> (r: String)
        ensures
            r@ == if os_name@ == "linux"@ {
                "\u{bb} "@ + os_name@ + "/"@ + arch@ + " on "@ + distribution@ + " "@ + os_version@
                    + " ~ compiled with Rust "@ + rustc@
            } else {
                "\u{bb} "@ + os_name@ + "/"@ + arch@ + " "@ + os_version@ + " ~ compiled with Rust "@ + rustc@
            },
    {
        let mut s = concat("\u{bb} ", os_name);
        s.append("/");
        s.append(arch);
        if str_eq(os_name, "linux") {
            s.append(" on ");
            s.append(distribution);
        }
        s.append(" ");
        s.append(os_version);
        s.append(" ~ compiled with Rust ");
        s.append(rustc);
        s
    }
}

/// `charted://{owner}/{name}`, with a host that has no dot, downloads from
/// the registries of the chosen context.
pub proof fn law_download_from_context(uri: Seq<char>, context_registries: Seq<Seq<char>>, owner: Seq<char>, segments: Seq<Seq<char>>)
    requires
        url_scheme(uri) == Some("charted"@),
        url_host(uri) == Some(Some((true, owner))),
        !has_char(owner, '.'),
        url_path_segments(uri) == Some(Some(segments)),
        segments.len() >= 1,
    ensures
        spec_resolve_download(uri, context_registries)
            == Ok::<(Seq<Seq<char>>, Seq<char>, Seq<char>), DownloadError>((context_registries, owner, segments[0])),
{
}

/// `charted://{registry}/{owner}/{name}`, with a host that has a dot,
/// downloads from `https://{registry}`.
pub proof fn law_download_from_named_registry(uri: Seq<char>, context_registries: Seq<Seq<char>>, registry: Seq<char>, address: Seq<char>, segments: Seq<Seq<char>>)
    requires
        url_scheme(uri) == Some("charted"@),
        url_host(uri) == Some(Some((true, registry))),
        has_char(registry, '.'),
        url_parse("https://"@ + registry) == Some(address),
        url_path_segments(uri) == Some(Some(segments)),
        segments.len() >= 2,
    ensures
        spec_resolve_download(uri, context_registries)
            == Ok::<(Seq<Seq<char>>, Seq<char>, Seq<char>), DownloadError>((seq![address], segments[0], segments[1])),
{
}

/// A URI whose scheme is not `charted` is refused, whatever else it holds.
pub proof fn law_download_needs_charted_scheme(uri: Seq<char>, context_registries: Seq<Seq<char>>, scheme: Seq<char>)
    requires
        url_scheme(uri) == Some(scheme),
        scheme != "charted"@,
    ensures
        spec_resolve_download(uri, context_registries)
            == Err::<(Seq<Seq<char>>, Seq<char>, Seq<char>), DownloadError>(DownloadError::NotChartedScheme),
{
}

/// A release that the registry holds already is never uploaded again,
/// whatever `--force`, CI or the answer say.
pub proof fn law_existing_release_is_left_alone(in_ci: bool, force: bool, answer: Confirmation)
    ensures
        spec_push_step(true, in_ci, force, answer) == PushStep::Skip,
        !spec_should_confirm(true, in_ci, force),
{
}

/// For a release that is not on the registry yet, `--force` or running in
/// CI uploads without asking.
pub proof fn law_force_or_ci_uploads(in_ci: bool, force: bool, answer: Confirmation)
    requires
        force || in_ci,
    ensures
        !spec_should_confirm(false, in_ci, force),
        spec_push_step(false, in_ci, force, answer) == PushStep::Upload,
{
}

/// What Helm prints for `--template '{{ .Version }}'`, `'v{version}'`, is
/// cleaned up into the version itself, for a version without quotes and
/// `v`s.
pub proof fn law_clean_quoted_version(version: Seq<char>)
    requires
        !has_char(version, '\''),
        !has_char(version, 'v'),
    ensures
        spec_clean_helm_version("'v"@ + version + "'"@) == version,
{
    reveal_strlit("'v");
    reveal_strlit("'");
    let s = "'v"@ + version + "'"@;
    assert(s[0] == '\'');
    assert(s.last() == '\'');
    assert(trimmed(s) == s) by {
        assert(!is_white_space(s[0]));
        assert(trim_start(s) == s);
        assert(!is_white_space(s.last()));
    }
    let rest = seq!['v'] + version + "'"@;
    assert(s.drop_first() =~= rest);
    assert(rest[0] == 'v');
    assert(rest.drop_first() =~= version + "'"@);
    lemma_without_first_prefix(version, "'"@, '\'', 1);
    assert(without_first("'"@, '\'', 1) =~= Seq::<char>::empty()) by {
        let q = "'"@;
        assert(q.len() == 1 && q[0] == '\'');
        assert(q.drop_first() =~= Seq::<char>::empty());
        assert(without_first(q.drop_first(), '\'', 0) =~= Seq::<char>::empty());
    }
    assert(version + Seq::<char>::empty() =~= version);
    let unquoted = seq!['v'] + version;
    assert(without_first(s, '\'', 2) == unquoted) by {
        assert(without_first(rest, '\'', 1) == seq![rest[0]] + without_first(rest.drop_first(), '\'', 1));
    }
    assert(unquoted.drop_first() =~= version);
    lemma_without_first_none(version, 'v');
}

} // verus!
