use charted::api::{ErrorCode, Version as ApiVersion};
use charted::config::{RegistryConfig, RepositoryConfig, VersionReq};
use charted::plugin::{
    api_key_authorization, apikeys_route, clean_helm_version, client_user_agent, command_line, download_user_agent,
    heartbeat_endpoint, heartbeat_outcome, heartbeat_url, hclfmt_action, hclfmt_args, helm_lint_args, helm_satisfies,
    helm_version_args, keychain_target, line_cell, owner_and_repo, package_file_name, plugin_satisfies, push_step,
    push_target, release_answer, release_endpoint, release_outcome, repository_endpoint, repository_outcome,
    resolve_download, server_url, servers_file_line, should_confirm, tarball_endpoint, user_agent, version,
    viable_registries, Confirmation, DownloadError, HclfmtAction, KeychainError, PushStep, PushTarget, ReleaseAnswer,
    ResponseOutcome, Version, DEFAULT_SERVER_URL, ME_ROUTE,
};
use charted::plugin::{check_platform, PlatformError};
use charted::web::WebUI;

fn repo(name: &str) -> (String, RepositoryConfig) {
    (
        name.to_string(),
        RepositoryConfig {
            publish: true,
            registry: "default".to_string(),
            path: ("noel".to_string(), name.to_string()),
            source: ".".to_string(),
            readme: None,
        },
    )
}

fn public_registry() -> RegistryConfig {
    RegistryConfig::parse(ApiVersion::V1, "https://charts.noelware.org/api/").unwrap()
}

#[test]
fn plugin_version_and_agents() {
    assert_eq!(version(), "v0.1.0+aa15e981");
    assert_eq!(
        user_agent(),
        "Noelware/charted-helm-plugin (+v0.1.0+aa15e981; https://github.com/charted-dev/charted/tree/main/tools/helm-plugin)"
    );
    assert_eq!(
        download_user_agent(),
        "Noelware/charted-helm-plugin (+https://github.com/charted-dev/charted/tree/main/tools/helm-plugin; v0.1.0+aa15e981)"
    );
    assert_eq!(client_user_agent(), "Noelware/charted-helm v0.1.0+aa15e981");
}

#[test]
fn helm_version_output_is_cleaned() {
    assert_eq!(clean_helm_version("'v3.14.2'\n"), "3.14.2");
    assert_eq!(clean_helm_version("  v3.10.0  "), "3.10.0");
    assert_eq!(clean_helm_version("3.1.0"), "3.1.0");
    assert_eq!(
        helm_version_args(),
        vec!["version".to_string(), "--template".to_string(), "'{{ .Version }}'".to_string()]
    );
}

#[test]
fn version_requirements() {
    let helm = VersionReq::parse(">=3.10").unwrap();
    assert_eq!(helm_satisfies(&helm, "'v3.14.2'"), Some(true));
    assert_eq!(helm_satisfies(&helm, "'v3.9.0'"), Some(false));
    assert_eq!(helm_satisfies(&helm, "garbage"), None);
    let plugin = VersionReq::parse(">=0.1.0").unwrap();
    assert_eq!(plugin_satisfies(&plugin), Some(true));
    let future = VersionReq::parse(">=9.0.0").unwrap();
    assert_eq!(plugin_satisfies(&future), Some(false));
}

#[test]
fn hclfmt_decisions() {
    assert_eq!(hclfmt_action(false, true, true), HclfmtAction::Failed);
    assert_eq!(hclfmt_action(true, true, true), HclfmtAction::Unchanged);
    assert_eq!(hclfmt_action(true, false, true), HclfmtAction::Rewrite);
    assert_eq!(hclfmt_action(true, false, false), HclfmtAction::ShowDifference);
    assert_eq!(hclfmt_args(".charted.hcl"), vec!["-check".to_string(), ".charted.hcl".to_string()]);
}

#[test]
fn lint_command_line() {
    let extra = vec!["--strict".to_string(), "chart".to_string()];
    let args = helm_lint_args(&extra);
    assert_eq!(args, vec!["lint".to_string(), "--strict".to_string(), "chart".to_string()]);
    assert_eq!(command_line("/usr/bin/helm", &args), "$ /usr/bin/helm lint --strict chart");
}

#[test]
fn difference_line_numbers() {
    assert_eq!(line_cell(Some(7)), format!("{:<3}", 7));
    assert_eq!(line_cell(Some(1234)), "1234");
    assert_eq!(line_cell(None), "   ");
}

#[test]
fn push_targets() {
    let none: Vec<(String, RepositoryConfig)> = Vec::new();
    assert_eq!(push_target(&none, "."), PushTarget::NothingConfigured);
    let one = vec![repo("charted")];
    assert_eq!(push_target(&one, "."), PushTarget::Repository(0));
    let two = vec![repo("a"), repo("b")];
    assert_eq!(push_target(&two, "."), PushTarget::MultipleUnsupported);
    assert_eq!(push_target(&two, "b"), PushTarget::Repository(1));
    assert_eq!(push_target(&two, "c"), PushTarget::Unknown);
}

#[test]
fn registry_endpoints() {
    let r = public_registry();
    assert_eq!(heartbeat_endpoint(&r), Ok("https://charts.noelware.org/api/v1/heartbeat".to_string()));
    assert_eq!(
        repository_endpoint(&r, "noel", "charted"),
        Ok("https://charts.noelware.org/api/v1/repositories/noel/charted".to_string())
    );
    assert_eq!(
        release_endpoint(&r, 42, "1.2.3"),
        Ok("https://charts.noelware.org/api/v1/repositories/42/releases/1.2.3".to_string())
    );
    assert_eq!(
        tarball_endpoint(&r, -1, "0.1.0"),
        Ok("https://charts.noelware.org/api/v1/repositories/-1/releases/0.1.0/tarball".to_string())
    );
    assert_eq!(package_file_name("charted", "0.1.0"), "charted-0.1.0.tgz");
}

#[test]
fn registry_answers() {
    assert_eq!(heartbeat_outcome(200), ResponseOutcome::Proceed);
    assert_eq!(heartbeat_outcome(503), ResponseOutcome::RegistryUnavailable);
    assert_eq!(repository_outcome(204), ResponseOutcome::Proceed);
    assert_eq!(repository_outcome(500), ResponseOutcome::RegistryUnavailable);
    assert_eq!(repository_outcome(404), ResponseOutcome::ClientError);
    assert_eq!(repository_outcome(301), ResponseOutcome::Unexpected);
    assert_eq!(release_outcome(404), ResponseOutcome::Proceed);
    assert_eq!(release_outcome(403), ResponseOutcome::ClientError);
    assert_eq!(release_outcome(302), ResponseOutcome::Unexpected);
    assert_eq!(ResponseOutcome::Unexpected.exit_code(), Some(127));
    assert_eq!(ResponseOutcome::ClientError.exit_code(), Some(1));
    assert_eq!(ResponseOutcome::Proceed.exit_code(), None);
}

#[test]
fn release_bodies() {
    assert_eq!(release_answer(true, true, &vec![]), ReleaseAnswer::Available);
    assert_eq!(release_answer(false, false, &vec![ErrorCode::EntityNotFound]), ReleaseAnswer::Missing);
    assert_eq!(
        release_answer(false, false, &vec![ErrorCode::EntityNotFound, ErrorCode::EntityNotFound]),
        ReleaseAnswer::UnknownError
    );
    assert_eq!(release_answer(false, false, &vec![ErrorCode::InternalServerError]), ReleaseAnswer::UnknownError);
    assert_eq!(release_answer(true, false, &vec![]), ReleaseAnswer::InvalidResponse);
}

#[test]
fn confirmation_decisions() {
    assert!(should_confirm(false, false, false));
    assert!(!should_confirm(true, false, false));
    assert!(!should_confirm(false, true, false));
    assert!(!should_confirm(false, false, true));
    assert_eq!(push_step(false, false, false, Confirmation::No), PushStep::Skip);
    assert_eq!(push_step(false, false, false, Confirmation::Yes), PushStep::Upload);
    assert_eq!(push_step(false, false, false, Confirmation::NoTerminal), PushStep::Upload);
    assert_eq!(push_step(false, false, false, Confirmation::Failed), PushStep::Abort);
    assert_eq!(push_step(false, false, true, Confirmation::No), PushStep::Upload);
    assert_eq!(push_step(false, true, false, Confirmation::Failed), PushStep::Upload);
    assert_eq!(push_step(true, false, false, Confirmation::Yes), PushStep::Skip);
    assert_eq!(push_step(true, true, false, Confirmation::Yes), PushStep::Skip);
    assert_eq!(push_step(true, false, true, Confirmation::Yes), PushStep::Skip);
}

#[test]
fn download_from_context_registry() {
    let ctx = vec!["https://charts.noelware.org/api/".to_string()];
    let plan = resolve_download("charted://charted/server", &ctx).unwrap();
    assert_eq!(plan.registries, ctx);
    assert_eq!(plan.owner, "charted");
    assert_eq!(plan.repo, "server");
}

#[test]
fn download_from_named_registry() {
    let plan = resolve_download("charted://some.registry/charted/server", &vec![]).unwrap();
    assert_eq!(plan.registries, vec!["https://some.registry/".to_string()]);
    assert_eq!(plan.owner, "charted");
    assert_eq!(plan.repo, "server");
}

#[test]
fn download_errors() {
    let ctx: Vec<String> = vec![];
    assert_eq!(resolve_download("https://charts/a/b", &ctx).err(), Some(DownloadError::NotChartedScheme));
    assert_eq!(resolve_download("charted://[::1]/a/b", &ctx).err(), Some(DownloadError::IpHost));
    assert_eq!(resolve_download("charted:nothing", &ctx).err(), Some(DownloadError::NoHost));
    assert_eq!(resolve_download("not a uri", &ctx).err(), Some(DownloadError::InvalidUri));
    assert_eq!(resolve_download("charted://a.b/owner", &ctx).err(), Some(DownloadError::MissingSecondParam));
    assert_eq!(resolve_download("charted://charted", &ctx).err(), Some(DownloadError::NoPath));
    assert_eq!(resolve_download("charted://a%20b.c/x/y", &ctx).err(), Some(DownloadError::InvalidRegistry));
    assert_eq!(owner_and_repo("owner", &vec![]), Err(DownloadError::MissingPathParam));
    assert_eq!(owner_and_repo("a.b", &vec![]), Err(DownloadError::MissingFirstParam));
}

#[test]
fn viable_registry_filter() {
    let regs = vec!["https://a/".to_string(), "https://b/".to_string(), "https://c/".to_string()];
    assert_eq!(viable_registries(&regs, &vec![200, 500, 204]), vec!["https://a/".to_string(), "https://c/".to_string()]);
    assert_eq!(heartbeat_url("https://a/"), "https://a/heartbeat");
}

#[test]
fn settings_helpers() {
    assert_eq!(server_url(None), DEFAULT_SERVER_URL);
    assert_eq!(server_url(Some("https://x")), "https://x");
    assert_eq!(servers_file_line("https://x"), "https://x: null");
    assert_eq!(keychain_target("https://charts.noelware.org"), Ok("charts.noelware.org:api:key".to_string()));
    assert_eq!(keychain_target("not a url"), Err(KeychainError::InvalidUrl));
    assert_eq!(keychain_target("mailto:me@example.com"), Err(KeychainError::NoHost));
    assert_eq!(apikeys_route(Some("ci")), "/apikeys/ci");
    assert_eq!(apikeys_route(None), "/apikeys");
    assert_eq!(api_key_authorization("abc"), "ApiKey abc");
    assert_eq!(ME_ROUTE, "/users/@me");
}

#[test]
fn version_command_lines() {
    assert_eq!(Version::github_url(""), "https://github.com/charted-dev/charted/commit/");
    assert_eq!(Version::github_url("abc"), "https://github.com/charted-dev/charted");
    assert_eq!(Version::github_line("abc"), Some("» GitHub: https://github.com/charted-dev/charted/commit/abc".to_string()));
    assert_eq!(Version::github_line(""), None);
    assert_eq!(Version::headline("v0.1.0", "today"), "charted-helm-plugin v0.1.0 (today)");
    assert_eq!(
        Version::platform_line("linux", "x86_64", "Arch", "rolling", "1.80"),
        "» linux/x86_64 on Arch rolling ~ compiled with Rust 1.80"
    );
    assert_eq!(
        Version::platform_line("macos", "aarch64", "Darwin", "14", "1.80"),
        "» macos/aarch64 14 ~ compiled with Rust 1.80"
    );
}

#[test]
fn web_ui_is_not_shipped() {
    assert!(!WebUI::enabled());
}

#[test]
fn supported_platforms() {
    assert_eq!(check_platform("linux", "x86_64"), Ok(()));
    assert_eq!(check_platform("macos", "aarch64"), Ok(()));
    assert_eq!(check_platform("freebsd", "x86_64"), Err(PlatformError::UnsupportedOs));
    assert_eq!(check_platform("windows", "riscv64"), Err(PlatformError::UnsupportedArch));
}
