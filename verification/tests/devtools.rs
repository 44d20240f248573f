use charted::devtools::{
    add_member, bun_args, ci_command, cli_runs, command_outcome, compose_down_args, compose_logs_args,
    compose_up_args, crate_manifest, crate_name, failure_message, has_network, helm_plugin_cargo_args,
    helm_plugin_rustflags, manifest_target, manifests_file, module_build_file, module_manifest, pick_argument,
    search_backends_conflict, server_args, service_target, should_write, to_ascii_lowercase, updated_manifests, with_header, CiCommand,
    CommandOutcome, Pick, Server, CRATE_DESCRIPTION, LICENSE, TOML_LICENSE_HEADER,
};

fn strings(items: &[&str]) -> Vec<String> {
    items.iter().map(|s| s.to_string()).collect()
}

#[test]
fn command_outcomes() {
    assert_eq!(command_outcome(true, Some(0)), CommandOutcome::Output);
    assert_eq!(command_outcome(false, Some(2)), CommandOutcome::Empty);
    assert_eq!(command_outcome(false, Some(1)), CommandOutcome::Failed);
    assert_eq!(command_outcome(false, None), CommandOutcome::Failed);
}

#[test]
fn failure_reports() {
    assert_eq!(
        failure_message(Some(3), "", ""),
        "command ran has failed with exit code 3 but no stdout/stderr logs were captured, view above for more information."
    );
    assert_eq!(
        failure_message(None, "out", "err"),
        "\n-- command has failed --\n~! STDOUT !~\nout\n\n~! STDERR !~\nerr\n\nExited with code -1"
    );
}

#[test]
fn helm_plugin_build_arguments() {
    assert_eq!(
        helm_plugin_cargo_args(false, false, &strings(&["--offline"]), &strings(&["ignored"])),
        strings(&["build", "--locked", "--bin", "charted-helm-plugin", "--offline"])
    );
    assert_eq!(
        helm_plugin_cargo_args(true, true, &vec![], &strings(&["push", "."])),
        strings(&["run", "--locked", "--release", "--bin", "charted-helm-plugin", "--", "push", "."])
    );
    assert_eq!(helm_plugin_rustflags(None), "--cfg tokio_unstable");
    assert_eq!(helm_plugin_rustflags(Some("")), "--cfg tokio_unstable");
    assert_eq!(helm_plugin_rustflags(Some("-Dwarnings")), "--cfg tokio_unstable -Dwarnings");
}

#[test]
fn web_arguments() {
    assert_eq!(bun_args(true, true), strings(&["run", "preview", "--", "--clearScreen=false"]));
    assert_eq!(bun_args(true, false), strings(&["run", "build", "--", "--clearScreen=false"]));
    assert_eq!(bun_args(false, true), strings(&["run", "dev", "--", "--clearScreen=false"]));
    assert_eq!(bun_args(false, false), strings(&["run", "dev", "--", "--clearScreen=false"]));
}

#[test]
fn docker_arguments() {
    assert_eq!(
        compose_down_args("p.yml", true, true),
        strings(&["compose", "-f", "p.yml", "down", "--remove-orphans", "-v"])
    );
    assert_eq!(compose_down_args("p.yml", false, false), strings(&["compose", "-f", "p.yml", "down"]));
    assert_eq!(compose_logs_args("p.yml"), strings(&["compose", "-f", "p.yml", "logs"]));
    assert_eq!(
        compose_up_args("p.yml", true, false),
        strings(&["compose", "-f", "p.yml", "up", "-d", "--wait", "--profile", "elasticsearch"])
    );
    assert_eq!(
        compose_up_args("p.yml", false, true),
        strings(&["compose", "-f", "p.yml", "up", "-d", "--wait", "--profile", "meilisearch"])
    );
}

#[test]
fn docker_decisions() {
    assert!(should_write(false, false));
    assert!(should_write(true, true));
    assert!(!should_write(true, false));
    assert!(search_backends_conflict(true, true));
    assert!(!search_backends_conflict(true, false));
    let names = vec![None, Some("bridge".to_string()), Some("fluff".to_string())];
    assert!(has_network(&names, "fluff"));
    assert!(!has_network(&names, "host"));
}

#[test]
fn server_arguments() {
    assert_eq!(server_args(Some("c.yml"), &strings(&["x"]), true), strings(&["server", "--config", "c.yml", "--print-config"]));
    assert_eq!(
        server_args(None, &strings(&["w/config.yml", "w/config/charted.yaml"]), false),
        strings(&["server", "--config", "w/config.yml", "--config", "w/config/charted.yaml"])
    );
    assert_eq!(server_args(None, &vec![], false), strings(&["server"]));
    let s = Server { print_config: true, config: None, release: false, bazelrc: vec![], bazel: None };
    assert_eq!(s.arguments(&vec![]), strings(&["server", "--print-config"]));
}

#[test]
fn cli_and_services() {
    assert!(cli_runs(1, false));
    assert!(cli_runs(0, true));
    assert!(!cli_runs(0, false));
    assert_eq!(service_target(("//release", "//dev"), true), "//release");
    assert_eq!(service_target(("//release", "//dev"), false), "//dev");
}

#[test]
fn generator_arguments() {
    assert!(matches!(pick_argument(Some("x".to_string()), false), Pick::Given(v) if v == "x"));
    assert!(matches!(pick_argument(None, true), Pick::Ask));
    assert!(matches!(pick_argument(None, false), Pick::Refuse));
    assert_eq!(crate_name("search indexer"), "charted-search-indexer");
    assert_eq!(crate_name("Foo_Bar"), "charted-foo-bar");
}

#[test]
fn workspace_members_stay_sorted() {
    assert_eq!(
        add_member(strings(&["crates/b", "crates/d"]), "crates/c"),
        strings(&["crates/b", "crates/c", "crates/d"])
    );
    assert_eq!(manifest_target("crates/c"), "//crates/c:Cargo.toml");
}

#[test]
fn manifests_file_contents() {
    let items = strings(&["//a:Cargo.toml", "//b:Cargo.toml"]);
    let file = manifests_file(&items).unwrap();
    assert!(file.starts_with(LICENSE));
    assert!(file.contains("# buildifier: disable=module-docstring\nCARGO_MANIFESTS = ["));
    assert!(file.contains("\"//a:Cargo.toml\""));
    assert!(file.ends_with("\n"));
}

#[test]
fn manifests_file_gains_a_member() {
    let contents = "# buildifier: disable=module-docstring\nCARGO_MANIFESTS = [\n    \"//b:Cargo.toml\",\n    \"//c:Cargo.toml\",\n]\n";
    let file = updated_manifests(contents, "//a:Cargo.toml").unwrap();
    let expected = manifests_file(&strings(&["//a:Cargo.toml", "//b:Cargo.toml", "//c:Cargo.toml"])).unwrap();
    assert_eq!(file, expected);
    assert_eq!(updated_manifests("OTHER = [\"x\"]\n", "//a:Cargo.toml"), None);
    assert_eq!(updated_manifests("CARGO_MANIFESTS = [1, 2]\n", "//a:Cargo.toml"), None);
    assert_eq!(updated_manifests("CARGO_MANIFESTS = [", "//a:Cargo.toml"), None);
}

#[test]
fn generated_files() {
    assert_eq!(with_header("# h", "body"), "# h\n\nbody");
    assert!(TOML_LICENSE_HEADER.contains("2022-2024"));
    assert!(LICENSE.contains("2022-2023"));
    let m = crate_manifest("charted-x");
    assert!(m.starts_with("[package]\nname = \"charted-x\"\ndescription = \""));
    assert!(m.contains(CRATE_DESCRIPTION));
    assert!(m.ends_with("rust-version.workspace = true\n"));
    let mm = module_manifest("x");
    assert!(mm.starts_with("[package]\nname = \"charted-x\""));
    assert!(mm.contains("version = \"0.0.0-devel.0\""));
    assert_eq!(
        module_build_file("x"),
        "load(\"//:build/rust.bzl\", \"rust_project\")\n\nexports_files([\"Cargo.toml\"])\n\nrust_project(\n    name = \"x\",\n)"
    );
}

#[test]
fn ci_commands() {
    assert_eq!(ci_command(Some("JsonSchema")), CiCommand::JsonSchema);
    assert_eq!(ci_command(Some("openapi")), CiCommand::OpenApi);
    assert_eq!(ci_command(Some("other")), CiCommand::Unknown);
    assert_eq!(ci_command(None), CiCommand::Missing);
    assert_eq!(to_ascii_lowercase("AbC-ü"), "abc-ü");
}
