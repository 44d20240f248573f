use charted::api::Version;
use charted::config::{
    ChartedConfig, Reference, ReferenceOperator, RegistryConfig, RegistryTraversalVisitor, RepositoryPathError,
    VersionReq, registry_names_in, __default_registries, __default_registry, __true,
    format_repository_path, parse_repository_path, registry_variables, find_key,
};

#[test]
fn test_traversal() {
    let body = r#"body = 1
awau = registry.default
heccccc = true
"#;

    assert_eq!(registry_names_in(body), Some(vec![String::from("default")]));
}

#[test]
fn url_joins() {
    let registry = RegistryConfig::parse(Version::default(), "https://charts.noelware.org").expect("invalid url");

    assert_eq!(
        Ok(String::from("https://charts.noelware.org/v1/weow/fluff")),
        registry.join_url("weow/fluff")
    );
}

#[test]
fn traversal_of_other_variable_is_ignored() {
    let names = registry_names_in("a = other.default\nb = registry.first\nc = registry.second.third\nd = registry.first\n");
    assert_eq!(names, Some(vec!["first".to_string(), "second".to_string(), "third".to_string()]));
    assert_eq!(registry_names_in("a = {"), None);
}

#[test]
fn traversal_skips_index_operators() {
    let t = Reference {
        variable: Some("registry".to_string()),
        operators: vec![ReferenceOperator::Other, ReferenceOperator::GetAttr("x".to_string())],
    };
    let mut visitor = RegistryTraversalVisitor::new();
    visitor.visit_traversal(&t);
    assert_eq!(visitor.0, vec!["x".to_string()]);
}

#[test]
fn registry_variables_keep_first_occurrence() {
    let names = vec!["b".to_string(), "a".to_string(), "b".to_string(), "c".to_string(), "a".to_string()];
    assert_eq!(registry_variables(&names), vec!["b".to_string(), "a".to_string(), "c".to_string()]);
}

#[test]
fn registry_display_joins_version() {
    let registry = RegistryConfig::parse(Version::V1, "https://charts.noelware.org/api/").unwrap();
    assert_eq!(registry.to_string(), Ok("https://charts.noelware.org/api/v1".to_string()));
}

#[test]
fn registry_parse_rejects_relative_url() {
    assert!(RegistryConfig::parse(Version::V1, "not a url").is_err());
}

#[test]
fn default_registries_point_to_public_registry() {
    let regs = __default_registries().unwrap();
    assert_eq!(regs.len(), 1);
    assert_eq!(regs[0].0, "default");
    assert_eq!(regs[0].1.version, Version::V1);
    assert_eq!(regs[0].1.url, "https://charts.noelware.org/api");
}

#[test]
fn default_repository_settings() {
    assert!(__true());
    assert_eq!(__default_registry(), "default");
}

#[test]
fn default_charted_block() {
    let c = ChartedConfig::default_config().unwrap();
    assert_eq!(c.version.to_string(), ">=0.1.0");
    assert_eq!(c.helm.to_string(), ">=3.10");
    assert_eq!(c.version.matches("0.1.0"), Some(true));
    assert_eq!(c.helm.matches("3.9.0"), Some(false));
    assert_eq!(c.helm.matches("3.14.2"), Some(true));
    assert_eq!(c.helm.matches("three"), None);
}

#[test]
fn version_req_rejects_garbage() {
    assert!(VersionReq::parse("not a requirement!").is_err());
}

#[test]
fn repository_path_reads_owner_and_name() {
    assert_eq!(parse_repository_path("noel/charted"), Ok(("noel".to_string(), "charted".to_string())));
}

#[test]
fn repository_path_needs_slash() {
    assert_eq!(parse_repository_path("charted"), Err(RepositoryPathError::MissingSlash));
}

#[test]
fn repository_path_refuses_two_slashes() {
    assert_eq!(parse_repository_path("a/b/c"), Err(RepositoryPathError::MoreThanOneSlash));
}

#[test]
fn repository_path_roundtrip() {
    let text = format_repository_path("owner", "repo");
    assert_eq!(text, "owner/repo");
    assert_eq!(parse_repository_path(&text), Ok(("owner".to_string(), "repo".to_string())));
}

#[test]
fn find_key_finds_first_entry() {
    let entries = vec![("a".to_string(), 1), ("b".to_string(), 2), ("b".to_string(), 3)];
    assert_eq!(find_key(&entries, "b"), Some(1));
    assert_eq!(find_key(&entries, "z"), None);
}
