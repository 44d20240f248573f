use charted::auth::{
    auth_from_buffer, authorization_line, credential_source, parse_basic_credentials, parse_env_credentials,
    AddContextError, AddFromStdinError, Auth, Context, CredentialError, CredentialSource, DeleteContextError, EnvVarKind, Registry,
    Type, __default_context, type_name_accepted, DEFAULT_REGISTRY_URL,
};

fn registry(url: &str, auth: Type) -> Registry {
    Registry { auth, registry: url.to_string() }
}

#[test]
fn default_auth_file() {
    let auth = Auth::default_config();
    assert_eq!(auth.current().as_str(), "default");
    assert_eq!(auth.len(), 1);
    let reg = auth.get("default").unwrap();
    assert_eq!(reg.registry, DEFAULT_REGISTRY_URL);
    assert!(matches!(reg.auth, Type::NoAuth));
}

#[test]
fn default_context_name() {
    assert_eq!(__default_context().as_str(), "default");
    assert_eq!(Context::new("x").as_str(), "x");
}

#[test]
fn add_context_refuses_existing() {
    let mut auth = Auth::default_config();
    let r = auth.add_context(Context::new("default"), registry("https://other", Type::NoAuth));
    assert_eq!(r, Err(AddContextError::Exists));
    assert_eq!(auth.get("default").unwrap().registry, DEFAULT_REGISTRY_URL);
}

#[test]
fn add_then_delete_context() {
    let mut auth = Auth::default_config();
    auth.add_context(Context::new("work"), registry("https://work.example", Type::ApiKey("k".to_string())))
        .unwrap();
    assert!(auth.contains_key("work"));
    let deleted = auth.delete_context(Some("work")).unwrap();
    assert_eq!(deleted.as_str(), "work");
    assert!(!auth.contains_key("work"));
    assert_eq!(auth.len(), 1);
}

#[test]
fn delete_refuses_current_and_missing() {
    let mut auth = Auth::default_config();
    assert_eq!(auth.delete_context(None).unwrap_err(), DeleteContextError::IsCurrent);
    assert_eq!(auth.delete_context(Some("nope")).unwrap_err(), DeleteContextError::Missing);
}

#[test]
fn contexts_stay_in_name_order() {
    let mut auth = Auth::default_config();
    auth.insert(Context::new("zeta"), registry("https://z", Type::NoAuth));
    auth.insert(Context::new("alpha"), registry("https://a", Type::NoAuth));
    let names: Vec<String> = (0..auth.len()).map(|i| auth.entry(i).0.as_str().to_string()).collect();
    assert_eq!(names, vec!["alpha", "default", "zeta"]);
    auth.remove("default");
    assert_eq!(auth.len(), 2);
}

#[test]
fn insert_overwrites_registry() {
    let mut auth = Auth::default_config();
    auth.insert(Context::new("default"), registry("https://new", Type::NoAuth));
    assert_eq!(auth.get("default").unwrap().registry, "https://new");
    assert_eq!(auth.len(), 1);
}

#[test]
fn select_context_falls_back_to_current() {
    let mut auth = Auth::default_config();
    auth.insert(Context::new("work"), registry("https://w", Type::NoAuth));
    assert_eq!(auth.select_context(Some("work")).as_str(), "work");
    assert_eq!(auth.select_context(Some("missing")).as_str(), "default");
    assert_eq!(auth.select_context(None).as_str(), "default");
}

#[test]
fn set_current_switches_context() {
    let mut auth = Auth::default_config();
    auth.set_current(Context::new("work"));
    assert_eq!(auth.current().as_str(), "work");
}

#[test]
fn auth_for_registry_finds_first_context() {
    let mut auth = Auth::new(Context::new("a"));
    auth.insert(Context::new("b"), registry("https://r", Type::ApiKey("second".to_string())));
    auth.insert(Context::new("a"), registry("https://r", Type::ApiKey("first".to_string())));
    assert!(matches!(auth.auth_for_registry("https://r"), Type::ApiKey(k) if k == "first"));
    assert!(matches!(auth.auth_for_registry("https://elsewhere"), Type::NoAuth));
}

#[test]
fn type_names() {
    assert!(matches!(Type::from_name("none"), Type::NoAuth));
    assert!(matches!(Type::from_name(""), Type::NoAuth));
    assert!(matches!(Type::from_name("api-key"), Type::ApiKey(k) if k.is_empty()));
    assert!(matches!(Type::from_name("envvar"), Type::EnvironmentVariable { kind: EnvVarKind::Bearer, .. }));
    assert!(matches!(Type::from_name("basic"), Type::Basic { .. }));
    assert!(matches!(Type::from_name("session"), Type::Session { refresh: None, .. }));
    assert!(matches!(Type::default(), Type::NoAuth));
}

#[test]
fn type_descriptions() {
    assert_eq!(Type::ApiKey("x".to_string()).description(), "api key");
    assert_eq!(
        Type::EnvironmentVariable { kind: EnvVarKind::ApiKey, env: "TOKEN".to_string() }.description(),
        "environment variable $TOKEN"
    );
    assert_eq!(Type::NoAuth.description(), "none available");
    assert_eq!(Type::Basic { username: "u".to_string(), password: "p".to_string() }.description(), "basic authentication");
}

#[test]
fn env_var_kinds() {
    assert_eq!(EnvVarKind::parse("apikey"), Some(EnvVarKind::ApiKey));
    assert_eq!(EnvVarKind::parse("bearer"), Some(EnvVarKind::Bearer));
    assert_eq!(EnvVarKind::parse("Bearer"), None);
    assert_eq!(EnvVarKind::ApiKey.as_str(), "ApiKey");
    assert_eq!(EnvVarKind::default(), EnvVarKind::Bearer);
}

#[test]
fn basic_credentials() {
    assert_eq!(parse_basic_credentials("noel:pw"), Ok(("noel".to_string(), "pw".to_string())));
    assert_eq!(parse_basic_credentials("noel"), Err(CredentialError::MissingColon));
    assert_eq!(parse_basic_credentials("a:b:c"), Err(CredentialError::TooManyColons));
}

#[test]
fn env_credentials() {
    assert_eq!(parse_env_credentials("apikey:TOKEN"), Ok((EnvVarKind::ApiKey, "TOKEN".to_string())));
    assert_eq!(parse_env_credentials("other:TOKEN"), Err(CredentialError::UnknownKind));
    assert_eq!(parse_env_credentials("TOKEN"), Err(CredentialError::MissingColon));
    assert_eq!(parse_env_credentials("bearer:a:b"), Err(CredentialError::TooManyColons));
}

#[test]
fn credentials_from_stdin() {
    assert!(matches!(auth_from_buffer(&Type::ApiKey(String::new()), "key\n"), Ok(Type::ApiKey(k)) if k == "key\n"));
    assert!(matches!(
        auth_from_buffer(&Type::Session { refresh: None, access: String::new() }, "tok"),
        Ok(Type::Session { access, refresh: None }) if access == "tok"
    ));
    assert!(matches!(
        auth_from_buffer(&Type::Basic { username: String::new(), password: String::new() }, "u:p"),
        Ok(Type::Basic { username, password }) if username == "u" && password == "p"
    ));
    assert!(matches!(
        auth_from_buffer(&Type::EnvironmentVariable { kind: EnvVarKind::Bearer, env: String::new() }, "apikey:X"),
        Ok(Type::EnvironmentVariable { kind: EnvVarKind::ApiKey, env }) if env == "X"
    ));
    assert!(matches!(auth_from_buffer(&Type::Basic { username: String::new(), password: String::new() }, "up"),
        Err(CredentialError::MissingColon)));
    assert!(matches!(auth_from_buffer(&Type::NoAuth, "ignored"), Ok(Type::NoAuth)));
}

#[test]
fn credential_sources() {
    let key = Type::ApiKey(String::new());
    assert_eq!(credential_source(&Type::NoAuth, false, false), CredentialSource::Nothing);
    assert_eq!(credential_source(&key, true, false), CredentialSource::Prompt);
    assert_eq!(credential_source(&key, false, true), CredentialSource::Stdin);
    assert_eq!(credential_source(&key, false, false), CredentialSource::Refuse);
}

#[test]
fn authorization_lines() {
    assert_eq!(authorization_line(&Type::ApiKey("k".to_string()), None), Some("Authorization: ApiKey k".to_string()));
    assert_eq!(
        authorization_line(&Type::Session { refresh: None, access: "a".to_string() }, None),
        Some("Authorization: Bearer a".to_string())
    );
    let env = Type::EnvironmentVariable { kind: EnvVarKind::ApiKey, env: "T".to_string() };
    assert_eq!(authorization_line(&env, Some("v")), Some("Authorization: ApiKey v".to_string()));
    assert_eq!(authorization_line(&env, None), None);
    assert_eq!(authorization_line(&Type::NoAuth, None), None);
}

#[test]
fn context_list_rows() {
    let mut auth = Auth::default_config();
    auth.insert(Context::new("work"), registry("https://w", Type::ApiKey("k".to_string())));
    let rows = auth.context_rows();
    assert_eq!(rows.len(), 2);
    assert_eq!(rows[0].current, "*");
    assert_eq!(rows[0].context, "default");
    assert_eq!(rows[0].ty, "none available");
    assert_eq!(rows[1].current, "");
    assert_eq!(rows[1].registry, "https://w");
    assert_eq!(rows[1].ty, "api key");
}

#[test]
fn stdin_basic_credentials_are_stored() {
    let mut auth = Auth::default_config();
    let r = auth.add_context_from_buffer(Context::new("work"), "https://charts.example.com/".to_string(), &Type::Basic {
        username: String::new(),
        password: String::new(),
    }, "noel:hunter2");
    assert_eq!(r, Ok(()));
    let reg = auth.get("work").unwrap();
    assert_eq!(reg.registry, "https://charts.example.com/");
    match &reg.auth {
        Type::Basic { username, password } => {
            assert_eq!(username, "noel");
            assert_eq!(password, "hunter2");
        }
        _ => panic!("expected basic authentication"),
    }
    assert_eq!(auth.current().as_str(), "default");
    assert_eq!(auth.len(), 2);
}

#[test]
fn stdin_credentials_refused_or_existing() {
    let mut auth = Auth::default_config();
    let basic = Type::Basic { username: String::new(), password: String::new() };
    assert_eq!(
        auth.add_context_from_buffer(Context::new("x"), "u".to_string(), &basic, "no-colon"),
        Err(AddFromStdinError::Credentials(CredentialError::MissingColon))
    );
    assert_eq!(
        auth.add_context_from_buffer(Context::new("x"), "u".to_string(), &basic, "a:b:c"),
        Err(AddFromStdinError::Credentials(CredentialError::TooManyColons))
    );
    assert_eq!(
        auth.add_context_from_buffer(Context::new("default"), "u".to_string(), &Type::ApiKey(String::new()), "k"),
        Err(AddFromStdinError::Exists)
    );
    assert_eq!(auth.len(), 1);
    assert!(auth.add_context_from_buffer(Context::new("y"), "u".to_string(), &Type::ApiKey(String::new()), "key").is_ok());
    assert!(matches!(&auth.get("y").unwrap().auth, Type::ApiKey(k) if k == "key"));
}

#[test]
fn contexts_order_by_name() {
    let a = Context::new("alpha");
    let b = Context::new("beta");
    assert!(a.precedes(&b));
    assert!(!b.precedes(&a));
    assert!(!a.precedes(&Context::new("alpha")));
    assert!(Context::new("ab").precedes(&Context::new("abc")));
    assert!(Context::new("Z").precedes(&Context::new("a")));
}

#[test]
fn type_names_accepted() {
    for name in ["session", "env", "environment", "envvar", "apikey", "api-key", "basic", "none", ""] {
        assert!(type_name_accepted(name));
    }
    assert!(!type_name_accepted("Basic"));
    assert!(!type_name_accepted("token"));
}
