//! The `auth.yaml` model: authentication types, contexts and the registry
//! that each context points to, kept in the order of their names.

use vstd::prelude::*;
use crate::devtools::ascii_lowercase;
use crate::text::{
    concat, contains_char, has_char, lemma_seq_lt_irreflexive, lemma_seq_lt_transitive,
    lemma_seq_lt_trichotomy, seq_lt, split_once, split_once_char, str_eq, str_lt,
};

verus! {

/// How an environment variable authenticates.
#[derive(Debug, Clone, Copy, PartialEq, Eq, Structural)]
pub enum EnvVarKind {
    /// A bearer token.
    Bearer,
    /// An API key.
    ApiKey,
}

impl Default for EnvVarKind {
    fn default() -> (r: EnvVarKind)
        ensures
            r == EnvVarKind::Bearer,
    {
        EnvVarKind::Bearer
    }
}

impl EnvVarKind {
    /// The name of the kind as it is displayed in an `Authorization` header.
    pub open spec fn spec_str(self) -> Seq<char> {
        match self {
            EnvVarKind::ApiKey => "ApiKey"@,
            EnvVarKind::Bearer => "Bearer"@,
        }
    }

    /// Returns the name of the kind as `Display` writes it.
    pub fn as_str(&self) -> (r: &'static str)
        ensures
            r@ == self.spec_str(),
    {
        match self {
            EnvVarKind::ApiKey => "ApiKey",
            EnvVarKind::Bearer => "Bearer",
        }
    }

    /// The kind that a lowercase name (`apikey` or `bearer`) stands for.
    pub open spec fn spec_parse(s: Seq<char>) -> Option<EnvVarKind> {
        if s == "apikey"@ {
            Some(EnvVarKind::ApiKey)
        } else if s == "bearer"@ {
            Some(EnvVarKind::Bearer)
        } else {
            None
        }
    }

    /// Parses `apikey` or `bearer`; anything else is refused.
    pub fn parse(s: &str) -> (r: Option<EnvVarKind>)
        ensures
            r == Self::spec_parse(s@),
    {
        if str_eq(s, "apikey") {
            Some(EnvVarKind::ApiKey)
        } else if str_eq(s, "bearer") {
            Some(EnvVarKind::Bearer)
        } else {
            None
        }
    }
}

/// The authentication type used towards a charted-server instance.
#[derive(Debug)]
pub enum Type {
    /// A session token (and refresh token).
    Session { refresh: Option<String>, access: String },
    /// An environment variable that holds an API key or a bearer token.
    EnvironmentVariable { kind: EnvVarKind, env: String },
    /// A created API key.
    ApiKey(String),
    /// Basic authentication.
    Basic { username: String, password: String },
    /// No prior authentication (`none`).
    NoAuth,
}

impl Default for Type {
    fn default() -> (r: Type)
        ensures
            r is NoAuth,
    {
        Type::NoAuth
    }
}

impl Clone for Type {
    fn clone(&self) -> (r: Type)
        ensures
            r == *self,
    {
        match self {
            Type::Session { refresh, access } => Type::Session {
                refresh: match refresh {
                    Some(x) => Some(x.clone()),
                    None => None,
                },
                access: access.clone(),
            },
            Type::EnvironmentVariable { kind, env } => Type::EnvironmentVariable { kind: *kind, env: env.clone() },
            Type::ApiKey(k) => Type::ApiKey(k.clone()),
            Type::Basic { username, password } => Type::Basic {
                username: username.clone(),
                password: password.clone(),
            },
            Type::NoAuth => Type::NoAuth,
        }
    }
}

/// The names that [`Type::from_name`] accepts.
pub open spec fn is_type_name(s: Seq<char>) -> bool {
    s == "session"@ || s == "env"@ || s == "environment"@ || s == "envvar"@ || s == "apikey"@
        || s == "api-key"@ || s == "basic"@ || s == "none"@ || s == ""@
}

/// Whether `s` names an authentication type: decides `is_type_name`.
pub fn type_name_accepted(s: &str) -> (r: bool)
    ensures
        r == is_type_name(s@),
{
    str_eq(s, "session") || str_eq(s, "env") || str_eq(s, "environment") || str_eq(s, "envvar")
        || str_eq(s, "apikey") || str_eq(s, "api-key") || str_eq(s, "basic") || str_eq(s, "none")
        || str_eq(s, "")
}

impl Type {
    /// Creates an empty authentication type from its command-line name:
    /// `session`, `env`/`environment`/`envvar`, `apikey`/`api-key`, `basic`,
    /// or `none`/the empty string.
    pub fn from_name(s: &str) -> (r: Type)
        requires
            is_type_name(s@),
        ensures
            s@ == "session"@ ==> (r matches Type::Session { refresh: None, access } && access@.len() == 0),
            (s@ == "env"@ || s@ == "environment"@ || s@ == "envvar"@) ==> (r matches Type::EnvironmentVariable { kind: EnvVarKind::Bearer, env } && env@.len() == 0),
            (s@ == "apikey"@ || s@ == "api-key"@) ==> (r matches Type::ApiKey(k) && k@.len() == 0),
            s@ == "basic"@ ==> (r matches Type::Basic { username, password } && username@.len() == 0 && password@.len() == 0),
            (s@ == "none"@ || s@ == ""@) ==> r is NoAuth,
    {
        proof {
            reveal_strlit("session");
            reveal_strlit("env");
            reveal_strlit("environment");
            reveal_strlit("envvar");
            reveal_strlit("apikey");
            reveal_strlit("api-key");
            reveal_strlit("basic");
            reveal_strlit("none");
            reveal_strlit("");
            assert("session"@.len() == 7 && "session"@[0] == 's');
            assert("env"@.len() == 3);
            assert("environment"@.len() == 11);
            assert("envvar"@.len() == 6 && "envvar"@[0] == 'e');
            assert("apikey"@.len() == 6 && "apikey"@[0] == 'a');
            assert("api-key"@.len() == 7 && "api-key"@[0] == 'a');
            assert("basic"@.len() == 5);
            assert("none"@.len() == 4);
        }
        if str_eq(s, "session") {
            Type::Session { refresh: None, access: String::new() }
        } else if str_eq(s, "env") || str_eq(s, "environment") || str_eq(s, "envvar") {
            Type::EnvironmentVariable { env: String::new(), kind: EnvVarKind::default() }
        } else if str_eq(s, "apikey") || str_eq(s, "api-key") {
            Type::ApiKey(String::new())
        } else if str_eq(s, "basic") {
            Type::Basic { username: String::new(), password: String::new() }
        } else {
            Type::NoAuth
        }
    }

    /// A description of the type as the context list shows it.
    pub open spec fn spec_description(self) -> Seq<char> {
        match self {
            Type::EnvironmentVariable { env, .. } => "environment variable $"@ + env@,
            Type::Session { .. } => "session token"@,
            Type::ApiKey(_) => "api key"@,
            Type::Basic { .. } => "basic authentication"@,
            Type::NoAuth => "none available"@,
        }
    }

    /// Describes the type for the context list.
    pub fn description(&self) -> (r: String)
        ensures
            r@ == self.spec_description(),
    {
        match self {
            Type::EnvironmentVariable { env, .. } => concat("environment variable $", env.as_str()),
            Type::Session { .. } => String::from_str("session token"),
            Type::ApiKey(_) => String::from_str("api key"),
            Type::Basic { .. } => String::from_str("basic authentication"),
            Type::NoAuth => String::from_str("none available"),
        }
    }
}

/// Why a credential read from standard input was refused.
#[derive(Debug, Clone, Copy, PartialEq, Eq, Structural)]
pub enum CredentialError {
    /// There was no colon separating the two parts.
    MissingColon,
    /// There was more than one colon.
    TooManyColons,
    /// The kind of an environment variable was neither `apikey` nor `bearer`.
    UnknownKind,
}

/// Reads `username:password` for basic authentication.
pub fn parse_basic_credentials(buf: &str) -> (r: Result<(String, String), CredentialError>)
    ensures
        match split_once(buf@, ':') {
            None => r == Err::<(String, String), CredentialError>(CredentialError::MissingColon),
            Some((user, pass)) => if has_char(pass, ':') {
                r == Err::<(String, String), CredentialError>(CredentialError::TooManyColons)
            } else {
                r matches Ok((u, p)) && u@ == user && p@ == pass
            },
        },
{
    match split_once_char(buf, ':') {
        None => Err(CredentialError::MissingColon),
        Some((user, pass)) => {
            if contains_char(pass.as_str(), ':') {
                Err(CredentialError::TooManyColons)
            } else {
                Ok((user, pass))
            }
        },
    }
}

/// Reads `kind:name` for environment-variable authentication, where `kind`
/// is `apikey` or `bearer`.
pub fn parse_env_credentials(buf: &str) -> (r: Result<(EnvVarKind, String), CredentialError>)
    ensures
        match split_once(buf@, ':') {
            None => r == Err::<(EnvVarKind, String), CredentialError>(CredentialError::MissingColon),
            Some((kind, name)) => if has_char(name, ':') {
                r == Err::<(EnvVarKind, String), CredentialError>(CredentialError::TooManyColons)
            } else {
                match EnvVarKind::spec_parse(kind) {
                    Some(k) => r matches Ok((k2, n)) && k2 == k && n@ == name,
                    None => r == Err::<(EnvVarKind, String), CredentialError>(CredentialError::UnknownKind),
                }
            },
        },
{
    match split_once_char(buf, ':') {
        None => Err(CredentialError::MissingColon),
        Some((kind, name)) => {
            if contains_char(name.as_str(), ':') {
                Err(CredentialError::TooManyColons)
            } else {
                match EnvVarKind::parse(kind.as_str()) {
                    Some(k) => Ok((k, name)),
                    None => Err(CredentialError::UnknownKind),
                }
            }
        },
    }
}

/// Where the credentials of a new context come from.
#[derive(Debug, Clone, Copy, PartialEq, Eq, Structural)]
pub enum CredentialSource {
    /// Nothing is needed: the context has no authentication.
    Nothing,
    /// Read them from standard input.
    Stdin,
    /// Ask for them on the terminal.
    Prompt,
    /// There is no terminal and `--stdin` was not given; stop with code 1.
    Refuse,
}

/// Decides where the credentials of a new context come from: without a
/// terminal they are read from standard input, which `--stdin` must allow.
pub fn credential_source(ty: &Type, in_terminal: bool, stdin: bool) -> (r: CredentialSource)
    ensures
        r == if ty is NoAuth {
            CredentialSource::Nothing
        } else if in_terminal {
            CredentialSource::Prompt
        } else if stdin {
            CredentialSource::Stdin
        } else {
            CredentialSource::Refuse
        },
{
    match ty {
        Type::NoAuth => CredentialSource::Nothing,
        _ => if in_terminal {
            CredentialSource::Prompt
        } else if stdin {
            CredentialSource::Stdin
        } else {
            CredentialSource::Refuse
        },
    }
}

/// Whether `r` is what standard input text `buf` gives for a new context of
/// the kind `ty`: the whole text is the API key or the access token; basic
/// authentication reads `username:password` and an environment variable
/// `kind:name`.
pub open spec fn reads_credentials(ty: Type, buf: Seq<char>, r: Result<Type, CredentialError>) -> bool {
    match ty {
        Type::NoAuth => r == Ok::<Type, CredentialError>(Type::NoAuth),
        Type::ApiKey(_) => r matches Ok(Type::ApiKey(k)) && k@ == buf,
        Type::Session { .. } => r matches Ok(Type::Session { access, refresh: None }) && access@ == buf,
        Type::Basic { .. } => match split_once(buf, ':') {
            None => r == Err::<Type, CredentialError>(CredentialError::MissingColon),
            Some((user, pass)) => if has_char(pass, ':') {
                r == Err::<Type, CredentialError>(CredentialError::TooManyColons)
            } else {
                r matches Ok(Type::Basic { username, password }) && username@ == user && password@ == pass
            },
        },
        Type::EnvironmentVariable { .. } => match split_once(buf, ':') {
            None => r == Err::<Type, CredentialError>(CredentialError::MissingColon),
            Some((kind, name)) => if has_char(name, ':') {
                r == Err::<Type, CredentialError>(CredentialError::TooManyColons)
            } else {
                match EnvVarKind::spec_parse(kind) {
                    Some(k) => r matches Ok(Type::EnvironmentVariable { kind: k2, env }) && k2 == k && env@ == name,
                    None => r == Err::<Type, CredentialError>(CredentialError::UnknownKind),
                }
            },
        },
    }
}

/// The authentication of a new context of the kind `ty`, read from the
/// text `buf` given on standard input.
pub fn auth_from_buffer(ty: &Type, buf: &str) -> (r: Result<Type, CredentialError>)
    ensures
        reads_credentials(*ty, buf@, r),
{
    match ty {
        Type::NoAuth => Ok(Type::NoAuth),
        Type::ApiKey(_) => Ok(Type::ApiKey(String::from_str(buf))),
        Type::Session { .. } => Ok(Type::Session { access: String::from_str(buf), refresh: None }),
        Type::Basic { .. } => match parse_basic_credentials(buf) {
            Ok((username, password)) => Ok(Type::Basic { username, password }),
            Err(e) => Err(e),
        },
        Type::EnvironmentVariable { .. } => match parse_env_credentials(buf) {
            Ok((kind, env)) => Ok(Type::EnvironmentVariable { kind, env }),
            Err(e) => Err(e),
        },
    }
}

/// Deleting a context right after adding it gives back the contexts there
/// were before: a context that was added is what a delete of its name
/// removes, and nothing else changes.
pub proof fn law_add_then_delete(contexts: Map<Seq<char>, (Seq<char>, Type)>, name: Seq<char>, registry: (Seq<char>, Type))
    requires
        !contexts.dom().contains(name),
    ensures
        contexts.insert(name, registry).remove(name) == contexts,
        contexts.insert(name, registry)[name] == registry,
{
    assert(contexts.insert(name, registry).remove(name) =~= contexts);
}

/// The name of an authentication context.
#[derive(Debug)]
pub struct Context(String);

impl View for Context {
    type V = Seq<char>;

    closed spec fn view(&self) -> Seq<char> {
        self.0@
    }
}

impl Clone for Context {
    fn clone(&self) -> (r: Context)
        ensures
            r@ == self@,
    {
        Context(self.0.clone())
    }
}

impl Context {
    /// Creates a new [`Context`] key.
    pub fn new(data: &str) -> (r: Context)
        ensures
            r@ == data@,
    {
        Context(String::from_str(data))
    }

    /// Returns the context name.
    pub fn as_str(&self) -> (r: &str)
        ensures
            r@ == self@,
    {
        self.0.as_str()
    }

    /// Whether two contexts have the same name.
    pub fn same(&self, other: &Context) -> (r: bool)
        ensures
            r == (self@ == other@),
    {
        str_eq(self.0.as_str(), other.0.as_str())
    }

    /// Whether this context comes before `other` in the order of contexts,
    /// the order of their names as strings.
    pub fn precedes(&self, other: &Context) -> (r: bool)
        ensures
            r == seq_lt(self@, other@),
    {
        str_lt(self.0.as_str(), other.0.as_str())
    }
}

/// Contexts compare by their names alone, as strings do: of two contexts
/// exactly one comes first unless their names are the same, no context
/// comes before itself, and the order is transitive.
pub proof fn law_context_order(a: Context, b: Context, c: Context)
    ensures
        seq_lt(a@, b@) || a@ == b@ || seq_lt(b@, a@),
        !(seq_lt(a@, b@) && seq_lt(b@, a@)),
        !seq_lt(a@, a@),
        seq_lt(a@, b@) && seq_lt(b@, c@) ==> seq_lt(a@, c@),
{
    lemma_seq_lt_trichotomy(a@, b@);
    lemma_seq_lt_irreflexive(a@);
    if seq_lt(a@, b@) && seq_lt(b@, c@) {
        lemma_seq_lt_transitive(a@, b@, c@);
    }
}

/// The name of the context that is used when none is configured.
pub fn __default_context() -> (r: Context)
    ensures
        r@ == "default"@,
{
    Context::new("default")
}

/// A registry that a context authenticates towards.
#[derive(Debug)]
pub struct Registry {
    /// How to authenticate.
    pub auth: Type,
    /// The URL of the registry, in its serialized form.
    pub registry: String,
}

impl Clone for Registry {
    fn clone(&self) -> (r: Registry)
        ensures
            r.auth == self.auth,
            r.registry@ == self.registry@,
    {
        Registry { auth: self.auth.clone(), registry: self.registry.clone() }
    }
}

/// The registry of the default context.
pub const DEFAULT_REGISTRY_URL: &'static str = "https://charts.noelware.org/api";

/// The view of a registry: its URL and its authentication type.
pub open spec fn registry_view(r: Registry) -> (Seq<char>, Type) {
    (r.registry@, r.auth)
}

/// An entry of the context table, by its views.
pub open spec fn entry_view(e: (Context, Registry)) -> (Seq<char>, (Seq<char>, Type)) {
    (e.0@, registry_view(e.1))
}

/// Keys of `s` strictly ascend.
pub open spec fn keys_ascending(s: Seq<(Seq<char>, (Seq<char>, Type))>) -> bool {
    forall|i: int, j: int| 0 <= i < j < s.len() ==> seq_lt(#[trigger] s[i].0, #[trigger] s[j].0)
}

/// `k` is a key of `s`.
pub open spec fn has_key(s: Seq<(Seq<char>, (Seq<char>, Type))>, k: Seq<char>) -> bool {
    exists|i: int| 0 <= i < s.len() && #[trigger] s[i].0 == k
}

/// A position of the key `k` in `s`, if it is a key.
pub open spec fn key_index(s: Seq<(Seq<char>, (Seq<char>, Type))>, k: Seq<char>) -> int {
    choose|i: int| 0 <= i < s.len() && #[trigger] s[i].0 == k
}

/// The map that a table of entries stands for.
pub open spec fn map_of(s: Seq<(Seq<char>, (Seq<char>, Type))>) -> Map<Seq<char>, (Seq<char>, Type)> {
    Map::new(|k: Seq<char>| has_key(s, k), |k: Seq<char>| s[key_index(s, k)].1)
}

/// In a table with ascending keys, the map sends each key to its entry.
pub proof fn lemma_map_of_at(s: Seq<(Seq<char>, (Seq<char>, Type))>, i: int)
    requires
        keys_ascending(s),
        0 <= i < s.len(),
    ensures
        map_of(s).dom().contains(s[i].0),
        map_of(s)[s[i].0] == s[i].1,
{
    let k = s[i].0;
    assert(has_key(s, k));
    let j = key_index(s, k);
    if j != i {
        if j < i {
            assert(seq_lt(s[j].0, s[i].0));
        } else {
            assert(seq_lt(s[i].0, s[j].0));
        }
        lemma_seq_lt_irreflexive(k);
    }
    assert(map_of(s)[k] == s[j].1);
}

/// The contents of the `auth.yaml` file: the current context and every
/// context with its registry, ordered by context name.
#[derive(Debug)]
pub struct Auth {
    current: Context,
    contexts: Vec<(Context, Registry)>,
}

impl Auth {
    /// The name of the context that commands use by default.
    pub closed spec fn spec_current(self) -> Seq<char> {
        self.current@
    }

    /// Returns the context that commands use by default.
    pub fn current(&self) -> (r: &Context)
        ensures
            r@ == self.spec_current(),
    {
        &self.current
    }

    /// Makes `context` the one that commands use by default.
    pub fn set_current(&mut self, context: Context)
        requires
            old(self).wf(),
        ensures
            final(self).wf(),
            final(self).spec_current() == context@,
            final(self).spec_contexts() == old(self).spec_contexts(),
    {
        self.current = context;
    }

    /// The context table, by views, in name order.
    pub closed spec fn entries(self) -> Seq<(Seq<char>, (Seq<char>, Type))> {
        self.contexts@.map_values(|e: (Context, Registry)| entry_view(e))
    }

    /// Context names ascend.
    pub closed spec fn wf(self) -> bool {
        keys_ascending(self.entries())
    }

    /// Every context with its registry URL and authentication type.
    pub open spec fn spec_contexts(self) -> Map<Seq<char>, (Seq<char>, Type)> {
        map_of(self.entries())
    }

    /// An `auth.yaml` with `current` as its current context and no contexts.
    pub fn new(current: Context) -> (r: Auth)
        ensures
            r.wf(),
            r.spec_current() == current@,
            r.spec_contexts() == Map::<Seq<char>, (Seq<char>, Type)>::empty(),
            r.entries().len() == 0,
    {
        let r = Auth { current, contexts: Vec::new() };
        assert(r.entries() =~= Seq::<(Seq<char>, (Seq<char>, Type))>::empty());
        assert(r.spec_contexts() =~= Map::<Seq<char>, (Seq<char>, Type)>::empty());
        r
    }

    /// The number of contexts.
    pub fn len(&self) -> (r: usize)
        ensures
            r == self.entries().len(),
    {
        self.contexts.len()
    }

    /// The position of the context named `key`, or where it would be
    /// inserted, and whether it is there.
    fn position(&self, key: &str) -> (r: (usize, bool))
        requires
            self.wf(),
        ensures
            r.0 <= self.entries().len(),
            r.1 ==> r.0 < self.entries().len() && self.entries()[r.0 as int].0 == key@,
            forall|i: int| 0 <= i < r.0 ==> seq_lt(#[trigger] self.entries()[i].0, key@),
            !r.1 ==> forall|i: int| r.0 <= i < self.entries().len() ==> seq_lt(key@, #[trigger] self.entries()[i].0),
    {
        let mut j: usize = 0;
        while j < self.contexts.len()
            invariant
                self.wf(),
                j <= self.entries().len(),
                self.entries().len() == self.contexts@.len(),
                forall|i: int| 0 <= i < j ==> seq_lt(#[trigger] self.entries()[i].0, key@),
            decreases self.contexts@.len() - j,
        {
            let k = self.contexts[j].0.as_str();
            assert(self.entries()[j as int].0 == k@);
            if str_eq(k, key) {
                return (j, true);
            }
            if !str_lt(k, key) {
                proof {
                    lemma_seq_lt_trichotomy(k@, key@);
                    assert forall|i: int| j <= i < self.entries().len() implies seq_lt(key@, #[trigger] self.entries()[i].0) by {
                        if i > j {
                            assert(seq_lt(self.entries()[j as int].0, self.entries()[i].0));
                            lemma_seq_lt_transitive(key@, k@, self.entries()[i].0);
                        }
                    }
                }
                return (j, false);
            }
            j = j + 1;
        }
        (j, false)
    }

    /// Whether a context named `key` exists.
    pub fn contains_key(&self, key: &str) -> (r: bool)
        requires
            self.wf(),
        ensures
            r == self.spec_contexts().dom().contains(key@),
    {
        let (j, found) = self.position(key);
        proof {
            if found {
                lemma_map_of_at(self.entries(), j as int);
            } else {
                if has_key(self.entries(), key@) {
                    let i = choose|i: int| 0 <= i < self.entries().len() && #[trigger] self.entries()[i].0 == key@;
                    lemma_seq_lt_irreflexive(key@);
                    if i < j {
                        assert(seq_lt(self.entries()[i].0, key@));
                    } else {
                        assert(seq_lt(key@, self.entries()[i].0));
                    }
                }
            }
        }
        found
    }

    /// The registry of the context named `key`.
    pub fn get(&self, key: &str) -> (r: Option<Registry>)
        requires
            self.wf(),
        ensures
            match r {
                Some(reg) => self.spec_contexts().dom().contains(key@) && self.spec_contexts()[key@] == registry_view(reg),
                None => !self.spec_contexts().dom().contains(key@),
            },
    {
        let (j, found) = self.position(key);
        if found {
            proof {
                lemma_map_of_at(self.entries(), j as int);
            }
            Some(self.contexts[j].1.clone())
        } else {
            proof {
                if has_key(self.entries(), key@) {
                    let i = choose|i: int| 0 <= i < self.entries().len() && #[trigger] self.entries()[i].0 == key@;
                    lemma_seq_lt_irreflexive(key@);
                    if i < j {
                        assert(seq_lt(self.entries()[i].0, key@));
                    } else {
                        assert(seq_lt(key@, self.entries()[i].0));
                    }
                }
            }
            None
        }
    }

    /// Sets the registry of the context named `key`, adding the context if
    /// it is not there; the order of names is kept.
    pub fn insert(&mut self, key: Context, registry: Registry)
        requires
            old(self).wf(),
        ensures
            final(self).wf(),
            final(self).spec_current() == old(self).spec_current(),
            final(self).spec_contexts() == old(self).spec_contexts().insert(key@, registry_view(registry)),
    {
        let (j, found) = self.position(key.as_str());
        let ghost k = key@;
        let ghost v = registry_view(registry);
        let ghost s = self.entries();
        if found {
            self.contexts.remove(j);
            self.contexts.insert(j, (key, registry));
            proof {
                let t = self.entries();
                assert(t =~= s.update(j as int, (k, v)));
                assert(keys_ascending(t)) by {
                    assert forall|a: int, b: int| 0 <= a < b < t.len() implies seq_lt(#[trigger] t[a].0, #[trigger] t[b].0) by {
                        assert(s[a].0 == t[a].0 && s[b].0 == t[b].0);
                    }
                }
                self.lemma_map_update(s, t, j as int, k, v);
            }
        } else {
            self.contexts.insert(j, (key, registry));
            proof {
                let t = self.entries();
                assert(t =~= s.insert(j as int, (k, v)));
                assert(keys_ascending(t)) by {
                    assert forall|a: int, b: int| 0 <= a < b < t.len() implies seq_lt(#[trigger] t[a].0, #[trigger] t[b].0) by {
                        if a < j && b < j {
                            assert(t[a] == s[a] && t[b] == s[b]);
                        } else if a < j && b == j {
                        } else if a < j && b > j {
                            assert(t[a] == s[a] && t[b] == s[b - 1]);
                            lemma_seq_lt_transitive(s[a].0, k, s[b - 1].0);
                        } else if a == j {
                            assert(t[b] == s[b - 1]);
                        } else {
                            assert(t[a] == s[a - 1] && t[b] == s[b - 1]);
                        }
                    }
                }
                self.lemma_map_insert(s, t, j as int, k, v);
            }
        }
    }

    proof fn lemma_map_update(
        self,
        s: Seq<(Seq<char>, (Seq<char>, Type))>,
        t: Seq<(Seq<char>, (Seq<char>, Type))>,
        j: int,
        k: Seq<char>,
        v: (Seq<char>, Type),
    )
        requires
            keys_ascending(s),
            keys_ascending(t),
            0 <= j < s.len(),
            s[j].0 == k,
            t == s.update(j, (k, v)),
        ensures
            map_of(t) == map_of(s).insert(k, v),
    {
        assert forall|x: Seq<char>| #[trigger] map_of(t).dom().contains(x) <==> map_of(s).insert(k, v).dom().contains(x) by {
            if has_key(t, x) {
                let i = choose|i: int| 0 <= i < t.len() && #[trigger] t[i].0 == x;
                if i != j {
                    assert(s[i].0 == x);
                }
            }
            if has_key(s, x) {
                let i = choose|i: int| 0 <= i < s.len() && #[trigger] s[i].0 == x;
                assert(t[i].0 == x);
            }
            if x == k {
                assert(t[j].0 == x);
            }
        }
        assert forall|x: Seq<char>| #[trigger] map_of(t).dom().contains(x) implies map_of(t)[x] == map_of(s).insert(k, v)[x] by {
            let i = choose|i: int| 0 <= i < t.len() && #[trigger] t[i].0 == x;
            lemma_map_of_at(t, i);
            lemma_map_of_at(t, j);
            lemma_seq_lt_irreflexive(x);
            if i != j {
                if i < j {
                    assert(seq_lt(t[i].0, t[j].0));
                } else {
                    assert(seq_lt(t[j].0, t[i].0));
                }
                assert(x != k);
                assert(s[i] == t[i]);
                lemma_map_of_at(s, i);
            }
        }
        assert(map_of(t) =~= map_of(s).insert(k, v));
    }

    proof fn lemma_map_insert(
        self,
        s: Seq<(Seq<char>, (Seq<char>, Type))>,
        t: Seq<(Seq<char>, (Seq<char>, Type))>,
        j: int,
        k: Seq<char>,
        v: (Seq<char>, Type),
    )
        requires
            keys_ascending(s),
            keys_ascending(t),
            0 <= j <= s.len(),
            t == s.insert(j, (k, v)),
        ensures
            map_of(t) == map_of(s).insert(k, v),
    {
        assert forall|x: Seq<char>| #[trigger] map_of(t).dom().contains(x) <==> map_of(s).insert(k, v).dom().contains(x) by {
            if has_key(t, x) {
                let i = choose|i: int| 0 <= i < t.len() && #[trigger] t[i].0 == x;
                if i < j {
                    assert(s[i].0 == x);
                } else if i > j {
                    assert(s[i - 1].0 == x);
                }
            }
            if has_key(s, x) {
                let i = choose|i: int| 0 <= i < s.len() && #[trigger] s[i].0 == x;
                if i < j {
                    assert(t[i].0 == x);
                } else {
                    assert(t[i + 1].0 == x);
                }
            }
            if x == k {
                assert(t[j].0 == x);
            }
        }
        assert forall|x: Seq<char>| #[trigger] map_of(t).dom().contains(x) implies map_of(t)[x] == map_of(s).insert(k, v)[x] by {
            let i = choose|i: int| 0 <= i < t.len() && #[trigger] t[i].0 == x;
            lemma_map_of_at(t, i);
            lemma_seq_lt_irreflexive(x);
            if i < j {
                assert(seq_lt(t[i].0, t[j].0));
                assert(s[i] == t[i]);
                lemma_map_of_at(s, i);
            } else if i > j {
                assert(seq_lt(t[j].0, t[i].0));
                assert(s[i - 1] == t[i]);
                lemma_map_of_at(s, i - 1);
            }
        }
        assert(map_of(t) =~= map_of(s).insert(k, v));
    }

    /// Removes the context named `key`, if it is there.
    pub fn remove(&mut self, key: &str)
        requires
            old(self).wf(),
        ensures
            final(self).wf(),
            final(self).spec_current() == old(self).spec_current(),
            final(self).spec_contexts() == old(self).spec_contexts().remove(key@),
    {
        let (j, found) = self.position(key);
        let ghost s = self.entries();
        if found {
            self.contexts.remove(j);
            proof {
                let t = self.entries();
                assert(t =~= s.remove(j as int));
                assert(keys_ascending(t)) by {
                    assert forall|a: int, b: int| 0 <= a < b < t.len() implies seq_lt(#[trigger] t[a].0, #[trigger] t[b].0) by {
                        if b < j {
                            assert(t[a] == s[a] && t[b] == s[b]);
                        } else if a < j {
                            assert(t[a] == s[a] && t[b] == s[b + 1]);
                        } else {
                            assert(t[a] == s[a + 1] && t[b] == s[b + 1]);
                        }
                    }
                }
                assert forall|x: Seq<char>| #[trigger] map_of(t).dom().contains(x) <==> map_of(s).remove(key@).dom().contains(x) by {
                    if has_key(t, x) {
                        let i = choose|i: int| 0 <= i < t.len() && #[trigger] t[i].0 == x;
                        if i < j {
                            assert(s[i].0 == x);
                            assert(seq_lt(s[i].0, s[j as int].0));
                            lemma_seq_lt_irreflexive(x);
                        } else {
                            assert(s[i + 1].0 == x);
                            assert(seq_lt(s[j as int].0, s[i + 1].0));
                            lemma_seq_lt_irreflexive(x);
                        }
                    }
                    if has_key(s, x) && x != key@ {
                        let i = choose|i: int| 0 <= i < s.len() && #[trigger] s[i].0 == x;
                        if i < j {
                            assert(t[i].0 == x);
                        } else {
                            assert(i != j);
                            assert(t[i - 1].0 == x);
                        }
                    }
                }
                assert forall|x: Seq<char>| #[trigger] map_of(t).dom().contains(x) implies map_of(t)[x] == map_of(s).remove(key@)[x] by {
                    let i = choose|i: int| 0 <= i < t.len() && #[trigger] t[i].0 == x;
                    lemma_map_of_at(t, i);
                    if i < j {
                        lemma_map_of_at(s, i);
                    } else {
                        lemma_map_of_at(s, i + 1);
                    }
                }
                assert(map_of(t) =~= map_of(s).remove(key@));
            }
        } else {
            proof {
                assert(!has_key(s, key@)) by {
                    if has_key(s, key@) {
                        let i = choose|i: int| 0 <= i < s.len() && #[trigger] s[i].0 == key@;
                        lemma_seq_lt_irreflexive(key@);
                        if i < j {
                            assert(seq_lt(s[i].0, key@));
                        } else {
                            assert(seq_lt(key@, s[i].0));
                        }
                    }
                }
                assert(map_of(s) =~= map_of(s).remove(key@));
            }
        }
    }

    /// The context at position `i` in name order, with its registry.
    pub fn entry(&self, i: usize) -> (r: (Context, Registry))
        requires
            i < self.entries().len(),
        ensures
            entry_view(r) == self.entries()[i as int],
    {
        let e = &self.contexts[i];
        (e.0.clone(), e.1.clone())
    }
}


/// Why adding a context was refused.
#[derive(Debug, Clone, Copy, PartialEq, Eq, Structural)]
pub enum AddContextError {
    /// A context with that name exists already.
    Exists,
}

/// Why a context with credentials from standard input was not added.
#[derive(Debug, Clone, Copy, PartialEq, Eq, Structural)]
pub enum AddFromStdinError {
    /// A context with that name exists already.
    Exists,
    /// The text does not hold credentials of the kind asked for.
    Credentials(CredentialError),
}

/// Why deleting a context was refused.
#[derive(Debug, Clone, Copy, PartialEq, Eq, Structural)]
pub enum DeleteContextError {
    /// There is no context with that name.
    Missing,
    /// The context is the current one; switch to another one first.
    IsCurrent,
}

impl Auth {
    /// The `auth.yaml` that is written when there is none: the `default`
    /// context, current, pointing to the public registry without
    /// authentication.
    pub fn default_config() -> (r: Auth)
        ensures
            r.wf(),
            r.spec_current() == "default"@,
            r.spec_contexts() == Map::<Seq<char>, (Seq<char>, Type)>::empty().insert(
                "default"@,
                (DEFAULT_REGISTRY_URL@, Type::NoAuth),
            ),
    {
        let mut auth = Auth::new(__default_context());
        auth.insert(
            __default_context(),
            Registry { registry: String::from_str(DEFAULT_REGISTRY_URL), auth: Type::NoAuth },
        );
        auth
    }

    /// Adds a context; a context of the same name is never overwritten.
    pub fn add_context(&mut self, context: Context, registry: Registry) -> (r: Result<(), AddContextError>)
        requires
            old(self).wf(),
        ensures
            final(self).wf(),
            final(self).spec_current() == old(self).spec_current(),
            old(self).spec_contexts().dom().contains(context@) ==> r == Err::<(), AddContextError>(AddContextError::Exists)
                && final(self).spec_contexts() == old(self).spec_contexts(),
            !old(self).spec_contexts().dom().contains(context@) ==> r is Ok
                && final(self).spec_contexts() == old(self).spec_contexts().insert(context@, registry_view(registry)),
    {
        if self.contains_key(context.as_str()) {
            return Err(AddContextError::Exists);
        }
        self.insert(context, registry);
        Ok(())
    }

    /// Adds the context `context` for the registry whose URL serializes as
    /// `registry`, authenticated by the credentials of the kind `ty` that
    /// the standard input text `buf` holds, as `context add --stdin` does:
    /// the credentials read are the ones stored.
    pub fn add_context_from_buffer(&mut self, context: Context, registry: String, ty: &Type, buf: &str) -> (r: Result<(), AddFromStdinError>)
        requires
            old(self).wf(),
        ensures
            final(self).wf(),
            final(self).spec_current() == old(self).spec_current(),
            old(self).spec_contexts().dom().contains(context@) ==> r == Err::<(), AddFromStdinError>(AddFromStdinError::Exists)
                && final(self).spec_contexts() == old(self).spec_contexts(),
            !old(self).spec_contexts().dom().contains(context@) ==> exists|read: Result<Type, CredentialError>|
                #[trigger] reads_credentials(*ty, buf@, read) && match read {
                    Ok(t) => r is Ok && final(self).spec_contexts() == old(self).spec_contexts().insert(context@, (registry@, t)),
                    Err(e) => r == Err::<(), AddFromStdinError>(AddFromStdinError::Credentials(e))
                        && final(self).spec_contexts() == old(self).spec_contexts(),
                },
    {
        if self.contains_key(context.as_str()) {
            return Err(AddFromStdinError::Exists);
        }
        let read = auth_from_buffer(ty, buf);
        assert(reads_credentials(*ty, buf@, read));
        match read {
            Ok(t) => {
                let added = self.add_context(context, Registry { auth: t, registry });
                assert(added is Ok);
                Ok(())
            },
            Err(e) => Err(AddFromStdinError::Credentials(e)),
        }
    }

    /// Deletes the context named `name`, or the current context when no name
    /// is given; the current context is never deleted.
    pub fn delete_context(&mut self, name: Option<&str>) -> (r: Result<Context, DeleteContextError>)
        requires
            old(self).wf(),
        ensures
            final(self).wf(),
            final(self).spec_current() == old(self).spec_current(),
            ({
                let target = match name {
                    Some(n) => n@,
                    None => old(self).spec_current(),
                };
                if !old(self).spec_contexts().dom().contains(target) {
                    r == Err::<Context, DeleteContextError>(DeleteContextError::Missing)
                        && final(self).spec_contexts() == old(self).spec_contexts()
                } else if target == old(self).spec_current() {
                    r == Err::<Context, DeleteContextError>(DeleteContextError::IsCurrent)
                        && final(self).spec_contexts() == old(self).spec_contexts()
                } else {
                    r matches Ok(c) && c@ == target
                        && final(self).spec_contexts() == old(self).spec_contexts().remove(target)
                }
            }),
    {
        let context = match name {
            Some(n) => Context::new(n),
            None => self.current.clone(),
        };
        if !self.contains_key(context.as_str()) {
            return Err(DeleteContextError::Missing);
        }
        if self.current.same(&context) {
            return Err(DeleteContextError::IsCurrent);
        }
        self.remove(context.as_str());
        Ok(context)
    }

    /// The context named `name` if it exists, else the current context.
    pub fn select_context(&self, name: Option<&str>) -> (r: Context)
        requires
            self.wf(),
        ensures
            match name {
                Some(n) => if self.spec_contexts().dom().contains(n@) {
                    r@ == n@
                } else {
                    r@ == self.spec_current()
                },
                None => r@ == self.spec_current(),
            },
    {
        match name {
            Some(n) => if self.contains_key(n) {
                Context::new(n)
            } else {
                self.current.clone()
            },
            None => self.current.clone(),
        }
    }

    /// The authentication type of the first context, in name order, whose
    /// registry URL is `url`; no authentication when none points there.
    pub fn auth_for_registry(&self, url: &str) -> (r: Type)
        requires
            self.wf(),
        ensures
            match first_with_registry(self.entries(), url@) {
                Some(i) => r == self.entries()[i].1.1,
                None => r is NoAuth,
            },
    {
        let mut i: usize = 0;
        while i < self.contexts.len()
            invariant
                i <= self.contexts@.len(),
                self.entries().len() == self.contexts@.len(),
                forall|j: int| 0 <= j < i ==> #[trigger] self.entries()[j].1.0 != url@,
            decreases self.contexts@.len() - i,
        {
            assert(self.entries()[i as int] == entry_view(self.contexts@[i as int]));
            if str_eq(self.contexts[i].1.registry.as_str(), url) {
                proof {
                    lemma_first_with_registry(self.entries(), url@);
                    assert(self.entries()[i as int].1.0 == url@);
                    match first_with_registry(self.entries(), url@) {
                        Some(k) => {
                            if k < i {
                                assert(self.entries()[k].1.0 != url@);
                            }
                            if k > i {
                                assert(self.entries()[i as int].1.0 != url@);
                            }
                        },
                        None => {
                            assert(self.entries()[i as int].1.0 != url@);
                        },
                    }
                }
                return self.contexts[i].1.auth.clone();
            }
            i = i + 1;
        }
        proof { lemma_first_with_registry(self.entries(), url@); }
        Type::NoAuth
    }
}

/// The position of the first entry whose registry URL is `url`.
pub open spec fn first_with_registry(s: Seq<(Seq<char>, (Seq<char>, Type))>, url: Seq<char>) -> Option<int>
    decreases s.len(),
{
    if s.len() == 0 {
        None
    } else if s[0].1.0 == url {
        Some(0)
    } else {
        match first_with_registry(s.drop_first(), url) {
            Some(i) => Some(i + 1),
            None => None,
        }
    }
}

/// `first_with_registry` finds the first matching entry.
pub proof fn lemma_first_with_registry(s: Seq<(Seq<char>, (Seq<char>, Type))>, url: Seq<char>)
    ensures
        match first_with_registry(s, url) {
            Some(i) => 0 <= i < s.len() && s[i].1.0 == url && forall|j: int| 0 <= j < i ==> #[trigger] s[j].1.0 != url,
            None => forall|j: int| 0 <= j < s.len() ==> #[trigger] s[j].1.0 != url,
        },
    decreases s.len(),
{
    if s.len() > 0 {
        lemma_first_with_registry(s.drop_first(), url);
        assert forall|j: int| 1 <= j < s.len() implies #[trigger] s[j].1.0 == s.drop_first()[j - 1].1.0 by {}
    }
}

/// The `Authorization` header line that the token command prints for an
/// authentication type, given the value of its environment variable when it
/// uses one; `None` when nothing is printed.
pub open spec fn spec_authorization_line(ty: Type, env_value: Option<Seq<char>>) -> Option<Seq<char>> {
    match ty {
        Type::EnvironmentVariable { kind, .. } => match env_value {
            Some(v) => Some("Authorization: "@ + kind.spec_str() + " "@ + v),
            None => None,
        },
        Type::ApiKey(key) => Some("Authorization: ApiKey "@ + key@),
        Type::Session { access, .. } => Some("Authorization: Bearer "@ + access@),
        _ => None,
    }
}

/// The scheme that an environment-variable kind prints in its
/// `Authorization` header is the kind's own name: lowered to ASCII lower
/// case it parses back to that kind. So the two kinds print different
/// schemes, `Bearer` for a bearer token and `ApiKey` for an API key.
pub proof fn law_env_scheme_names_kind(kind: EnvVarKind)
    ensures
        EnvVarKind::spec_parse(ascii_lowercase(kind.spec_str())) == Some(kind),
        EnvVarKind::Bearer.spec_str() != EnvVarKind::ApiKey.spec_str(),
{
    reveal_strlit("Bearer");
    reveal_strlit("ApiKey");
    reveal_strlit("bearer");
    reveal_strlit("apikey");
    assert(ascii_lowercase("Bearer"@) =~= "bearer"@);
    assert(ascii_lowercase("ApiKey"@) =~= "apikey"@);
    assert("bearer"@[0] != "apikey"@[0]);
    assert("Bearer"@[0] != "ApiKey"@[0]);
}

/// Builds the `Authorization` line of the token command. Basic
/// authentication has none.
pub fn authorization_line(ty: &Type, env_value: Option<&str>) -> (r: Option<String>)
    requires
        !(ty is Basic),
    ensures
        match r {
            Some(s) => spec_authorization_line(*ty, match env_value { Some(v) => Some(v@), None => None }) == Some(s@),
            None => spec_authorization_line(*ty, match env_value { Some(v) => Some(v@), None => None }) is None,
        },
{
    match ty {
        Type::EnvironmentVariable { kind, .. } => match env_value {
            Some(v) => {
                let mut line = concat("Authorization: ", kind.as_str());
                line.append(" ");
                line.append(v);
                Some(line)
            },
            None => None,
        },
        Type::ApiKey(key) => Some(concat("Authorization: ApiKey ", key.as_str())),
        Type::Session { access, .. } => Some(concat("Authorization: Bearer ", access.as_str())),
        _ => None,
    }
}

/// One row of the context list.
#[derive(Debug)]
pub struct ContextRow {
    /// `*` for the current context, empty otherwise.
    pub current: &'static str,
    /// The context name.
    pub context: String,
    /// The registry URL.
    pub registry: String,
    /// The description of the authentication type.
    pub ty: String,
}

impl Auth {
    /// The rows of the context list, in name order.
    pub fn context_rows(&self) -> (r: Vec<ContextRow>)
        requires
            self.wf(),
        ensures
            r@.len() == self.entries().len(),
            forall|i: int| 0 <= i < r@.len() ==> {
                &&& (#[trigger] r@[i]).context@ == self.entries()[i].0
                &&& r@[i].registry@ == self.entries()[i].1.0
                &&& r@[i].ty@ == self.entries()[i].1.1.spec_description()
                &&& r@[i].current@ == (if self.entries()[i].0 == self.spec_current() { "*"@ } else { ""@ })
            },
    {
        let mut rows: Vec<ContextRow> = Vec::new();
        let mut i: usize = 0;
        while i < self.contexts.len()
            invariant
                i <= self.contexts@.len(),
                self.entries().len() == self.contexts@.len(),
                rows@.len() == i,
                forall|j: int| 0 <= j < i ==> {
                    &&& (#[trigger] rows@[j]).context@ == self.entries()[j].0
                    &&& rows@[j].registry@ == self.entries()[j].1.0
                    &&& rows@[j].ty@ == self.entries()[j].1.1.spec_description()
                    &&& rows@[j].current@ == (if self.entries()[j].0 == self.spec_current() { "*"@ } else { ""@ })
                },
            decreases self.contexts@.len() - i,
        {
            let e = &self.contexts[i];
            assert(self.entries()[i as int] == entry_view(self.contexts@[i as int]));
            let marker: &'static str = if self.current.same(&e.0) { "*" } else { "" };
            rows.push(ContextRow {
                current: marker,
                context: String::from_str(e.0.as_str()),
                registry: e.1.registry.clone(),
                ty: e.1.auth.description(),
            });
            i = i + 1;
        }
        rows
    }
}

} // verus!
