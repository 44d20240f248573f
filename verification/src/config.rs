//! The `.charted.hcl` configuration: the plugin's version requirements,
//! registries, repositories, and the evaluation of `registry.<name>`
//! references.

use vstd::prelude::*;
use crate::api::Version;
use crate::text::{
    concat, contains_char, first_index, has_char, lemma_first_index, split_once, split_once_char, str_eq, views,
};
use crate::urls::{join_url, parse_url, url_join, url_parse};
use crate::versions::{parse_req, req_matches, semver_matches, semver_req, semver_version_valid};
use semver::Error as SemverError;

verus! {

/// The version of `charted-helm-plugin`.
pub const PLUGIN_VERSION: &'static str = "0.1.0";

/// A registry that repositories can be uploaded to.
pub struct RegistryConfig {
    /// API version of the registry.
    pub version: Version,
    /// URL of the registry, serialized; it does not include the API version.
    pub url: String,
}

/// The path that `join_url` joins onto the registry URL.
pub open spec fn versioned_path(version: Version, input: Seq<char>) -> Seq<char> {
    version.spec_str() + "/"@ + input
}

impl RegistryConfig {
    /// A registry of the given API version at the URL `url`, parsed with
    /// `Url::parse`.
    pub fn parse(version: Version, url: &str) -> (r: Result<RegistryConfig, url::ParseError>)
        ensures
            match r {
                Ok(c) => c.version == version && url_parse(url@) == Some(c.url@),
                Err(_) => url_parse(url@) is None,
            },
    {
        match parse_url(url) {
            Ok(u) => Ok(RegistryConfig { version, url: u }),
            Err(e) => Err(e),
        }
    }

    /// Joins `{version}/{input}` onto the registry URL with `Url::join` and
    /// returns its serialization.
    pub fn join_url(&self, input: &str) -> (r: Result<String, url::ParseError>)
        ensures
            match r {
                Ok(s) => url_join(self.url@, versioned_path(self.version, input@)) == Some(s@),
                Err(_) => url_join(self.url@, versioned_path(self.version, input@)) is None,
            },
    {
        let mut path = concat(self.version.as_str(), "/");
        path.append(input);
        proof { reveal_strlit("/"); }
        join_url(self.url.as_str(), path.as_str())
    }

    /// The registry URL with the API version joined on, as `Display` writes it.
    pub fn to_string(&self) -> (r: Result<String, url::ParseError>)
        ensures
            match r {
                Ok(s) => url_join(self.url@, self.version.spec_str()) == Some(s@),
                Err(_) => url_join(self.url@, self.version.spec_str()) is None,
            },
    {
        join_url(self.url.as_str(), self.version.as_str())
    }

    /// A copy of this registry configuration.
    pub fn duplicate(&self) -> (r: RegistryConfig)
        ensures
            r.version == self.version,
            r.url@ == self.url@,
    {
        RegistryConfig { version: self.version, url: self.url.clone() }
    }
}

/// The URL of the default registry.
pub const DEFAULT_REGISTRY_URL: &'static str = "https://charts.noelware.org/api";

/// The registries that are available when none is configured: `default`,
/// the public registry, at API version 1. `None` only if its URL does not
/// parse.
pub fn __default_registries() -> (r: Option<Vec<(String, RegistryConfig)>>)
    ensures
        match r {
            Some(v) => v@.len() == 1 && v@[0].0@ == "default"@ && v@[0].1.version == Version::V1
                && url_parse(DEFAULT_REGISTRY_URL@) == Some(v@[0].1.url@),
            None => url_parse(DEFAULT_REGISTRY_URL@) is None,
        },
{
    match RegistryConfig::parse(Version::V1, DEFAULT_REGISTRY_URL) {
        Ok(c) => {
            let mut v: Vec<(String, RegistryConfig)> = Vec::new();
            v.push((String::from_str("default"), c));
            Some(v)
        },
        Err(_) => None,
    }
}

/// A version requirement, such as `>=3.10`, checked by `semver`.
pub struct VersionReq {
    source: String,
    display: String,
}

impl VersionReq {
    /// A requirement always holds text that `semver` parses, and how that
    /// parse displays.
    #[verifier::type_invariant]
    closed spec fn parsed(self) -> bool {
        semver_req(self.source@) == Some(self.display@)
    }

    /// The text the requirement was parsed from.
    pub closed spec fn spec_source(self) -> Seq<char> {
        self.source@
    }

    /// How the requirement displays.
    pub closed spec fn spec_display(self) -> Seq<char> {
        self.display@
    }

    /// Parses a version requirement with `semver::VersionReq::parse`.
    pub fn parse(input: &str) -> (r: Result<VersionReq, SemverError>)
        ensures
            match r {
                Ok(req) => req.spec_source() == input@ && semver_req(input@) == Some(req.spec_display()),
                Err(_) => semver_req(input@) is None,
            },
    {
        match parse_req(input) {
            Ok(display) => Ok(VersionReq { source: String::from_str(input), display }),
            Err(e) => Err(e),
        }
    }

    /// The requirement as `Display` writes it.
    pub fn to_string(&self) -> (r: String)
        ensures
            r@ == self.spec_display(),
            semver_req(self.spec_source()) == Some(r@),
    {
        proof { use_type_invariant(self); }
        self.display.clone()
    }

    /// Whether `version` satisfies this requirement; `None` when `version`
    /// is not a semantic version.
    pub fn matches(&self, version: &str) -> (r: Option<bool>)
        ensures
            r == semver_matches(self.spec_source(), version@),
            r is Some <==> semver_version_valid(version@),
    {
        proof { use_type_invariant(self); }
        req_matches(self.source.as_str(), version)
    }
}

/// The default requirement on the plugin's own version: `>={PLUGIN_VERSION}`.
pub fn __default_charted_req() -> (r: Option<VersionReq>)
    ensures
        match r {
            Some(req) => req.spec_source() == ">="@ + PLUGIN_VERSION@ && semver_req(req.spec_source()) == Some(req.spec_display()),
            None => semver_req(">="@ + PLUGIN_VERSION@) is None,
        },
{
    let text = concat(">=", PLUGIN_VERSION);
    match VersionReq::parse(text.as_str()) {
        Ok(req) => Some(req),
        Err(_) => None,
    }
}

/// The default requirement on Helm's version: `>=3.10`.
pub fn __default_helm_req() -> (r: Option<VersionReq>)
    ensures
        match r {
            Some(req) => req.spec_source() == ">=3.10"@ && semver_req(req.spec_source()) == Some(req.spec_display()),
            None => semver_req(">=3.10"@) is None,
        },
{
    match VersionReq::parse(">=3.10") {
        Ok(req) => Some(req),
        Err(_) => None,
    }
}

/// The `charted {}` block: requirements on the plugin's and on Helm's versions.
pub struct ChartedConfig {
    /// Version requirement for the charted Helm plugin.
    pub version: VersionReq,
    /// Version requirement for Helm itself.
    pub helm: VersionReq,
}

impl ChartedConfig {
    /// The block with both default requirements; `None` only if one of them
    /// does not parse.
    pub fn default_config() -> (r: Option<ChartedConfig>)
        ensures
            match r {
                Some(c) => c.version.spec_source() == ">="@ + PLUGIN_VERSION@
                    && c.helm.spec_source() == ">=3.10"@
                    && semver_req(c.version.spec_source()) is Some
                    && semver_req(c.helm.spec_source()) is Some,
                None => semver_req(">="@ + PLUGIN_VERSION@) is None || semver_req(">=3.10"@) is None,
            },
    {
        match (__default_charted_req(), __default_helm_req()) {
            (Some(version), Some(helm)) => Some(ChartedConfig { version, helm }),
            _ => None,
        }
    }
}

/// Whether a repository is published by default.
pub fn __true() -> (r: bool)
    ensures
        r,
{
    true
}

/// The registry a repository is published to by default.
pub fn __default_registry() -> (r: String)
    ensures
        r@ == "default"@,
{
    String::from_str("default")
}

/// One repository that the plugin manages.
pub struct RepositoryConfig {
    /// Whether this repository can be published to a registry.
    pub publish: bool,
    /// Name of the registry to publish this repository to.
    pub registry: String,
    /// The owner and name of the repository (`owner/repo`).
    pub path: (String, String),
    /// Source directory of the Helm chart.
    pub source: String,
    /// Path to a README file.
    pub readme: Option<String>,
}

/// Why a repository path was refused.
#[derive(Debug, Clone, Copy, PartialEq, Eq, Structural)]
pub enum RepositoryPathError {
    /// There was no slash between owner and name.
    MissingSlash,
    /// There was more than one slash.
    MoreThanOneSlash,
}

/// Reads an `owner/repo` repository path.
pub fn parse_repository_path(v: &str) -> (r: Result<(String, String), RepositoryPathError>)
    ensures
        match split_once(v@, '/') {
            None => r == Err::<(String, String), RepositoryPathError>(RepositoryPathError::MissingSlash),
            Some((owner, repo)) => if has_char(repo, '/') {
                r == Err::<(String, String), RepositoryPathError>(RepositoryPathError::MoreThanOneSlash)
            } else {
                r matches Ok((o, n)) && o@ == owner && n@ == repo
            },
        },
{
    match split_once_char(v, '/') {
        None => Err(RepositoryPathError::MissingSlash),
        Some((owner, repo)) => if contains_char(repo.as_str(), '/') {
            Err(RepositoryPathError::MoreThanOneSlash)
        } else {
            Ok((owner, repo))
        },
    }
}

/// Writes a repository path as `owner/repo`.
pub fn format_repository_path(owner: &str, repo: &str) -> (r: String)
    ensures
        r@ == owner@ + "/"@ + repo@,
{
    let mut s = concat(owner, "/");
    s.append(repo);
    s
}

/// Reading back a written repository path gives the same owner and name,
/// when neither holds a slash.
pub proof fn law_repository_path_roundtrip(owner: Seq<char>, repo: Seq<char>)
    requires
        !has_char(owner, '/'),
        !has_char(repo, '/'),
    ensures
        split_once(owner + "/"@ + repo, '/') == Some((owner, repo)),
{
    reveal_strlit("/");
    let s = owner + "/"@ + repo;
    lemma_first_index(s, '/');
    assert(s[owner.len() as int] == '/');
    match first_index(s, '/') {
        Some(i) => {
            if i < owner.len() {
                assert(owner[i] == s[i]);
            }
            assert(i == owner.len());
            assert(s.subrange(0, i) =~= owner);
            assert(s.subrange(i + 1, s.len() as int) =~= repo);
        },
        None => {},
    }
}

/// The whole `.charted.hcl`: the `charted {}` block, the registries and the
/// repositories, each list in the order of its names.
pub struct PluginConfig {
    /// The `charted {}` block.
    pub charted: ChartedConfig,
    /// The `registry "<name>" {}` blocks.
    pub registries: Vec<(String, RegistryConfig)>,
    /// The `repository "<name>" {}` blocks.
    pub repositories: Vec<(String, RepositoryConfig)>,
}

/// The position of the first entry named `key`.
pub open spec fn key_position<V>(entries: Seq<(String, V)>, key: Seq<char>) -> Option<int>
    decreases entries.len(),
{
    if entries.len() == 0 {
        None
    } else if entries[0].0@ == key {
        Some(0)
    } else {
        match key_position(entries.drop_first(), key) {
            Some(i) => Some(i + 1),
            None => None,
        }
    }
}

/// `key_position` finds an entry of that name, and none before it.
pub proof fn lemma_key_position<V>(entries: Seq<(String, V)>, key: Seq<char>)
    ensures
        match key_position(entries, key) {
            Some(i) => 0 <= i < entries.len() && entries[i].0@ == key
                && forall|j: int| 0 <= j < i ==> #[trigger] entries[j].0@ != key,
            None => forall|j: int| 0 <= j < entries.len() ==> #[trigger] entries[j].0@ != key,
        },
    decreases entries.len(),
{
    if entries.len() > 0 {
        lemma_key_position(entries.drop_first(), key);
        assert forall|j: int| 1 <= j < entries.len() implies #[trigger] entries[j] == entries.drop_first()[j - 1] by {}
    }
}

/// Finds the first entry named `key`.
pub fn find_key<V>(entries: &Vec<(String, V)>, key: &str) -> (r: Option<usize>)
    ensures
        match r {
            Some(i) => key_position(entries@, key@) == Some(i as int),
            None => key_position(entries@, key@) is None,
        },
{
    proof { lemma_key_position(entries@, key@); }
    let mut i: usize = 0;
    while i < entries.len()
        invariant
            i <= entries@.len(),
            forall|j: int| 0 <= j < i ==> #[trigger] entries@[j].0@ != key@,
            match key_position(entries@, key@) {
                Some(k) => 0 <= k < entries@.len() && entries@[k].0@ == key@
                    && forall|j: int| 0 <= j < k ==> #[trigger] entries@[j].0@ != key@,
                None => forall|j: int| 0 <= j < entries@.len() ==> #[trigger] entries@[j].0@ != key@,
            },
        decreases entries@.len() - i,
    {
        if str_eq(entries[i].0.as_str(), key) {
            proof {
                match key_position(entries@, key@) {
                    Some(k) => {
                        if k < i {
                            assert(entries@[k].0@ != key@);
                        }
                        if k > i {
                            assert(entries@[i as int].0@ != key@);
                        }
                    },
                    None => {
                        assert(entries@[i as int].0@ != key@);
                    },
                }
            }
            return Some(i);
        }
        i = i + 1;
    }
    None
}

/// An operator of an HCL traversal such as `registry.default`.
pub enum ReferenceOperator {
    /// `.name`
    GetAttr(String),
    /// Any other operator (index, splat).
    Other,
}

/// An HCL traversal, as the library reads it: the variable it starts from, if it starts from a
/// variable, and its operators.
pub struct Reference {
    /// The name of the variable the traversal starts from.
    pub variable: Option<String>,
    /// The operators applied in order.
    pub operators: Vec<ReferenceOperator>,
}

/// The attribute names of a traversal that starts from `registry`.
pub open spec fn registry_attrs(t: Reference) -> Seq<Seq<char>> {
    match t.variable {
        Some(v) => if v@ == "registry"@ {
            attr_names(t.operators@)
        } else {
            Seq::empty()
        },
        None => Seq::empty(),
    }
}

/// The names of the `.name` operators of a list of operators, in order.
pub open spec fn attr_names(ops: Seq<ReferenceOperator>) -> Seq<Seq<char>>
    decreases ops.len(),
{
    if ops.len() == 0 {
        Seq::empty()
    } else {
        let rest = attr_names(ops.drop_last());
        match ops.last() {
            ReferenceOperator::GetAttr(a) => rest.push(a@),
            ReferenceOperator::Other => rest,
        }
    }
}

/// The traversal type of `hcl::edit`.
#[verifier::external_type_specification]
#[verifier::external_body]
pub struct ExHclTraversal(hcl::edit::expr::Traversal);

/// The traversals of the HCL body `text`, in the order that
/// `hcl::edit::visit::visit_body` reaches them (a traversal inside another
/// is not visited), or `None` when `text` does not parse as an HCL body.
pub uninterp spec fn hcl_traversals_of(text: Seq<char>) -> Option<Seq<Reference>>;

/// Gathers the traversals that `visit_body` reaches, each read as a
/// `Reference`.
struct TraversalCollector(Vec<Reference>);

impl hcl::edit::visit::Visit for TraversalCollector {
    /// Reads `node` as a `Reference`: the variable it starts from and, per
    /// operator, the attribute name of a `GetAttr`.
    #[verifier::external_body]
    fn visit_traversal(&mut self, node: &hcl::edit::expr::Traversal) {
        let variable = match &node.expr {
            hcl::edit::expr::Expression::Variable(v) => Some(v.value().as_str().to_string()),
            _ => None,
        };
        let operators = node.operators.iter().map(|op| match op.value() {
            hcl::edit::expr::TraversalOperator::GetAttr(a) => ReferenceOperator::GetAttr(a.value().as_str().to_string()),
            _ => ReferenceOperator::Other,
        }).collect();
        self.0.push(Reference { variable, operators });
    }
}

/// Parses `text` as an `hcl::edit::structure::Body` and walks it with
/// `hcl::edit::visit::visit_body`, collecting each traversal it reaches.
#[verifier::external_body]
fn hcl_traversals(text: &str) -> (r: Option<Vec<Reference>>)
    ensures
        match r {
            Some(v) => hcl_traversals_of(text@) == Some(v@),
            None => hcl_traversals_of(text@) is None,
        },
{
    let body = text.parse::<hcl::edit::structure::Body>().ok()?;
    let mut collector = TraversalCollector(Vec::new());
    hcl::edit::visit::visit_body(&mut collector, &body);
    Some(collector.0)
}

/// The attribute names under `registry` of a list of traversals, in order.
pub open spec fn all_registry_attrs(ts: Seq<Reference>) -> Seq<Seq<char>>
    decreases ts.len(),
{
    if ts.len() == 0 {
        Seq::empty()
    } else {
        all_registry_attrs(ts.drop_last()) + registry_attrs(ts.last())
    }
}

/// Collects the names of every registry that `registry.<name>`
/// traversals reference, in the order they are visited.
pub struct RegistryTraversalVisitor(pub Vec<String>);

impl RegistryTraversalVisitor {
    /// A visitor that has seen nothing yet.
    pub fn new() -> (r: RegistryTraversalVisitor)
        ensures
            r.0@.len() == 0,
    {
        RegistryTraversalVisitor(Vec::new())
    }

    /// Records the attribute names of `node` if it starts from `registry`.
    pub fn visit_traversal(&mut self, node: &Reference)
        ensures
            views(final(self).0@) == views(old(self).0@) + registry_attrs(*node),
    {
        let ghost start = views(self.0@);
        let is_registry = match &node.variable {
            Some(v) => str_eq(v.as_str(), "registry"),
            None => false,
        };
        if !is_registry {
            assert(views(self.0@) =~= start + registry_attrs(*node));
            return;
        }
        let mut i: usize = 0;
        while i < node.operators.len()
            invariant
                i <= node.operators@.len(),
                is_registry,
                registry_attrs(*node) == attr_names(node.operators@),
                views(self.0@) == start + attr_names(node.operators@.subrange(0, i as int)),
            decreases node.operators@.len() - i,
        {
            let ghost sub = node.operators@.subrange(0, i + 1);
            assert(sub.drop_last() =~= node.operators@.subrange(0, i as int));
            assert(sub.last() == node.operators@[i as int]);
            let ghost before = self.0@;
            match &node.operators[i] {
                ReferenceOperator::GetAttr(a) => {
                    let name = a.clone();
                    self.0.push(name);
                    assert(views(self.0@) =~= views(before).push(a@));
                    assert(attr_names(sub) == attr_names(sub.drop_last()).push(a@));
                },
                ReferenceOperator::Other => {
                    assert(attr_names(sub) == attr_names(sub.drop_last()));
                },
            }
            i = i + 1;
        }
        assert(node.operators@.subrange(0, node.operators@.len() as int) =~= node.operators@);
    }
}

/// The names of the `registry` object that evaluation declares: every
/// referenced name once, in the order of first reference.
pub fn registry_variables(names: &Vec<String>) -> (r: Vec<String>)
    ensures
        views(r@) == views(names@).remove_duplicates(Seq::empty()),
{
    let ghost all = views(names@);
    let mut out: Vec<String> = Vec::new();
    let mut i: usize = 0;
    assert(all.skip(0) =~= all);
    while i < names.len()
        invariant
            all == views(names@),
            i <= names@.len(),
            all.remove_duplicates(Seq::empty()) == all.skip(i as int).remove_duplicates(views(out@)),
        decreases names@.len() - i,
    {
        let ghost seen = views(out@);
        let ghost rest = all.skip(i as int);
        assert(rest[0] == names@[i as int]@);
        assert(rest.skip(1) =~= all.skip(i + 1));
        let mut found = false;
        let mut j: usize = 0;
        while j < out.len()
            invariant
                j <= out@.len(),
                i < names@.len(),
                seen == views(out@),
                found ==> seen.contains(names@[i as int]@),
                !found ==> forall|t: int| 0 <= t < j ==> seen[t] != names@[i as int]@,
            decreases out@.len() - j,
        {
            if str_eq(out[j].as_str(), names[i].as_str()) {
                found = true;
                assert(seen[j as int] == names@[i as int]@);
            }
            j = j + 1;
        }
        if !found {
            out.push(names[i].clone());
            assert(views(out@) =~= seen + seq![names@[i as int]@]);
        }
        i = i + 1;
    }
    assert(all.skip(names@.len() as int) =~= Seq::<Seq<char>>::empty());
    out
}

/// The names under `registry` that the HCL text `text` references, each
/// once, in the order of first reference; `None` when `text` is no HCL body.
/// These are the names that evaluating `.charted.hcl` declares.
pub fn registry_names_in(text: &str) -> (r: Option<Vec<String>>)
    ensures
        match hcl_traversals_of(text@) {
            Some(ts) => r matches Some(v) && views(v@) == all_registry_attrs(ts).remove_duplicates(Seq::empty()),
            None => r is None,
        },
{
    let ts = match hcl_traversals(text) {
        Some(ts) => ts,
        None => return None,
    };
    let mut visitor = RegistryTraversalVisitor::new();
    let mut i: usize = 0;
    assert(views(visitor.0@) =~= all_registry_attrs(ts@.take(0)));
    while i < ts.len()
        invariant
            i <= ts@.len(),
            views(visitor.0@) == all_registry_attrs(ts@.take(i as int)),
        decreases ts@.len() - i,
    {
        visitor.visit_traversal(&ts[i]);
        assert(ts@.take(i + 1).drop_last() =~= ts@.take(i as int));
        i = i + 1;
    }
    assert(ts@.take(ts@.len() as int) =~= ts@);
    Some(registry_variables(&visitor.0))
}

/// Taking duplicates out of `s` after `seen`, which holds none, leaves no
/// duplicates.
proof fn lemma_remove_duplicates_distinct(s: Seq<Seq<char>>, seen: Seq<Seq<char>>)
    requires
        seen.no_duplicates(),
    ensures
        s.remove_duplicates(seen).no_duplicates(),
    decreases s.len(),
{
    if s.len() > 0 {
        if seen.contains(s[0]) {
            lemma_remove_duplicates_distinct(s.skip(1), seen);
        } else {
            let next = seen + seq![s[0]];
            assert forall|i: int, j: int| 0 <= i < next.len() && 0 <= j < next.len() && i != j implies next[i] != next[j] by {
                if i < seen.len() && j == seen.len() {
                    assert(seen[i] == next[i]);
                }
                if j < seen.len() && i == seen.len() {
                    assert(seen[j] == next[j]);
                }
            }
            lemma_remove_duplicates_distinct(s.skip(1), next);
        }
    }
}

/// The names that evaluation declares under `registry` are exactly the
/// referenced names, each once.
pub proof fn law_registry_variables_cover(names: Seq<Seq<char>>)
    ensures
        forall|n: Seq<char>| names.contains(n) <==> #[trigger] names.remove_duplicates(Seq::empty()).contains(n),
        names.remove_duplicates(Seq::empty()).no_duplicates(),
{
    names.lemma_remove_duplicates_properties(Seq::empty());
    assert(names + Seq::<Seq<char>>::empty() =~= names);
    lemma_remove_duplicates_distinct(names, Seq::empty());
}

} // verus!
