//! Which distribution of charted-server is running.

use vstd::prelude::*;
use crate::text::{str_contains, str_eq, seq_contains};

verus! {

/// The kind of distribution that charted-server runs as.
#[derive(Debug, Clone, Copy, PartialEq, Eq, Structural)]
pub enum Distribution {
    /// Running on a Kubernetes cluster.
    Kubernetes,
    /// This build of charted-server was built from source.
    FromSource,
    /// Running as a Docker container.
    Docker,
    /// Running from a Nix flake.
    Nix,
    /// Uses a locally built binary from the host.
    Git,
}

impl Default for Distribution {
    fn default() -> (r: Distribution)
        ensures
            r == Distribution::FromSource,
    {
        Distribution::FromSource
    }
}

/// The distribution tag that this build was compiled with.
pub const BUILD_DISTRIBUTION: &'static str = "git";

/// The distribution that a build tag names; unknown tags and no tag mean a
/// build from source.
pub open spec fn spec_from_build_tag(tag: Option<Seq<char>>) -> Distribution {
    match tag {
        Some(t) => if t == "docker"@ {
            Distribution::Docker
        } else if t == "git"@ {
            Distribution::Git
        } else if t == "nix"@ {
            Distribution::Nix
        } else {
            Distribution::FromSource
        },
        None => Distribution::FromSource,
    }
}

/// The distribution that is detected: Kubernetes first, then Docker, then
/// what the build tag says.
pub open spec fn spec_detect(in_k8s: bool, in_docker: bool, tag: Option<Seq<char>>) -> Distribution {
    if in_k8s {
        Distribution::Kubernetes
    } else if in_docker {
        Distribution::Docker
    } else {
        spec_from_build_tag(tag)
    }
}

/// Whether the contents of `/proc/self/cgroup` show a Docker container.
pub fn cgroup_mentions_docker(contents: &str) -> (r: bool)
    ensures
        r == seq_contains(contents@, "docker"@),
{
    str_contains(contents, "docker")
}

/// Whether the host shows a Kubernetes pod: the service host variable is
/// set, or the service account token exists, or the namespace file exists.
/// `None` stands for a path whose existence could not be checked.
pub fn k8s_detected(service_host_set: bool, token_file: Option<bool>, namespace_file: Option<bool>) -> (r: bool)
    ensures
        r == (service_host_set || token_file == Some(true) || namespace_file == Some(true)),
{
    if service_host_set {
        return true;
    }
    let token = match token_file {
        Some(t) => t,
        None => false,
    };
    let namespace = match namespace_file {
        Some(n) => n,
        None => false,
    };
    token || namespace
}

/// Whether the host shows a Docker container: `/.dockerenv` exists, or the
/// contents of `/proc/self/cgroup`, when they could be read, mention docker.
pub fn docker_detected(has_dockerenv: bool, cgroup: Option<&str>) -> (r: bool)
    ensures
        r == (has_dockerenv || match cgroup {
            Some(c) => seq_contains(c@, "docker"@),
            None => false,
        }),
{
    if has_dockerenv {
        return true;
    }
    match cgroup {
        Some(c) => cgroup_mentions_docker(c),
        None => false,
    }
}

impl Distribution {
    /// The distribution that a build tag names.
    pub fn from_build_tag(tag: Option<&str>) -> (r: Distribution)
        ensures
            r == spec_from_build_tag(match tag { Some(t) => Some(t@), None => None }),
    {
        match tag {
            Some(t) => if str_eq(t, "docker") {
                Distribution::Docker
            } else if str_eq(t, "git") {
                Distribution::Git
            } else if str_eq(t, "nix") {
                Distribution::Nix
            } else {
                Distribution::FromSource
            },
            None => Distribution::FromSource,
        }
    }

    /// Detects the distribution from what the host shows: whether it runs in
    /// a Kubernetes pod (`in_k8s`), whether it runs in a Docker container
    /// (`in_docker`), and otherwise the tag the build was compiled with.
    pub fn detect(in_k8s: bool, in_docker: bool) -> (r: Distribution)
        ensures
            r == spec_detect(in_k8s, in_docker, Some(BUILD_DISTRIBUTION@)),
    {
        if in_k8s {
            return Distribution::Kubernetes;
        }
        if in_docker {
            return Distribution::Docker;
        }
        Distribution::from_build_tag(Some(BUILD_DISTRIBUTION))
    }

    /// The serialized name of the distribution.
    pub open spec fn spec_name(self) -> Seq<char> {
        match self {
            Distribution::Kubernetes => "kubernetes"@,
            Distribution::FromSource => "from_source"@,
            Distribution::Docker => "docker"@,
            Distribution::Nix => "nix"@,
            Distribution::Git => "git"@,
        }
    }

    /// The humane description of the distribution, as `Display` writes it.
    pub open spec fn spec_description(self) -> Seq<char> {
        match self {
            Distribution::Kubernetes => "kubernetes"@,
            Distribution::Docker => "docker"@,
            Distribution::Nix => "nix package manager"@,
            Distribution::Git => "git"@,
            Distribution::FromSource => "«from source»"@,
        }
    }

    /// Returns the serialized name of the distribution.
    pub fn name(&self) -> (r: &'static str)
        ensures
            r@ == self.spec_name(),
    {
        match self {
            Distribution::Kubernetes => "kubernetes",
            Distribution::FromSource => "from_source",
            Distribution::Docker => "docker",
            Distribution::Nix => "nix",
            Distribution::Git => "git",
        }
    }

    /// Returns the humane description of the distribution.
    pub fn description(&self) -> (r: &'static str)
        ensures
            r@ == self.spec_description(),
    {
        match self {
            Distribution::Kubernetes => "kubernetes",
            Distribution::Docker => "docker",
            Distribution::Nix => "nix package manager",
            Distribution::Git => "git",
            Distribution::FromSource => "«from source»",
        }
    }
}

} // verus!
