//! What the developer tools decide: the command lines they run, when they
//! write files, how a failed command is reported, and the files that a new
//! crate starts with.

use vstd::prelude::*;
use crate::text::{concat, i64_to_decimal, signed_decimal, sort_strings, sorted, str_eq, views};

verus! {

/// How a command that ran has ended.
#[derive(Debug, Clone, Copy, PartialEq, Eq, Structural)]
pub enum CommandOutcome {
    /// It succeeded; its standard output is the result.
    Output,
    /// It exited with code 2, as a help screen does; the result is empty.
    Empty,
    /// It failed; the developer tools stop with a report.
    Failed,
}

/// The exit code a report shows: the code, or `-1` when the command was
/// ended by a signal.
pub open spec fn shown_code(code: Option<i32>) -> int {
    match code {
        Some(c) => c as int,
        None => -1,
    }
}

/// Decides how a command ended, from its success and its exit code.
pub fn command_outcome(success: bool, code: Option<i32>) -> (r: CommandOutcome)
    ensures
        r == if success {
            CommandOutcome::Output
        } else if shown_code(code) == 2 {
            CommandOutcome::Empty
        } else {
            CommandOutcome::Failed
        },
{
    if success {
        return CommandOutcome::Output;
    }
    let c: i32 = match code {
        Some(c) => c,
        None => -1,
    };
    if c == 2 {
        CommandOutcome::Empty
    } else {
        CommandOutcome::Failed
    }
}

/// The report of a failed command.
pub open spec fn spec_failure_message(code: Option<i32>, stdout: Seq<char>, stderr: Seq<char>) -> Seq<char> {
    if stdout.len() == 0 && stderr.len() == 0 {
        "command ran has failed with exit code "@ + signed_decimal(shown_code(code))
            + " but no stdout/stderr logs were captured, view above for more information."@
    } else {
        "\n-- command has failed --\n~! STDOUT !~\n"@ + stdout + "\n\n~! STDERR !~\n"@ + stderr
            + "\n\nExited with code "@ + signed_decimal(shown_code(code))
    }
}

/// Writes the report of a failed command from its exit code and output.
pub fn failure_message(code: Option<i32>, stdout: &str, stderr: &str) -> (r: String)
    ensures
        r@ == spec_failure_message(code, stdout@, stderr@),
{
    let c: i64 = match code {
        Some(c) => c as i64,
        None => -1,
    };
    let shown = i64_to_decimal(c);
    if stdout.unicode_len() == 0 && stderr.unicode_len() == 0 {
        let mut s = concat("command ran has failed with exit code ", shown.as_str());
        s.append(" but no stdout/stderr logs were captured, view above for more information.");
        s
    } else {
        let mut s = concat("\n-- command has failed --\n~! STDOUT !~\n", stdout);
        s.append("\n\n~! STDERR !~\n");
        s.append(stderr);
        s.append("\n\nExited with code ");
        s.append(shown.as_str());
        s
    }
}

/// Appends one argument.
fn push_arg(v: &mut Vec<String>, arg: &str)
    ensures
        views(final(v)@) == views(old(v)@).push(arg@),
{
    let ghost before = v@;
    v.push(String::from_str(arg));
    assert(views(v@) =~= views(before).push(arg@));
}

/// Appends every argument of `extra`, in order.
fn append_args(v: &mut Vec<String>, extra: &Vec<String>)
    ensures
        views(final(v)@) == views(old(v)@) + views(extra@),
{
    let ghost start = views(v@);
    let mut i: usize = 0;
    while i < extra.len()
        invariant
            i <= extra@.len(),
            views(v@) == start + views(extra@.subrange(0, i as int)),
        decreases extra@.len() - i,
    {
        push_arg(v, extra[i].as_str());
        assert(views(extra@.subrange(0, i + 1)) =~= views(extra@.subrange(0, i as int)).push(extra@[i as int]@));
        i = i + 1;
        assert(views(v@) =~= start + views(extra@.subrange(0, i as int)));
    }
    assert(extra@.subrange(0, extra@.len() as int) =~= extra@);
}

/// The `cargo` arguments that build or run the Helm plugin.
pub open spec fn spec_helm_plugin_args(release: bool, run: bool, cargo_args: Seq<Seq<char>>, args: Seq<Seq<char>>) -> Seq<Seq<char>> {
    seq![if run { "run"@ } else { "build"@ }, "--locked"@]
        + (if release { seq!["--release"@] } else { Seq::empty() })
        + seq!["--bin"@, "charted-helm-plugin"@]
        + cargo_args
        + (if run && args.len() > 0 { seq!["--"@] + args } else { Seq::empty() })
}

/// `--release` is among the arguments that build or run the Helm plugin
/// exactly when a release build is asked for (the extra arguments holding
/// no `--release` of their own), and the command is `run` exactly when the
/// plugin is run.
pub proof fn law_release_only_when_asked(release: bool, run: bool, cargo_args: Seq<Seq<char>>, args: Seq<Seq<char>>)
    requires
        !cargo_args.contains("--release"@),
        !args.contains("--release"@),
    ensures
        spec_helm_plugin_args(release, run, cargo_args, args).contains("--release"@) <==> release,
        spec_helm_plugin_args(release, run, cargo_args, args)[0] == (if run { "run"@ } else { "build"@ }),
{
    reveal_strlit("--release");
    reveal_strlit("run");
    reveal_strlit("build");
    reveal_strlit("--locked");
    reveal_strlit("--bin");
    reveal_strlit("charted-helm-plugin");
    reveal_strlit("--");
    assert("--release"@.len() == 9);
    assert("run"@.len() == 3);
    assert("build"@.len() == 5);
    assert("--locked"@.len() == 8);
    assert("--bin"@.len() == 5);
    assert("charted-helm-plugin"@.len() == 19);
    assert("--"@.len() == 2);
    let s = spec_helm_plugin_args(release, run, cargo_args, args);
    let head = seq![if run { "run"@ } else { "build"@ }, "--locked"@];
    let rel: Seq<Seq<char>> = if release { seq!["--release"@] } else { Seq::empty() };
    let mid = seq!["--bin"@, "charted-helm-plugin"@];
    let tail: Seq<Seq<char>> = if run && args.len() > 0 { seq!["--"@] + args } else { Seq::empty() };
    assert(s =~= head + rel + mid + cargo_args + tail);
    if release {
        assert(s[2] == "--release"@);
    } else {
        assert forall|i: int| 0 <= i < s.len() implies s[i] != "--release"@ by {
            let c0 = 4 + cargo_args.len();
            if i < 2 {
                assert(s[i] == head[i]);
            } else if i < 4 {
                assert(s[i] == mid[i - 2]);
            } else if i < c0 {
                assert(s[i] == cargo_args[i - 4]);
                assert(!cargo_args.contains("--release"@));
            } else if i == c0 {
                assert(s[i] == "--"@);
            } else {
                assert(s[i] == args[i - c0 - 1]);
                assert(!args.contains("--release"@));
            }
        }
    }
}

/// The `cargo` arguments that build the Helm plugin, or run it with `args`.
pub fn helm_plugin_cargo_args(release: bool, run: bool, cargo_args: &Vec<String>, args: &Vec<String>) -> (r: Vec<String>)
    ensures
        views(r@) == spec_helm_plugin_args(release, run, views(cargo_args@), views(args@)),
{
    let mut v: Vec<String> = Vec::new();
    push_arg(&mut v, if run { "run" } else { "build" });
    push_arg(&mut v, "--locked");
    if release {
        push_arg(&mut v, "--release");
    }
    push_arg(&mut v, "--bin");
    push_arg(&mut v, "charted-helm-plugin");
    append_args(&mut v, cargo_args);
    if run && args.len() > 0 {
        push_arg(&mut v, "--");
        append_args(&mut v, args);
    }
    proof {
        let c = views(cargo_args@);
        let a = views(args@);
        let head = seq![if run { "run"@ } else { "build"@ }, "--locked"@];
        let rel: Seq<Seq<char>> = if release { seq!["--release"@] } else { Seq::empty() };
        let tail: Seq<Seq<char>> = if run && args@.len() > 0 { seq!["--"@] + a } else { Seq::empty() };
        assert(views(v@) =~= head + rel + seq!["--bin"@, "charted-helm-plugin"@] + c + tail);
    }
    v
}

/// The `RUSTFLAGS` that the Helm plugin is built with: `--cfg tokio_unstable`,
/// then the extra flags given, if any.
pub fn helm_plugin_rustflags(extra: Option<&str>) -> (r: String)
    ensures
        r@ == match extra {
            Some(e) => if e@.len() > 0 { "--cfg tokio_unstable"@ + " "@ + e@ } else { "--cfg tokio_unstable"@ },
            None => "--cfg tokio_unstable"@,
        },
{
    let mut flags = String::from_str("--cfg tokio_unstable");
    match extra {
        Some(e) => {
            if e.unicode_len() > 0 {
                flags.append(" ");
                flags.append(e);
            }
        },
        None => {},
    }
    flags
}

/// The `bun` arguments of the web distribution: `--build --run` previews,
/// `--build` builds, anything else runs the development server.
pub open spec fn spec_bun_args(build: bool, run: bool) -> Seq<Seq<char>> {
    (if build && run {
        seq!["run"@, "preview"@]
    } else if build {
        seq!["run"@, "build"@]
    } else {
        seq!["run"@, "dev"@]
    }) + seq!["--"@, "--clearScreen=false"@]
}

/// The `bun` arguments of the web distribution.
pub fn bun_args(build: bool, run: bool) -> (r: Vec<String>)
    ensures
        views(r@) == spec_bun_args(build, run),
{
    let mut v: Vec<String> = Vec::new();
    push_arg(&mut v, "run");
    if build && run {
        push_arg(&mut v, "preview");
    } else if build {
        push_arg(&mut v, "build");
    } else {
        push_arg(&mut v, "dev");
    }
    push_arg(&mut v, "--");
    push_arg(&mut v, "--clearScreen=false");
    assert(views(v@) =~= spec_bun_args(build, run));
    v
}

/// The `docker` arguments that tear the compose project down.
pub fn compose_down_args(project: &str, remove_orphans: bool, volumes: bool) -> (r: Vec<String>)
    ensures
        views(r@) == seq!["compose"@, "-f"@, project@, "down"@]
            + (if remove_orphans { seq!["--remove-orphans"@] } else { Seq::empty() })
            + (if volumes { seq!["-v"@] } else { Seq::empty() }),
{
    let mut v: Vec<String> = Vec::new();
    push_arg(&mut v, "compose");
    push_arg(&mut v, "-f");
    push_arg(&mut v, project);
    push_arg(&mut v, "down");
    if remove_orphans {
        push_arg(&mut v, "--remove-orphans");
    }
    if volumes {
        push_arg(&mut v, "-v");
    }
    proof {
        let ro: Seq<Seq<char>> = if remove_orphans { seq!["--remove-orphans"@] } else { Seq::empty() };
        let vo: Seq<Seq<char>> = if volumes { seq!["-v"@] } else { Seq::empty() };
        assert(views(v@) =~= seq!["compose"@, "-f"@, project@, "down"@] + ro + vo);
    }
    v
}

/// The `docker` arguments that show the compose project's logs.
pub fn compose_logs_args(project: &str) -> (r: Vec<String>)
    ensures
        views(r@) == seq!["compose"@, "-f"@, project@, "logs"@],
{
    let mut v: Vec<String> = Vec::new();
    push_arg(&mut v, "compose");
    push_arg(&mut v, "-f");
    push_arg(&mut v, project);
    push_arg(&mut v, "logs");
    assert(views(v@) =~= seq!["compose"@, "-f"@, project@, "logs"@]);
    v
}

/// The `docker` arguments that start the compose project, with the profile
/// of each search backend asked for.
pub fn compose_up_args(file: &str, elastic: bool, meili: bool) -> (r: Vec<String>)
    ensures
        views(r@) == seq!["compose"@, "-f"@, file@, "up"@, "-d"@, "--wait"@]
            + (if elastic { seq!["--profile"@, "elasticsearch"@] } else { Seq::empty() })
            + (if meili { seq!["--profile"@, "meilisearch"@] } else { Seq::empty() }),
{
    let mut v: Vec<String> = Vec::new();
    push_arg(&mut v, "compose");
    push_arg(&mut v, "-f");
    push_arg(&mut v, file);
    push_arg(&mut v, "up");
    push_arg(&mut v, "-d");
    push_arg(&mut v, "--wait");
    if elastic {
        push_arg(&mut v, "--profile");
        push_arg(&mut v, "elasticsearch");
    }
    if meili {
        push_arg(&mut v, "--profile");
        push_arg(&mut v, "meilisearch");
    }
    proof {
        let e: Seq<Seq<char>> = if elastic { seq!["--profile"@, "elasticsearch"@] } else { Seq::empty() };
        let m: Seq<Seq<char>> = if meili { seq!["--profile"@, "meilisearch"@] } else { Seq::empty() };
        assert(views(v@) =~= seq!["compose"@, "-f"@, file@, "up"@, "-d"@, "--wait"@] + e + m);
    }
    v
}

/// Whether a file of the development setup is written: when it is missing
/// or `--overwrite` is given.
pub fn should_write(present: bool, overwrite: bool) -> (r: bool)
    ensures
        r == (!present || overwrite),
{
    !present || overwrite
}

/// `--elastic` and `--meili` exclude each other.
pub fn search_backends_conflict(elastic: bool, meili: bool) -> (r: bool)
    ensures
        r == (elastic && meili),
{
    elastic && meili
}

/// The Docker network that the compose project joins.
pub const FLUFF_NETWORK: &'static str = "fluff";

/// An optional name that is `name`.
pub open spec fn is_named(o: Option<String>, name: Seq<char>) -> bool {
    match o {
        Some(n) => n@ == name,
        None => false,
    }
}

/// Whether one of the networks, by their optional names, is named `name`.
pub fn has_network(names: &Vec<Option<String>>, name: &str) -> (r: bool)
    ensures
        r == exists|i: int| 0 <= i < names@.len() && is_named(#[trigger] names@[i], name@),
{
    let mut i: usize = 0;
    while i < names.len()
        invariant
            i <= names@.len(),
            forall|j: int| 0 <= j < i ==> !is_named(#[trigger] names@[j], name@),
        decreases names@.len() - i,
    {
        match &names[i] {
            Some(n) => {
                if str_eq(n.as_str(), name) {
                    assert(is_named(names@[i as int], name@));
                    return true;
                }
            },
            None => {},
        }
        i = i + 1;
    }
    false
}

/// `--config {path}` for each path, in order.
pub open spec fn config_flags(paths: Seq<Seq<char>>) -> Seq<Seq<char>>
    decreases paths.len(),
{
    if paths.len() == 0 {
        Seq::empty()
    } else {
        config_flags(paths.drop_last()) + seq!["--config"@, paths.last()]
    }
}

/// The arguments of `charted server`: the configuration file given, else
/// each default location that exists (`config.yml`, then
/// `config/charted.yaml`), then `--print-config` when asked for.
pub open spec fn spec_server_args(config: Option<Seq<char>>, existing_defaults: Seq<Seq<char>>, print_config: bool) -> Seq<Seq<char>> {
    seq!["server"@]
        + (match config {
            Some(c) => seq!["--config"@, c],
            None => config_flags(existing_defaults),
        })
        + (if print_config { seq!["--print-config"@] } else { Seq::empty() })
}

/// The arguments of `charted server`.
pub fn server_args(config: Option<&str>, existing_defaults: &Vec<String>, print_config: bool) -> (r: Vec<String>)
    ensures
        views(r@) == spec_server_args(
            match config {
                Some(c) => Some(c@),
                None => None,
            },
            views(existing_defaults@),
            print_config,
        ),
{
    let mut v: Vec<String> = Vec::new();
    push_arg(&mut v, "server");
    let ghost after_server = views(v@);
    match config {
        Some(c) => {
            push_arg(&mut v, "--config");
            push_arg(&mut v, c);
            assert(views(v@) =~= after_server + seq!["--config"@, c@]);
        },
        None => {
            let mut i: usize = 0;
            while i < existing_defaults.len()
                invariant
                    i <= existing_defaults@.len(),
                    views(v@) == after_server + config_flags(views(existing_defaults@.subrange(0, i as int))),
                decreases existing_defaults@.len() - i,
            {
                let ghost prefix = views(existing_defaults@.subrange(0, i + 1));
                assert(prefix.drop_last() =~= views(existing_defaults@.subrange(0, i as int)));
                assert(prefix.last() == existing_defaults@[i as int]@);
                push_arg(&mut v, "--config");
                push_arg(&mut v, existing_defaults[i].as_str());
                i = i + 1;
                assert(views(v@) =~= after_server + config_flags(views(existing_defaults@.subrange(0, i as int))));
            }
            assert(existing_defaults@.subrange(0, existing_defaults@.len() as int) =~= existing_defaults@);
        },
    }
    let ghost before_print = views(v@);
    if print_config {
        push_arg(&mut v, "--print-config");
    }
    assert(views(v@) =~= before_print + (if print_config { seq!["--print-config"@] } else { Seq::<Seq<char>>::empty() }));
    v
}

/// Whether the CLI is run after it is built: when arguments are passed to
/// it, or `--run` is given.
pub fn cli_runs(argument_count: usize, run: bool) -> (r: bool)
    ensures
        r == (argument_count > 0 || run),
{
    if argument_count == 0 {
        run
    } else {
        true
    }
}

/// Where a value that the generator needs comes from.
pub enum Pick {
    /// It was given on the command line.
    Given(String),
    /// Ask for it on the terminal.
    Ask,
    /// There is no terminal to ask on; stop with code 1.
    Refuse,
}

/// Takes a value from the command line, else asks for it when there is a
/// terminal.
pub fn pick_argument(given: Option<String>, in_terminal: bool) -> (r: Pick)
    ensures
        match given {
            Some(g) => r matches Pick::Given(v) && v@ == g@,
            None => if in_terminal { r is Ask } else { r is Refuse },
        },
{
    match given {
        Some(g) => Pick::Given(g),
        None => if in_terminal {
            Pick::Ask
        } else {
            Pick::Refuse
        },
    }
}

/// `heck`'s kebab case of `s`.
pub uninterp spec fn kebab_case(s: Seq<char>) -> Seq<char>;

/// Converts `s` to kebab case with `heck::ToKebabCase::to_kebab_case`.
#[verifier::external_body]
fn to_kebab_case(s: &str) -> (r: String)
    ensures
        r@ == kebab_case(s@),
{
    heck::ToKebabCase::to_kebab_case(s)
}

/// The name of a generated crate: `charted-{name}` in kebab case.
pub fn crate_name(name: &str) -> (r: String)
    ensures
        r@ == kebab_case("charted-"@ + name@),
{
    let full = concat("charted-", name);
    to_kebab_case(full.as_str())
}

/// The workspace members with a new one added, in ascending order.
pub fn add_member(members: Vec<String>, member: &str) -> (r: Vec<String>)
    ensures
        sorted(views(r@)),
        views(r@).to_multiset() == views(members@).push(member@).to_multiset(),
{
    let mut all = members;
    let ghost before = all@;
    all.push(String::from_str(member));
    assert(views(all@) =~= views(before).push(member@));
    sort_strings(all)
}

/// The Bazel target of a crate's manifest: `//{path}:Cargo.toml`.
pub fn manifest_target(path: &str) -> (r: String)
    ensures
        r@ == "//"@ + path@ + ":Cargo.toml"@,
{
    let mut s = concat("//", path);
    s.append(":Cargo.toml");
    s
}

/// How `serde_starlark` writes `identifier = [items...]`, or `None` when it
/// fails.
pub uninterp spec fn starlark_assignment(identifier: Seq<char>, items: Seq<Seq<char>>) -> Option<Seq<char>>;

/// Writes `identifier = [items...]` with `serde_starlark::to_string`.
#[verifier::external_body]
fn assignment_text(identifier: &str, items: &Vec<String>) -> (r: Option<String>)
    ensures
        match r {
            Some(s) => starlark_assignment(identifier@, views(items@)) == Some(s@),
            None => starlark_assignment(identifier@, views(items@)) is None,
        },
{
    serde_starlark::to_string(&serde_starlark::Assignment::new(identifier, items)).ok()
}

/// The licence header of TOML and Starlark files.
pub const TOML_LICENSE_HEADER: &'static str = "# \u{1f43b}\u{200d}\u{2744}\u{fe0f}\u{1f4e6} charted-server: Free, open source, and reliable Helm Chart registry made in Rust\n# Copyright 2022-2024 Noelware, LLC. <team@noelware.org>\n#\n# Licensed under the Apache License, Version 2.0 (the \"License\");\n# you may not use this file except in compliance with the License.\n# You may obtain a copy of the License at\n#\n#    http://www.apache.org/licenses/LICENSE-2.0\n#\n# Unless required by applicable law or agreed to in writing, software\n# distributed under the License is distributed on an \"AS IS\" BASIS,\n# WITHOUT WARRANTIES OR CONDITIONS OF ANY KIND, either express or implied.\n# See the License for the specific language governing permissions and\n# limitations under the License.";

/// The older licence header of TOML and Starlark files.
pub const LICENSE: &'static str = "# \u{1f43b}\u{200d}\u{2744}\u{fe0f}\u{1f4e6} charted-server: Free, open source, and reliable Helm Chart registry made in Rust\n# Copyright 2022-2023 Noelware, LLC. <team@noelware.org>\n#\n# Licensed under the Apache License, Version 2.0 (the \"License\");\n# you may not use this file except in compliance with the License.\n# You may obtain a copy of the License at\n#\n#    http://www.apache.org/licenses/LICENSE-2.0\n#\n# Unless required by applicable law or agreed to in writing, software\n# distributed under the License is distributed on an \"AS IS\" BASIS,\n# WITHOUT WARRANTIES OR CONDITIONS OF ANY KIND, either express or implied.\n# See the License for the specific language governing permissions and\n# limitations under the License.";

/// The licence header of Rust files.
pub const RUST_LICENSE_HEADER: &'static str = "// \u{1f43b}\u{200d}\u{2744}\u{fe0f}\u{1f4e6} charted-server: Free, open source, and reliable Helm Chart registry made in Rust\n// Copyright 2022-2024 Noelware, LLC. <team@noelware.org>\n//\n// Licensed under the Apache License, Version 2.0 (the \"License\");\n// you may not use this file except in compliance with the License.\n// You may obtain a copy of the License at\n//\n//    http://www.apache.org/licenses/LICENSE-2.0\n//\n// Unless required by applicable law or agreed to in writing, software\n// distributed under the License is distributed on an \"AS IS\" BASIS,\n// WITHOUT WARRANTIES OR CONDITIONS OF ANY KIND, either express or implied.\n// See the License for the specific language governing permissions and\n// limitations under the License.";

/// The older licence header of Rust files.
pub const RUST_LICENSE: &'static str = "// \u{1f43b}\u{200d}\u{2744}\u{fe0f}\u{1f4e6} charted-server: Free, open source, and reliable Helm Chart registry made in Rust\n// Copyright 2022-2023 Noelware, LLC. <team@noelware.org>\n//\n// Licensed under the Apache License, Version 2.0 (the \"License\");\n// you may not use this file except in compliance with the License.\n// You may obtain a copy of the License at\n//\n//    http://www.apache.org/licenses/LICENSE-2.0\n//\n// Unless required by applicable law or agreed to in writing, software\n// distributed under the License is distributed on an \"AS IS\" BASIS,\n// WITHOUT WARRANTIES OR CONDITIONS OF ANY KIND, either express or implied.\n// See the License for the specific language governing permissions and\n// limitations under the License.";

/// The description that a generated crate starts with.
pub const CRATE_DESCRIPTION: &'static str = "\u{1f43b}\u{200d}\u{2744}\u{fe0f}\u{1f4e6} TODO: fill this out";

/// The variable of `build/manifests.bzl` that lists the Cargo manifests.
pub const CARGO_MANIFESTS: &'static str = "CARGO_MANIFESTS";

/// The contents of `build/manifests.bzl` around the assignment `repr`.
pub open spec fn spec_manifests_file(repr: Seq<char>) -> Seq<char> {
    LICENSE@ + "\n\n# buildifier: disable=module-docstring\n"@ + repr + "\n"@
}

/// The new contents of `build/manifests.bzl` for the list of manifests,
/// or `None` when the assignment cannot be written.
pub fn manifests_file(manifests: &Vec<String>) -> (r: Option<String>)
    ensures
        match starlark_assignment(CARGO_MANIFESTS@, views(manifests@)) {
            Some(repr) => r matches Some(f) && f@ == spec_manifests_file(repr),
            None => r is None,
        },
{
    match assignment_text(CARGO_MANIFESTS, manifests) {
        Some(repr) => {
            let mut f = concat(LICENSE, "\n\n# buildifier: disable=module-docstring\n");
            f.append(repr.as_str());
            f.append("\n");
            Some(f)
        },
        None => None,
    }
}

/// The strings of the list that the Starlark module `contents` binds to the
/// exported name `name`, as `starlark` evaluates it in its standard dialect:
/// `None` when the module does not parse or evaluate, when it exports no
/// such name, or when the value is not a list of strings.
pub uninterp spec fn starlark_string_list(contents: Seq<char>, name: Seq<char>) -> Option<Seq<Seq<char>>>;

/// Evaluates `contents` with `starlark` (`AstModule::parse`,
/// `Evaluator::eval_module` on a module of `Module::with_temp_heap` with the
/// standard globals) and reads the exported list of strings `name` through
/// `Value::to_json_value`. The standard dialect has no unbounded loop or
/// recursion, so the evaluation ends; how long it takes is not stated.
#[verifier::external_body]
fn starlark_list(contents: &str, name: &str) -> (r: Option<Vec<String>>)
    ensures
        match r {
            Some(v) => starlark_string_list(contents@, name@) == Some(views(v@)),
            None => starlark_string_list(contents@, name@) is None,
        },
{
    let dialect = starlark::syntax::Dialect::Standard;
    let ast = starlark::syntax::AstModule::parse("build/manifests.bzl", contents.to_string(), &dialect).ok()?;
    let globals = starlark::environment::Globals::standard();
    let json = starlark::environment::Module::with_temp_heap(|module| {
        starlark::eval::Evaluator::new(&module).eval_module(ast, &globals).ok()?;
        module.get(name)?.to_json_value().ok()
    })?;
    json.as_array()?.iter().map(|v| v.as_str().map(|s| s.to_string())).collect()
}

/// The contents of `build/manifests.bzl` for the manifests `v`, as
/// `manifests_file` writes them.
pub open spec fn manifests_file_for(v: Seq<Seq<char>>) -> Option<Seq<char>> {
    match starlark_assignment(CARGO_MANIFESTS@, v) {
        Some(repr) => Some(spec_manifests_file(repr)),
        None => None,
    }
}

/// The new contents of `build/manifests.bzl` (whose text is `contents`)
/// once `manifest` is added to its `CARGO_MANIFESTS` list: the list, with
/// the new manifest, in ascending order. `None` when the file has no such
/// list of strings or the new assignment cannot be written.
pub fn updated_manifests(contents: &str, manifest: &str) -> (r: Option<String>)
    ensures
        match starlark_string_list(contents@, CARGO_MANIFESTS@) {
            None => r is None,
            Some(items) => exists|v: Seq<Seq<char>>|
                #[trigger] sorted(v) && v.to_multiset() == items.push(manifest@).to_multiset()
                    && (match r {
                        Some(f) => Some(f@),
                        None => None::<Seq<char>>,
                    }) == manifests_file_for(v),
        },
{
    match starlark_list(contents, CARGO_MANIFESTS) {
        None => None,
        Some(items) => {
            let all = add_member(items, manifest);
            let r = manifests_file(&all);
            assert(sorted(views(all@)));
            r
        },
    }
}

/// A file made of a licence header, a blank line and `body`.
pub fn with_header(header: &str, body: &str) -> (r: String)
    ensures
        r@ == header@ + "\n\n"@ + body@,
{
    let mut s = concat(header, "\n\n");
    s.append(body);
    s
}

/// The `[package]` table of a crate made by `generate rust-mod`, which
/// takes its fields from the workspace.
pub open spec fn spec_crate_manifest(name: Seq<char>) -> Seq<char> {
    "[package]\nname = \""@ + name + "\"\ndescription = \""@ + CRATE_DESCRIPTION@
        + "\"\nversion.workspace = true\nedition.workspace = true\nhomepage.workspace = true\nauthors.workspace = true\nrust-version.workspace = true\n"@
}

/// The `[package]` table of a crate made by `generate rust-mod`.
pub fn crate_manifest(name: &str) -> (r: String)
    ensures
        r@ == spec_crate_manifest(name@),
{
    let mut s = concat("[package]\nname = \"", name);
    s.append("\"\ndescription = \"");
    s.append(CRATE_DESCRIPTION);
    s.append("\"\nversion.workspace = true\nedition.workspace = true\nhomepage.workspace = true\nauthors.workspace = true\nrust-version.workspace = true\n");
    s
}

/// The `[package]` table of a crate made by `generate crate`.
pub open spec fn spec_module_manifest(name: Seq<char>) -> Seq<char> {
    "[package]\nname = \"charted-"@ + name + "\"\ndescription = \""@ + CRATE_DESCRIPTION@
        + "\"\nversion = \"0.0.0-devel.0\"\nedition = \"2021\"\nhomepage = \"https://charts.noelware.org\"\nauthors = [\"Noel Towa <cutie@floofy.dev>\", \"Noelware Team <team@noelware.org>\"]\n"@
}

/// The `[package]` table of a crate made by `generate crate`.
pub fn module_manifest(name: &str) -> (r: String)
    ensures
        r@ == spec_module_manifest(name@),
{
    let mut s = concat("[package]\nname = \"charted-", name);
    s.append("\"\ndescription = \"");
    s.append(CRATE_DESCRIPTION);
    s.append("\"\nversion = \"0.0.0-devel.0\"\nedition = \"2021\"\nhomepage = \"https://charts.noelware.org\"\nauthors = [\"Noel Towa <cutie@floofy.dev>\", \"Noelware Team <team@noelware.org>\"]\n");
    s
}

/// The `BUILD.bazel` of a crate made by `generate crate`.
pub open spec fn spec_module_build_file(name: Seq<char>) -> Seq<char> {
    "load(\"//:build/rust.bzl\", \"rust_project\")\n\nexports_files([\"Cargo.toml\"])\n\nrust_project(\n    name = \""@
        + name + "\",\n)"@
}

/// The `BUILD.bazel` of a crate made by `generate crate`.
pub fn module_build_file(name: &str) -> (r: String)
    ensures
        r@ == spec_module_build_file(name@),
{
    let mut s = concat(
        "load(\"//:build/rust.bzl\", \"rust_project\")\n\nexports_files([\"Cargo.toml\"])\n\nrust_project(\n    name = \"",
        name,
    );
    s.append("\",\n)");
    s
}

/// Where Bazel is and which `.bazelrc` files it reads.
pub struct CommonBazelArgs {
    /// Location of a `bazel` binary.
    pub bazel: Option<String>,
    /// `.bazelrc` files to include; `/dev/null` stops the search for more.
    pub bazelrc: Vec<String>,
}

/// The options of `generate crate`.
pub struct RustModule {
    /// Location of a `bazel` binary.
    pub bazel: Option<String>,
    /// The crate's name, asked for when missing and a terminal is there.
    pub name: Option<String>,
    /// Where the crate goes, inside the workspace.
    pub location: Option<String>,
}

/// The options of the command that builds and runs the API server.
pub struct Server {
    /// Whether the server prints its configuration.
    pub print_config: bool,
    /// The configuration file to use.
    pub config: Option<String>,
    /// Whether the release binary is built.
    pub release: bool,
    /// `.bazelrc` files to include.
    pub bazelrc: Vec<String>,
    /// Location of a `bazel` binary.
    pub bazel: Option<String>,
}

impl Server {
    /// The arguments the server is run with, given the default
    /// configuration files that exist.
    pub fn arguments(&self, existing_defaults: &Vec<String>) -> (r: Vec<String>)
        ensures
            views(r@) == spec_server_args(
                match self.config {
                    Some(c) => Some(c@),
                    None => None,
                },
                views(existing_defaults@),
                self.print_config,
            ),
    {
        match &self.config {
            Some(c) => server_args(Some(c.as_str()), existing_defaults, self.print_config),
            None => server_args(None, existing_defaults, self.print_config),
        }
    }
}

/// A service of the server that the developer tools build and run.
pub trait Service {
    /// The Bazel targets of the service: the release target, then the
    /// development target.
    fn targets(&self) -> (&'static str, &'static str);
}

/// The target that is built: the release target with `--release`, else the
/// development target.
pub fn service_target(targets: (&'static str, &'static str), release: bool) -> (r: &'static str)
    ensures
        r == if release { targets.0 } else { targets.1 },
{
    if release {
        targets.0
    } else {
        targets.1
    }
}

/// A command of the CI tool.
#[derive(Debug, Clone, Copy, PartialEq, Eq, Structural)]
pub enum CiCommand {
    /// Write the JSON schema of `.charted.hcl`.
    JsonSchema,
    /// Write the OpenAPI document of the server.
    OpenApi,
    /// Any other command; print the help and stop with code 1.
    Unknown,
    /// No command; print the help and stop with code 1.
    Missing,
}

/// The ASCII lower case of a character.
pub open spec fn ascii_lower(c: char) -> char {
    if 'A' <= c <= 'Z' { ((c as u32) + 32) as char } else { c }
}

/// The ASCII lower case of a text, as `str::to_ascii_lowercase` gives it.
pub open spec fn ascii_lowercase(s: Seq<char>) -> Seq<char> {
    s.map_values(|c: char| ascii_lower(c))
}

/// Lowers the ASCII letters of `s`.
pub fn to_ascii_lowercase(s: &str) -> (r: String)
    ensures
        r@ == ascii_lowercase(s@),
{
    let cs = crate::text::chars_of(s);
    let mut out = String::new();
    let mut i: usize = 0;
    while i < cs.len()
        invariant
            cs@ == s@,
            i <= cs@.len(),
            out@ == ascii_lowercase(s@.subrange(0, i as int)),
        decreases cs@.len() - i,
    {
        let c = cs[i];
        let lower = if 'A' <= c && c <= 'Z' {
            let code: u8 = (c as u8) + 32;
            code as char
        } else {
            c
        };
        crate::text::push_char(&mut out, lower);
        i = i + 1;
        assert(out@ =~= ascii_lowercase(s@.subrange(0, i as int)));
    }
    assert(s@.subrange(0, s@.len() as int) =~= s@);
    out
}

/// Picks the CI tool's command from its first argument, in any letter case.
pub fn ci_command(arg: Option<&str>) -> (r: CiCommand)
    ensures
        r == match arg {
            None => CiCommand::Missing,
            Some(a) => if ascii_lowercase(a@) == "jsonschema"@ {
                CiCommand::JsonSchema
            } else if ascii_lowercase(a@) == "openapi"@ {
                CiCommand::OpenApi
            } else {
                CiCommand::Unknown
            },
        },
{
    match arg {
        None => CiCommand::Missing,
        Some(a) => {
            let lower = to_ascii_lowercase(a);
            if str_eq(lower.as_str(), "jsonschema") {
                CiCommand::JsonSchema
            } else if str_eq(lower.as_str(), "openapi") {
                CiCommand::OpenApi
            } else {
                CiCommand::Unknown
            }
        },
    }
}

} // verus!
