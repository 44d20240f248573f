# charted

The verified core of the charted Helm plugin and of the charted-server
developer tools, written with Verus.

- `src/` is the library. Every function in it carries a contract that
  Verus proves:
  - `api`, `bitflags`, `scopes`, `duration`, `distribution`, `build_info`:
    the API server's types (versions, error codes, responses), the API key
    scopes and member permissions as bitfields, humane durations, and build
    information.
  - `auth`: the `auth.yaml` model, kept in the order of context names, with
    the rules for adding, deleting and selecting contexts.
  - `config`, `urls`, `versions`: `.charted.hcl` (registries, repositories,
    version requirements, `registry.<name>` references); URL and semantic
    version handling goes through the `url` and `semver` crates.
  - `plugin`: what the Helm plugin's commands decide (version checks,
    registry endpoints and answers during `push`, `charted://` URIs,
    formatting and linting steps).
  - `devtools`, `logging`, `web`: command lines and files of the developer
    tools, log levels, the web UI switch.
  - `text`: string helpers with exact specifications over `Seq<char>`.
- `tests/` runs the library on concrete values.
- `app/` is the command-line program around the library: argument parsing,
  files, processes and HTTP.
