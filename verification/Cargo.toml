[package]
name = "charted"
version = "0.1.0"
edition = "2021"
publish = false

[dependencies]
url = { version = "=2.5.8", features = ["serde"] }
semver = "=1.0.28"
rand = "=0.9.5"
heck = "=0.5.0"
humantime = "=2.4.0"
serde = { version = "=1.0.229", features = ["derive"] }
serde_json = "=1.0.154"
serde_yaml = "=0.9.34"
hcl-rs = "=0.20.0"
similar = { version = "=2.7.0", features = ["inline"] }
which = "=8.0.6"
dirs = "=7.0.0"
clap = { version = "=4.6.7", features = ["derive", "env"] }
eyre = "=0.6.14"
cli-table = "=0.5.0"
serde_starlark = "=0.1.19"
starlark = "=0.14.2"
toml = "=1.2.1"
cargo_toml = "=1.0.1"
reqwest = { version = "=0.12.28", default-features = false, features = ["json", "multipart", "rustls-tls"] }
tokio = { version = "=1.54.1", features = ["rt-multi-thread", "macros"] }
inquire = { version = "=0.9.4", default-features = false, features = ["crossterm", "one-liners"] }
is_ci = "=1.2.0"
tracing = "=0.1.44"
tracing-subscriber = { version = "=0.3.23", default-features = false, features = ["fmt", "std"] }
owo-colors = "=4.4.0"
promptly = "=0.3.1"
schemars = "0.8"
chrono = { version = "0.4", default-features = false, features = ["clock", "std"] }
