//! Verified core of the charted Helm plugin and developer tools: API types,
//! bitflag scopes, durations, authentication contexts, `.charted.hcl`
//! configuration and the decisions that the command-line front ends make.

pub mod text;
pub mod bitflags;
pub mod scopes;
pub mod api;
pub mod build_info;
pub mod duration;
pub mod distribution;
pub mod auth;
pub mod urls;
pub mod versions;
pub mod config;
pub mod logging;
pub mod plugin;
pub mod devtools;
pub mod web;
