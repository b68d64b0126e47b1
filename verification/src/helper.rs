//! The privileged helper of the macOS service: where it lives, who may own it, and
//! how an installation moves over to it.
pub mod ipc_mode;
pub mod launchd;
pub mod migration;
pub mod migration_runs;
pub mod paths;
pub mod start;
pub mod validate;
