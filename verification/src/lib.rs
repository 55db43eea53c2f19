//! Control-plane core for launching, observing and steering external
//! processes: a single-flight deployment supervisor, a classifier for the
//! lines a deployment prints, and a registry of interactive remote shells.
//!
//! The library decides and the program around it acts: the library never
//! starts a process, reads a stream or touches a file. It is handed what
//! happened (a line arrived, a child exited, a probe found a file) and
//! answers with the next state and the events to emit. Of the world it
//! reads only the clock, to stamp log lines, and the source of random
//! identifiers.
//!
//! Everything here is verified with Verus. Contracts are stated over the
//! mathematical content of the data: `Seq<char>` for strings, a model type
//! for each record. Calls into `serde_json`, `chrono`, `uuid` and the few
//! text functions of the standard library that have no specification go
//! through trusted declarations in [`json`], [`clock`], [`ident`] and
//! [`text`], each documented where it stands.
//!
//! - [`commands::deployment`]: the deployment supervisor and its line
//!   classifier, the checks before a deployment, and where the deployment
//!   executable lies.
//! - [`features::ssh_rt`] and [`commands::ssh_it`]: the registry of
//!   interactive sessions.
//! - [`features::ssh_exec`] and [`commands::ssh`]: remote targets and the
//!   catalogue of servers.
//! - [`commands::plugin`] and [`commands::plugin_check`]: plugins.
//! - [`commands::project`], [`commands::file_watcher`], [`db`],
//!   [`features::health_check`], [`greeting`]: the smaller rules.

pub mod clock;
pub mod commands;
pub mod db;
pub mod features;
pub mod greeting;
pub mod ident;
pub mod json;
pub mod resolve;
pub mod text;
