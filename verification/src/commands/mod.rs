//! The operations that the user interface invokes.

pub mod deployment;
pub mod file_watcher;
pub mod plugin;
pub mod plugin_check;
pub mod project;
pub mod ssh;
pub mod ssh_it;
