//! The machinery behind the commands.

pub mod health_check;
pub mod ssh_exec;
pub mod ssh_rt;
