//! Startup/shutdown supervisor for a companion backend process.
//!
//! The supervisor owns a single slot of shared state that tracks at most one
//! running child process. On application start the shell spawns the child and
//! hands the outcome to [`supervisor::Supervisor::record_spawn_outcome`]; on a
//! window-close request it asks [`supervisor::Supervisor::on_close`] what to
//! do. The diagnostics that accompany both steps are built in [`diag`].

pub mod diag;
pub mod supervisor;
