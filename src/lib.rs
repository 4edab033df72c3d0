//! Launcher for a root shell on Termux: resolves the escalation binary, the
//! home directory, the shell and a minimal environment, detects what the
//! installed `su` supports, and assembles the privileged command.

pub mod cargo;
pub mod command;
pub mod config;
pub mod env;
pub mod error;
pub mod laws;
pub mod paths;
pub mod probe;
pub mod shell;
