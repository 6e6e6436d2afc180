//! Port-forward and remote-session lifecycle management for a dev container,
//! written as a set of pure decision functions: every function here computes
//! command lines, parses command output or advances a state machine, and the
//! caller performs the actual process and network operations.

pub mod auto_port_forward;
pub mod build;
pub mod cli;
pub mod clipboard;
pub mod config;
pub mod devcontainer;
pub mod exec;
pub mod host_gateway;
pub mod listening;
pub mod log;
pub mod persistent_shell;
pub mod port;
pub mod relay;
pub mod text;
