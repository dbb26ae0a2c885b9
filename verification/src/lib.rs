//! Command configuration and execution for the DevSpace desktop shell.
//!
//! A command is a value that describes one invocation of the DevSpace
//! executable and can be run once through a process launcher that the caller
//! supplies. [`config`] holds the descriptor, the error and the contract of
//! commands; [`start_daemon`] holds the command that starts the daemon;
//! [`constants`] holds the tokens of the command line.

pub mod config;
pub mod constants;
pub mod start_daemon;
