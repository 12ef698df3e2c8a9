//! Running one shell command line and capturing its outcome.
//!
//! Spawning the child process is left to the caller; this crate decides how
//! the shell is invoked and how what the process reported becomes a result:
//! an exit code and two decoded texts.
pub mod invocation;
pub mod outcome;
