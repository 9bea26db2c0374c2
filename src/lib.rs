//! Selection of the process-wide log verbosity at startup.
//!
//! A build fixes a default level and a ceiling; an override given at run
//! time may choose another level, but never one more verbose than the
//! ceiling.
pub mod level;
pub mod resolve;
pub mod install;
