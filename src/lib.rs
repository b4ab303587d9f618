//! Acceptance checks for a remote HTTP control API.
//!
//! The library builds the requests that the checks send, interprets the
//! replies, and drives the fixed sequence of scenarios as a state machine.
//! Sending the requests is left to the caller.
pub mod client;
pub mod error;
pub mod json;
pub mod runner;
pub mod text;
