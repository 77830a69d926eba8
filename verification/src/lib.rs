//! Verified core of a command-line client for the updown.io monitoring API.
//!
//! The library decides everything the command line does: which request each
//! command sends, how API replies are summarised and laid out, how errors are
//! reported. Sending requests, decoding JSON and printing stay with the caller.

pub mod client;
pub mod cmd;
pub mod config;
pub mod json;
pub mod models;
pub mod output;
pub mod text;
