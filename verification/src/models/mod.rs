//! Data models for updown.io API resources.
//!
//! Each submodule defines the API model as plain values and the flattened,
//! display-ready row that list views show.

pub mod check;
pub mod common;
pub mod node;
pub mod recipient;
pub mod status_page;
