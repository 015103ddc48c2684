//! A verified client core for a track-search service.
//!
//! The library models the subset of the service's JSON search response that
//! the client displays, extracts that shape from a parsed JSON document,
//! renders the resulting tracks as text, and maps response statuses to the
//! process outcome. HTTP transport and terminal output live outside the
//! library.

pub mod client;
pub mod json;
pub mod model;
pub mod render;
pub mod status;
