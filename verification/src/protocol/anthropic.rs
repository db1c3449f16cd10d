//! The Anthropic Messages API as the proxy sees it.
pub mod error;
pub mod messages;
