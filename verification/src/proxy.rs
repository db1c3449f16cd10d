//! What the Anthropic pass-through proxy decides on its own.
pub mod anthropic;
pub mod headers;
