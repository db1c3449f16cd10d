//! Anthropic provider: request building and response decoding.
pub mod input;
pub mod output;
