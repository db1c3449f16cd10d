//! Google Gemini: request building from the unified types, and what a reply comes to.
pub mod input;
pub mod output;
pub mod reply;
