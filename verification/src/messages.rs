//! Message types of the protocols the library speaks, the unified types all
//! providers work with, and the conversions between them.
pub mod anthropic;
pub mod openai;
pub mod unified;
pub mod from_anthropic;
pub mod to_anthropic;
pub mod from_openai;
pub mod to_openai;
