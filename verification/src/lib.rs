//! Message models and conversions between LLM provider protocols.
pub mod error;
pub mod json;
pub mod laws;
pub mod text;
pub mod seqs;
pub mod sys;
pub mod messages;
pub mod protocol;
pub mod provider;
pub mod provider_mode;
pub mod proxy;
pub mod request;
