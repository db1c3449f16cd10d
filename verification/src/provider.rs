//! Provider-specific request and response handling.
pub mod anthropic;
pub mod bedrock;
pub mod google;
pub mod models;
