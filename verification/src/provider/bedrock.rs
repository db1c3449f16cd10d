//! AWS Bedrock: model families and the Converse API's messages.
pub mod families;
pub mod input;
pub mod output;
