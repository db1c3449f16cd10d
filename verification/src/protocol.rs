//! Wire types of the Anthropic protocol that the proxy passes through.
pub mod anthropic;
pub mod unknown_fields;
