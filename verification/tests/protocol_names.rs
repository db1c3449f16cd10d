use llm::protocol::anthropic::messages::{
    CacheControlTtl, ClearToolUsesType, InputTokensKind, McpServerType, Role, ServiceTier, ToolKind, ToolUsesKind,
};

#[test]
fn cache_ttl_names() {
    assert_eq!(CacheControlTtl::from_wire("5m"), CacheControlTtl::FiveMinutes);
    assert_eq!(CacheControlTtl::from_wire("1h"), CacheControlTtl::OneHour);
    assert_eq!(CacheControlTtl::from_wire("2d"), CacheControlTtl::Unknown("2d".to_string()));
    assert_eq!(CacheControlTtl::OneHour.wire_name(), "1h");
    assert_eq!(CacheControlTtl::Unknown("2d".to_string()).wire_name(), "2d");
}

#[test]
fn context_management_kinds_default_to_the_defined_name() {
    assert_eq!(ClearToolUsesType::default(), ClearToolUsesType::ClearToolUses20250919);
    assert_eq!(ClearToolUsesType::default().wire_name(), "clear_tool_uses20250919");
    assert_eq!(InputTokensKind::default().wire_name(), "input_tokens");
    assert_eq!(ToolUsesKind::default().wire_name(), "tool_uses");
    assert_eq!(ToolUsesKind::from_wire("tool_uses"), ToolUsesKind::ToolUses);
    assert_eq!(InputTokensKind::from_wire("tokens"), InputTokensKind::Unknown("tokens".to_string()));
}

#[test]
fn tier_server_and_tool_kind_names() {
    assert_eq!(ServiceTier::from_wire("standard_only"), ServiceTier::StandardOnly);
    assert_eq!(ServiceTier::Auto.wire_name(), "auto");
    assert_eq!(McpServerType::from_wire("url"), McpServerType::Url);
    assert_eq!(McpServerType::from_wire("stdio"), McpServerType::Unknown("stdio".to_string()));
    assert_eq!(ToolKind::from_wire("custom"), ToolKind::Custom);
    assert_eq!(ToolKind::Unknown("bash_20250124".to_string()).wire_name(), "bash_20250124");
}

#[test]
fn role_names() {
    assert_eq!(Role::from_wire("user"), Role::User);
    assert_eq!(Role::from_wire("assistant"), Role::Assistant);
    assert_eq!(Role::from_wire("system"), Role::Unknown("system".to_string()));
    assert_eq!(Role::Assistant.wire_name(), "assistant");
}
