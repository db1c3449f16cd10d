//! Named values of the Anthropic Messages API, by their names on the wire.
//!
//! Each type has a variant per name the API defines and keeps any other name
//! as it came.
use vstd::prelude::*;

use crate::text::str_eq;

verus! {
/// How long an ephemeral cache entry lives.
#[derive(Debug, Clone, PartialEq, Eq)]
pub enum CacheControlTtl {
    /// `5m`
    FiveMinutes,
    /// `1h`
    OneHour,
    /// Any other name.
    Unknown(String),
}

impl CacheControlTtl {
    /// The value's name on the wire.
    pub open spec fn wire(&self) -> Seq<char> {
        match self {
            CacheControlTtl::FiveMinutes => "5m"@,
            CacheControlTtl::OneHour => "1h"@,
            CacheControlTtl::Unknown(s) => s@,
        }
    }

    /// The value's name on the wire.
    pub fn wire_name(&self) -> (r: String)
        ensures
            r@ == self.wire(),
    {
        match self {
            CacheControlTtl::FiveMinutes => String::from_str("5m"),
            CacheControlTtl::OneHour => String::from_str("1h"),
            CacheControlTtl::Unknown(s) => s.clone(),
        }
    }

    /// The value a name on the wire stands for: the variant of a name the API
    /// defines, else the name itself, kept.
    pub fn from_wire(name: &str) -> (r: CacheControlTtl)
        ensures
            r.wire() == name@,
            name@ == "5m"@ ==> r == CacheControlTtl::FiveMinutes,
            name@ == "1h"@ ==> r == CacheControlTtl::OneHour,
            (name@ != "5m"@ && name@ != "1h"@) ==> r is Unknown,
    {
        proof {
            reveal_strlit("5m");
            reveal_strlit("1h");
            assert("5m"@[0] != "1h"@[0]);
        }
        if str_eq(name, "5m") {
            CacheControlTtl::FiveMinutes
        } else if str_eq(name, "1h") {
            CacheControlTtl::OneHour
        } else {
            CacheControlTtl::Unknown(String::from_str(name))
        }
    }
}

/// The kind of a context-management edit that clears tool uses.
#[derive(Debug, Clone, PartialEq, Eq)]
pub enum ClearToolUsesType {
    /// `clear_tool_uses20250919`
    ClearToolUses20250919,
    /// Any other name.
    Unknown(String),
}

impl ClearToolUsesType {
    /// The value's name on the wire.
    pub open spec fn wire(&self) -> Seq<char> {
        match self {
            ClearToolUsesType::ClearToolUses20250919 => "clear_tool_uses20250919"@,
            ClearToolUsesType::Unknown(s) => s@,
        }
    }

    /// The value's name on the wire.
    pub fn wire_name(&self) -> (r: String)
        ensures
            r@ == self.wire(),
    {
        match self {
            ClearToolUsesType::ClearToolUses20250919 => String::from_str("clear_tool_uses20250919"),
            ClearToolUsesType::Unknown(s) => s.clone(),
        }
    }

    /// The value a name on the wire stands for: the variant of a name the API
    /// defines, else the name itself, kept.
    pub fn from_wire(name: &str) -> (r: ClearToolUsesType)
        ensures
            r.wire() == name@,
            name@ == "clear_tool_uses20250919"@ ==> r == ClearToolUsesType::ClearToolUses20250919,
            (name@ != "clear_tool_uses20250919"@) ==> r is Unknown,
    {
        if str_eq(name, "clear_tool_uses20250919") {
            ClearToolUsesType::ClearToolUses20250919
        } else {
            ClearToolUsesType::Unknown(String::from_str(name))
        }
    }
}

impl Default for ClearToolUsesType {
    /// `clear_tool_uses20250919`, the only name the API defines.
    fn default() -> (r: ClearToolUsesType)
        ensures
            r == ClearToolUsesType::ClearToolUses20250919,
    {
        ClearToolUsesType::ClearToolUses20250919
    }
}

/// The marker of a context-management measure in input tokens.
#[derive(Debug, Clone, PartialEq, Eq)]
pub enum InputTokensKind {
    /// `input_tokens`
    InputTokens,
    /// Any other name.
    Unknown(String),
}

impl InputTokensKind {
    /// The value's name on the wire.
    pub open spec fn wire(&self) -> Seq<char> {
        match self {
            InputTokensKind::InputTokens => "input_tokens"@,
            InputTokensKind::Unknown(s) => s@,
        }
    }

    /// The value's name on the wire.
    pub fn wire_name(&self) -> (r: String)
        ensures
            r@ == self.wire(),
    {
        match self {
            InputTokensKind::InputTokens => String::from_str("input_tokens"),
            InputTokensKind::Unknown(s) => s.clone(),
        }
    }

    /// The value a name on the wire stands for: the variant of a name the API
    /// defines, else the name itself, kept.
    pub fn from_wire(name: &str) -> (r: InputTokensKind)
        ensures
            r.wire() == name@,
            name@ == "input_tokens"@ ==> r == InputTokensKind::InputTokens,
            (name@ != "input_tokens"@) ==> r is Unknown,
    {
        if str_eq(name, "input_tokens") {
            InputTokensKind::InputTokens
        } else {
            InputTokensKind::Unknown(String::from_str(name))
        }
    }
}

impl Default for InputTokensKind {
    /// `input_tokens`, the only name the API defines.
    fn default() -> (r: InputTokensKind)
        ensures
            r == InputTokensKind::InputTokens,
    {
        InputTokensKind::InputTokens
    }
}

/// The marker of a context-management measure in tool uses.
#[derive(Debug, Clone, PartialEq, Eq)]
pub enum ToolUsesKind {
    /// `tool_uses`
    ToolUses,
    /// Any other name.
    Unknown(String),
}

impl ToolUsesKind {
    /// The value's name on the wire.
    pub open spec fn wire(&self) -> Seq<char> {
        match self {
            ToolUsesKind::ToolUses => "tool_uses"@,
            ToolUsesKind::Unknown(s) => s@,
        }
    }

    /// The value's name on the wire.
    pub fn wire_name(&self) -> (r: String)
        ensures
            r@ == self.wire(),
    {
        match self {
            ToolUsesKind::ToolUses => String::from_str("tool_uses"),
            ToolUsesKind::Unknown(s) => s.clone(),
        }
    }

    /// The value a name on the wire stands for: the variant of a name the API
    /// defines, else the name itself, kept.
    pub fn from_wire(name: &str) -> (r: ToolUsesKind)
        ensures
            r.wire() == name@,
            name@ == "tool_uses"@ ==> r == ToolUsesKind::ToolUses,
            (name@ != "tool_uses"@) ==> r is Unknown,
    {
        if str_eq(name, "tool_uses") {
            ToolUsesKind::ToolUses
        } else {
            ToolUsesKind::Unknown(String::from_str(name))
        }
    }
}

impl Default for ToolUsesKind {
    /// `tool_uses`, the only name the API defines.
    fn default() -> (r: ToolUsesKind)
        ensures
            r == ToolUsesKind::ToolUses,
    {
        ToolUsesKind::ToolUses
    }
}

/// The kind of an MCP server.
#[derive(Debug, Clone, PartialEq, Eq)]
pub enum McpServerType {
    /// `url`
    Url,
    /// Any other name.
    Unknown(String),
}

impl McpServerType {
    /// The value's name on the wire.
    pub open spec fn wire(&self) -> Seq<char> {
        match self {
            McpServerType::Url => "url"@,
            McpServerType::Unknown(s) => s@,
        }
    }

    /// The value's name on the wire.
    pub fn wire_name(&self) -> (r: String)
        ensures
            r@ == self.wire(),
    {
        match self {
            McpServerType::Url => String::from_str("url"),
            McpServerType::Unknown(s) => s.clone(),
        }
    }

    /// The value a name on the wire stands for: the variant of a name the API
    /// defines, else the name itself, kept.
    pub fn from_wire(name: &str) -> (r: McpServerType)
        ensures
            r.wire() == name@,
            name@ == "url"@ ==> r == McpServerType::Url,
            (name@ != "url"@) ==> r is Unknown,
    {
        if str_eq(name, "url") {
            McpServerType::Url
        } else {
            McpServerType::Unknown(String::from_str(name))
        }
    }
}

/// The service tier a request asks for.
#[derive(Debug, Clone, PartialEq, Eq)]
pub enum ServiceTier {
    /// `auto`
    Auto,
    /// `standard_only`
    StandardOnly,
    /// Any other name.
    Unknown(String),
}

impl ServiceTier {
    /// The value's name on the wire.
    pub open spec fn wire(&self) -> Seq<char> {
        match self {
            ServiceTier::Auto => "auto"@,
            ServiceTier::StandardOnly => "standard_only"@,
            ServiceTier::Unknown(s) => s@,
        }
    }

    /// The value's name on the wire.
    pub fn wire_name(&self) -> (r: String)
        ensures
            r@ == self.wire(),
    {
        match self {
            ServiceTier::Auto => String::from_str("auto"),
            ServiceTier::StandardOnly => String::from_str("standard_only"),
            ServiceTier::Unknown(s) => s.clone(),
        }
    }

    /// The value a name on the wire stands for: the variant of a name the API
    /// defines, else the name itself, kept.
    pub fn from_wire(name: &str) -> (r: ServiceTier)
        ensures
            r.wire() == name@,
            name@ == "auto"@ ==> r == ServiceTier::Auto,
            name@ == "standard_only"@ ==> r == ServiceTier::StandardOnly,
            (name@ != "auto"@ && name@ != "standard_only"@) ==> r is Unknown,
    {
        proof {
            reveal_strlit("auto");
            reveal_strlit("standard_only");
        }
        if str_eq(name, "auto") {
            ServiceTier::Auto
        } else if str_eq(name, "standard_only") {
            ServiceTier::StandardOnly
        } else {
            ServiceTier::Unknown(String::from_str(name))
        }
    }
}

/// The kind of a tool.
#[derive(Debug, Clone, PartialEq, Eq)]
pub enum ToolKind {
    /// `custom`
    Custom,
    /// Any other name.
    Unknown(String),
}

impl ToolKind {
    /// The value's name on the wire.
    pub open spec fn wire(&self) -> Seq<char> {
        match self {
            ToolKind::Custom => "custom"@,
            ToolKind::Unknown(s) => s@,
        }
    }

    /// The value's name on the wire.
    pub fn wire_name(&self) -> (r: String)
        ensures
            r@ == self.wire(),
    {
        match self {
            ToolKind::Custom => String::from_str("custom"),
            ToolKind::Unknown(s) => s.clone(),
        }
    }

    /// The value a name on the wire stands for: the variant of a name the API
    /// defines, else the name itself, kept.
    pub fn from_wire(name: &str) -> (r: ToolKind)
        ensures
            r.wire() == name@,
            name@ == "custom"@ ==> r == ToolKind::Custom,
            (name@ != "custom"@) ==> r is Unknown,
    {
        if str_eq(name, "custom") {
            ToolKind::Custom
        } else {
            ToolKind::Unknown(String::from_str(name))
        }
    }
}

/// The role of a message's author.
#[derive(Debug, Clone, PartialEq, Eq)]
pub enum Role {
    /// `user`
    User,
    /// `assistant`
    Assistant,
    /// Any other name.
    Unknown(String),
}

impl Role {
    /// The value's name on the wire.
    pub open spec fn wire(&self) -> Seq<char> {
        match self {
            Role::User => "user"@,
            Role::Assistant => "assistant"@,
            Role::Unknown(s) => s@,
        }
    }

    /// The value's name on the wire.
    pub fn wire_name(&self) -> (r: String)
        ensures
            r@ == self.wire(),
    {
        match self {
            Role::User => String::from_str("user"),
            Role::Assistant => String::from_str("assistant"),
            Role::Unknown(s) => s.clone(),
        }
    }

    /// The value a name on the wire stands for: the variant of a name the API
    /// defines, else the name itself, kept.
    pub fn from_wire(name: &str) -> (r: Role)
        ensures
            r.wire() == name@,
            name@ == "user"@ ==> r == Role::User,
            name@ == "assistant"@ ==> r == Role::Assistant,
            (name@ != "user"@ && name@ != "assistant"@) ==> r is Unknown,
    {
        proof {
            reveal_strlit("user");
            reveal_strlit("assistant");
        }
        if str_eq(name, "user") {
            Role::User
        } else if str_eq(name, "assistant") {
            Role::Assistant
        } else {
            Role::Unknown(String::from_str(name))
        }
    }
}

} // verus!
