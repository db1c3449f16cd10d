use llm::messages::anthropic::AnthropicToolChoice;
use llm::messages::unified::{
    UnifiedContentContainer, UnifiedFunctionChoice, UnifiedMessage, UnifiedRequest, UnifiedRole,
    UnifiedToolChoice, UnifiedToolChoiceMode,
};
use llm::provider::anthropic::input::{AnthropicRequest, AnthropicToolChoice as ProviderToolChoice};

fn request(tool_choice: Option<UnifiedToolChoice>) -> UnifiedRequest {
    UnifiedRequest {
        model: "sonnet".to_string(),
        messages: vec![UnifiedMessage {
            role: UnifiedRole::User,
            content: UnifiedContentContainer::Text("hi".to_string()),
            tool_calls: None,
            tool_call_id: None,
        }],
        system: None,
        max_tokens: Some(10),
        temperature: None,
        top_p: None,
        top_k: None,
        frequency_penalty: None,
        presence_penalty: None,
        stop_sequences: None,
        stream: None,
        tools: None,
        tool_choice,
        parallel_tool_calls: None,
        metadata: None,
    }
}

#[test]
fn none_mode_disables_tools_in_messages_api() {
    let c = AnthropicToolChoice::from_unified(UnifiedToolChoice::Mode(UnifiedToolChoiceMode::Disabled));
    assert!(matches!(c, AnthropicToolChoice::Disabled), "{c:?}");
}

#[test]
fn modes_map_to_messages_api_choices() {
    let auto = AnthropicToolChoice::from_unified(UnifiedToolChoice::Mode(UnifiedToolChoiceMode::Auto));
    assert!(matches!(auto, AnthropicToolChoice::Auto), "{auto:?}");
    let any = AnthropicToolChoice::from_unified(UnifiedToolChoice::Mode(UnifiedToolChoiceMode::Required));
    assert!(matches!(any, AnthropicToolChoice::Any), "{any:?}");
    let tool = AnthropicToolChoice::from_unified(UnifiedToolChoice::Specific {
        function: UnifiedFunctionChoice { name: "weather".to_string() },
    });
    assert!(matches!(tool, AnthropicToolChoice::Tool { ref name } if name == "weather"), "{tool:?}");
}

#[test]
fn none_mode_disables_tools_in_provider_request() {
    let r = AnthropicRequest::from_unified(request(Some(UnifiedToolChoice::Mode(UnifiedToolChoiceMode::Disabled))));
    assert!(matches!(r.tool_choice, Some(ProviderToolChoice::Disabled)), "{r:?}");
}
