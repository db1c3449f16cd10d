use llm::error::LlmError;
use llm::messages::unified::{
    UnifiedChoice, UnifiedContentContainer, UnifiedFinishReason, UnifiedMessage, UnifiedResponse, UnifiedRole,
    UnifiedUsage,
};
use llm::provider::google::reply::completion_result;

fn response() -> UnifiedResponse {
    UnifiedResponse {
        id: "gen-1".to_string(),
        model: "gemini-1.5-pro-002".to_string(),
        choices: vec![UnifiedChoice {
            index: 0,
            message: UnifiedMessage {
                role: UnifiedRole::Assistant,
                content: UnifiedContentContainer::Text("Hello".to_string()),
                tool_calls: None,
                tool_call_id: None,
            },
            finish_reason: Some(UnifiedFinishReason::Stop),
        }],
        usage: UnifiedUsage { prompt_tokens: 3, completion_tokens: 1, total_tokens: 4 },
        created: 1700000000,
        stop_reason: None,
        stop_sequence: None,
    }
}

#[test]
fn reply_without_candidates_is_an_internal_error() {
    let r = completion_result(0, response(), "google/gemini".to_string());
    assert!(matches!(r, Err(LlmError::InternalError(None))), "{r:?}");
}

#[test]
fn reply_takes_the_requested_model_name() {
    let r = completion_result(1, response(), "gemini-pro".to_string()).unwrap();
    assert_eq!(r.model, "gemini-pro");
    assert_eq!(r.id, "gen-1");
    assert_eq!(r.choices.len(), 1);
    assert_eq!(r.usage.total_tokens, 4);
}
