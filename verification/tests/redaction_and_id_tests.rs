use ai_tool_calling::interface::{
    ConversationMessage, ExecutionControls, FinishReason, GenerationControls, ModelCallControls,
    ModelCompletionMode, ModelRequest, ModelResponse, ModelUsage, ProviderConversationItem,
};
use ai_tool_calling::output_id::{generate_output_id, output_id_from_parts, OutputIdGenerationError};
use ai_tool_calling::redaction::{
    model_request_for_logging, model_response_for_logging, remove_private_replay_context,
};

fn json(text: &str) -> serde_json::Value {
    serde_json::from_str(text).unwrap()
}

fn context() -> Vec<ProviderConversationItem> {
    vec![
        ProviderConversationItem::MiniMaxAssistant { payload: json("{\"reasoning\":\"private\"}") },
        ProviderConversationItem::DeepSeekAssistantMessage { payload: json("{\"content\":\"kept\"}") },
        ProviderConversationItem::KimiAssistantMessage { payload: json("{\"reasoning\":\"private\"}") },
        ProviderConversationItem::XaiLegacyFunctionCall {
            tool_call_id: "call_1".to_owned(),
            name: "memory_read".to_owned(),
            arguments: "{}".to_owned(),
        },
    ]
}

#[test]
fn private_replay_context_is_removed_in_order() {
    let kept = remove_private_replay_context(context());
    assert_eq!(kept.len(), 2);
    assert!(matches!(kept[0], ProviderConversationItem::DeepSeekAssistantMessage { .. }));
    assert!(matches!(kept[1], ProviderConversationItem::XaiLegacyFunctionCall { .. }));
    assert!(remove_private_replay_context(Vec::new()).is_empty());
}

#[test]
fn minimax_reasoning_is_replayed_but_redacted_from_logs() {
    let mut message = ConversationMessage::assistant("Working".to_owned(), Vec::new());
    message.provider_context = context();
    let request = ModelRequest {
        system_prompt: "system".to_owned(),
        messages: vec![ConversationMessage::user("hello".to_owned()), message],
        tools: Vec::new(),
        response_schema: None,
        controls: ModelCallControls {
            generation: GenerationControls { tool_choice: None, max_output_tokens: Some(5), stop_sequences: Vec::new() },
            execution: ExecutionControls { completion_mode: ModelCompletionMode::Synchronous, total_timeout_nanos: None },
        },
    };
    let logged = model_request_for_logging(request.clone());

    assert_eq!(request.messages[1].provider_context.len(), 4);
    assert_eq!(logged.messages.len(), 2);
    assert_eq!(logged.messages[1].content, "Working");
    assert_eq!(logged.messages[1].provider_context.len(), 2);
    assert_eq!(logged.controls, request.controls);

    let response = ModelResponse {
        provider: "minimax".to_owned(),
        model_id: "m".to_owned(),
        catalog_model_id: None,
        thinking_level: None,
        assistant_message: "Done".to_owned(),
        tool_calls: Vec::new(),
        finish_reason: FinishReason::Stop,
        structured_output: None,
        provider_context: context(),
        usage: ModelUsage {
            input_tokens: 1,
            output_tokens: 2,
            cached_input_tokens: 0,
            reasoning_tokens: 0,
            total_tokens: 3,
            estimated_cost_microusd: 0,
        },
    };
    let logged_response = model_response_for_logging(response);
    assert_eq!(logged_response.provider_context.len(), 2);
    assert_eq!(logged_response.assistant_message, "Done");
    assert_eq!(logged_response.usage.total_tokens, 3);
}

#[test]
fn output_ids_are_built_from_clock_and_random_bytes() {
    let id = output_id_from_parts(1_700_000_000_000, [1, 2, 3, 4, 5, 6, 7, 8, 9, 10]).unwrap();
    assert_eq!(id.as_str(), "toolout_018bcfe5-6800-7102-8304-05060708090a");
    let masked = output_id_from_parts(0x0123_4567_89ab, [0xff; 10]).unwrap();
    assert_eq!(masked.as_str(), "toolout_01234567-89ab-7fff-bfff-ffffffffffff");

    assert_eq!(
        output_id_from_parts(1 << 48, [0; 10]),
        Err(OutputIdGenerationError::TimestampOutOfRange { millis: 1 << 48 })
    );
    assert_eq!(
        generate_output_id(Err("clock before epoch".to_owned())),
        Err(OutputIdGenerationError::Clock { message: "clock before epoch".to_owned() })
    );
    assert_eq!(
        generate_output_id(Ok(u128::MAX)),
        Err(OutputIdGenerationError::TimestampOutOfRange { millis: u128::MAX })
    );
    let fresh = generate_output_id(Ok(1_700_000_000_000)).unwrap();
    assert!(fresh.as_str().starts_with("toolout_018bcfe5-6800-7"));
    assert_eq!(fresh.as_str().len(), 44);
}
