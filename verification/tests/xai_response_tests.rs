use ai_tool_calling::error::ModelError;
use ai_tool_calling::interface::{
    FinishReason, ProviderConversationItem, StructuredOutputSchema, ThinkingLevel,
};
use ai_tool_calling::xai::request_types::ChatCompletionsToolFunction;
use ai_tool_calling::xai::response::{
    finish_reason, normalize_response, normalized_usage, ChatCompletionsAssistantMessage,
    ChatCompletionsChoice, ChatCompletionsResponse, ChatCompletionsResponseToolCall,
    ChatCompletionsUsage,
};

fn json(text: &str) -> serde_json::Value {
    serde_json::from_str(text).unwrap()
}

fn response(finish: Option<&str>, content: Option<&str>, calls: Vec<(&str, &str, &str)>) -> ChatCompletionsResponse {
    ChatCompletionsResponse {
        choices: vec![ChatCompletionsChoice {
            message: ChatCompletionsAssistantMessage {
                content: content.map(str::to_owned),
                tool_calls: calls
                    .into_iter()
                    .map(|(id, name, arguments)| ChatCompletionsResponseToolCall {
                        id: id.to_owned(),
                        function: ChatCompletionsToolFunction { name: name.to_owned(), arguments: arguments.to_owned() },
                    })
                    .collect(),
                function_call: None,
            },
            finish_reason: finish.map(str::to_owned),
        }],
        usage: None,
    }
}

fn status_schema() -> StructuredOutputSchema {
    StructuredOutputSchema {
        name: "status".to_owned(),
        schema: json("{\"type\":\"object\",\"properties\":{\"summary\":{\"type\":\"string\"},\"done\":{\"type\":\"boolean\"}},\"required\":[\"summary\",\"done\"]}"),
    }
}

fn usage(prompt: u32, completion: u32, total: Option<u32>, cached: u32, reasoning: u32) -> ChatCompletionsUsage {
    ChatCompletionsUsage {
        prompt_tokens: prompt,
        completion_tokens: completion,
        total_tokens: total,
        cached_tokens: cached,
        reasoning_tokens: reasoning,
    }
}

#[test]
fn maps_missing_xai_finish_reason_to_other() {
    let normalized = normalize_response("grok-4", "grok-4", ThinkingLevel::Disabled, "test_scope", response(None, Some("Done"), Vec::new()), None)
        .expect("xAI response should parse");

    assert_eq!(normalized.finish_reason, FinishReason::Other("missing".to_owned()));
}

#[test]
fn maps_xai_finish_reasons() {
    assert_eq!(finish_reason(Some("stop")), FinishReason::Stop);
    assert_eq!(finish_reason(Some("tool_calls")), FinishReason::ToolCalls);
    assert_eq!(finish_reason(Some("function_call")), FinishReason::ToolCalls);
    assert_eq!(finish_reason(Some("length")), FinishReason::Truncated);
    assert_eq!(finish_reason(Some("content_filter")), FinishReason::Filtered);
    assert_eq!(finish_reason(Some("unexpected")), FinishReason::Other("unexpected".to_owned()));
    assert_eq!(finish_reason(None), FinishReason::Other("missing".to_owned()));
}

#[test]
fn structured_output_filter_preserves_filtered_finish_reason() {
    let normalized = normalize_response(
        "grok-4",
        "grok-4",
        ThinkingLevel::Disabled,
        "test_scope",
        response(Some("content_filter"), Some("I cannot provide that."), Vec::new()),
        Some(&status_schema()),
    )
    .expect("filtered structured response should parse");

    assert_eq!(normalized.finish_reason, FinishReason::Filtered);
    assert_eq!(normalized.structured_output, None);
    assert_eq!(normalized.assistant_message, "I cannot provide that.");
}

#[test]
fn structured_output_truncation_preserves_truncated_finish_reason() {
    let normalized = normalize_response(
        "grok-4",
        "grok-4",
        ThinkingLevel::Disabled,
        "test_scope",
        response(Some("length"), Some("{\"summary\":"), Vec::new()),
        Some(&status_schema()),
    )
    .expect("truncated structured response should parse");

    assert_eq!(normalized.finish_reason, FinishReason::Truncated);
    assert_eq!(normalized.structured_output, None);
    assert_eq!(normalized.assistant_message, "{\"summary\":");
}

#[test]
fn truncated_tool_call_response_does_not_parse_partial_arguments() {
    let normalized = normalize_response(
        "grok-4",
        "grok-4",
        ThinkingLevel::Disabled,
        "test_scope",
        response(Some("length"), Some(""), vec![("call_1", "memory_read", "{\"path\":")]),
        None,
    )
    .expect("truncated xAI tool-call response should parse");

    assert_eq!(normalized.finish_reason, FinishReason::Truncated);
    assert!(normalized.tool_calls.is_empty());
}

#[test]
fn builds_tool_calls_from_the_first_choice() {
    let normalized = normalize_response(
        "grok-4-catalog",
        "grok-4",
        ThinkingLevel::High,
        "test_scope",
        response(Some("tool_calls"), None, vec![("call_1", "memory_read", "{\"path\":\"root\"}")]),
        None,
    )
    .unwrap();

    assert_eq!(normalized.provider, "xai");
    assert_eq!(normalized.model_id, "grok-4");
    assert_eq!(normalized.catalog_model_id.as_deref(), Some("grok-4-catalog"));
    assert_eq!(normalized.thinking_level.as_deref(), Some("high"));
    assert_eq!(normalized.finish_reason, FinishReason::ToolCalls);
    assert_eq!(normalized.assistant_message, "");
    assert_eq!(normalized.tool_calls.len(), 1);
    assert_eq!(normalized.tool_calls[0].id, "call_1");
    assert_eq!(normalized.tool_calls[0].name, "memory_read");
    assert_eq!(normalized.tool_calls[0].input, json("{\"path\":\"root\"}"));
    assert_eq!(normalized.tool_calls[0].operation_id, None);
    assert!(normalized.provider_context.is_empty());
}

#[test]
fn tool_arguments_that_are_not_json_are_a_provider_error() {
    let error = normalize_response(
        "grok-4",
        "grok-4",
        ThinkingLevel::Disabled,
        "test_scope",
        response(Some("tool_calls"), None, vec![("call_1", "memory_read", "{not json")]),
        None,
    )
    .expect_err("invalid arguments");

    assert_eq!(
        error,
        ModelError::Provider {
            provider: "xai".to_owned(),
            model_id: "grok-4".to_owned(),
            message: "invalid tool call arguments".to_owned(),
        }
    );
}

#[test]
fn a_response_without_choices_is_a_provider_error() {
    let error = normalize_response(
        "grok-4",
        "grok-4",
        ThinkingLevel::Disabled,
        "test_scope",
        ChatCompletionsResponse { choices: Vec::new(), usage: None },
        None,
    )
    .expect_err("no choices");

    assert_eq!(
        error,
        ModelError::Provider {
            provider: "xai".to_owned(),
            model_id: "grok-4".to_owned(),
            message: "xAI response had no choices".to_owned(),
        }
    );
}

#[test]
fn builds_structured_output_and_fills_blank_text_with_it() {
    let normalized = normalize_response(
        "grok-4",
        "grok-4",
        ThinkingLevel::Disabled,
        "test_scope",
        response(Some("stop"), Some("{\"summary\":\"ok\",\"done\":true}"), Vec::new()),
        Some(&status_schema()),
    )
    .unwrap();
    assert_eq!(normalized.structured_output, Some(json("{\"summary\":\"ok\",\"done\":true}")));
    assert_eq!(normalized.assistant_message, "{\"summary\":\"ok\",\"done\":true}");

    let invalid = normalize_response(
        "grok-4",
        "grok-4",
        ThinkingLevel::Disabled,
        "test_scope",
        response(Some("stop"), Some("not json"), Vec::new()),
        Some(&status_schema()),
    )
    .expect_err("structured output must be JSON");
    assert!(matches!(invalid, ModelError::Provider { message, .. } if message == "invalid structured output"));
}

#[test]
fn missing_xai_total_tokens_falls_back_to_normalized_usage_sum() {
    let normalized = normalized_usage(usage(120, 32, None, 0, 0));

    assert_eq!(normalized.input_tokens, 120);
    assert_eq!(normalized.output_tokens, 32);
    assert_eq!(normalized.total_tokens, 152);
}

#[test]
fn xai_usage_separates_cached_and_reasoning_tokens() {
    let normalized = normalized_usage(usage(120, 50, None, 80, 20));

    assert_eq!(normalized.input_tokens, 40);
    assert_eq!(normalized.cached_input_tokens, 80);
    assert_eq!(normalized.output_tokens, 30);
    assert_eq!(normalized.reasoning_tokens, 20);
    assert_eq!(normalized.total_tokens, 170);
}

#[test]
fn reported_total_wins_and_subtraction_saturates() {
    let normalized = normalized_usage(usage(10, 5, Some(999), 30, 9));

    assert_eq!(normalized.input_tokens, 0);
    assert_eq!(normalized.output_tokens, 0);
    assert_eq!(normalized.total_tokens, 999);
    assert_eq!(normalized.estimated_cost_microusd, 0);
}

#[test]
fn usage_reaches_the_normalized_response() {
    let mut parsed = response(Some("stop"), Some("Done"), Vec::new());
    parsed.usage = Some(usage(120, 50, None, 80, 20));
    let normalized = normalize_response("grok-4", "grok-4", ThinkingLevel::Disabled, "test_scope", parsed, None).unwrap();

    assert_eq!(normalized.usage.total_tokens, 170);
    assert_eq!(normalized.assistant_message, "Done");
    assert_eq!(normalized.finish_reason, FinishReason::Stop);
}

#[test]
fn legacy_function_call_response_parses_tool_call() {
    let mut parsed = response(Some("function_call"), Some(""), Vec::new());
    parsed.choices[0].message.function_call = Some(ChatCompletionsToolFunction {
        name: "memory_read".to_owned(),
        arguments: "{\"path\":\"root\"}".to_owned(),
    });
    let normalized = normalize_response("grok-4", "grok-4", ThinkingLevel::Disabled, "test_scope", parsed, None)
        .expect("legacy xAI function-call response should parse");

    assert_eq!(normalized.finish_reason, FinishReason::ToolCalls);
    assert_eq!(normalized.tool_calls.len(), 1);
    assert!(normalized.tool_calls[0].id.starts_with("xai_legacy_function_call:"));
    assert_eq!(normalized.tool_calls[0].operation_id.as_deref(), Some(normalized.tool_calls[0].id.as_str()));
    assert_eq!(normalized.tool_calls[0].name, "memory_read");
    assert_eq!(normalized.tool_calls[0].input, json("{\"path\":\"root\"}"));
    assert_eq!(
        normalized.provider_context,
        vec![ProviderConversationItem::XaiLegacyFunctionCall {
            tool_call_id: normalized.tool_calls[0].id.clone(),
            name: "memory_read".to_owned(),
            arguments: "{\"path\":\"root\"}".to_owned(),
        }]
    );
}

#[test]
fn legacy_function_calls_get_request_scoped_operation_ids() {
    let call = |scope: &str| {
        let mut parsed = response(Some("function_call"), Some(""), Vec::new());
        parsed.choices[0].message.function_call = Some(ChatCompletionsToolFunction {
            name: "memory_read".to_owned(),
            arguments: "{}".to_owned(),
        });
        normalize_response("grok-4", "grok-4", ThinkingLevel::Disabled, scope, parsed, None).unwrap()
    };
    let first = call("first");
    let second = call("second");

    assert_ne!(first.tool_calls[0].id, second.tool_calls[0].id);
    assert_eq!(first.tool_calls[0].id, "xai_legacy_function_call:first");
}
