use ai_tool_calling::error::ModelError;
use ai_tool_calling::interface::{
    ConversationContentPart, ConversationMessage, ExecutionControls, GenerationControls,
    ModelCallControls, ModelCompletionMode, ModelRequest, ModelToolChoice,
    ProviderConversationItem, StructuredOutputSchema, ThinkingLevel, ToolCall, ToolDefinition,
};
use ai_tool_calling::xai::request::{build_request, reasoning_effort};
use ai_tool_calling::xai::request_types::{
    ChatCompletionsContent, ChatCompletionsContentPart, ChatCompletionsMessage,
    ChatCompletionsToolChoice,
};

fn json(text: &str) -> serde_json::Value {
    serde_json::from_str(text).unwrap()
}

fn controls() -> ModelCallControls {
    ModelCallControls {
        generation: GenerationControls { tool_choice: None, max_output_tokens: None, stop_sequences: Vec::new() },
        execution: ExecutionControls {
            completion_mode: ModelCompletionMode::Synchronous,
            total_timeout_nanos: None,
        },
    }
}

fn request(system_prompt: &str, messages: Vec<ConversationMessage>) -> ModelRequest {
    ModelRequest {
        system_prompt: system_prompt.to_owned(),
        messages,
        tools: Vec::new(),
        response_schema: None,
        controls: controls(),
    }
}

fn lookup_tool() -> ToolDefinition {
    ToolDefinition {
        name: "lookup".to_owned(),
        description: "Look up a value".to_owned(),
        input_schema: json("{\"type\":\"object\"}"),
        activity_verb: None,
    }
}

fn call(id: &str, name: &str, input: &str) -> ToolCall {
    ToolCall { id: id.to_owned(), name: name.to_owned(), input: json(input), operation_id: None }
}

fn text_of(message: &ChatCompletionsMessage) -> Option<&str> {
    match &message.content {
        Some(ChatCompletionsContent::Text(text)) => Some(text.as_str()),
        _ => None,
    }
}

fn mode_of(choice: &Option<ChatCompletionsToolChoice>) -> Option<&str> {
    match choice {
        Some(ChatCompletionsToolChoice::Mode(mode)) => Some(mode.as_str()),
        _ => None,
    }
}

#[test]
fn omits_name_from_tool_role_continuation_messages() {
    let body = build_request(
        "grok-4",
        ThinkingLevel::Disabled,
        &request(
            "system",
            vec![
                ConversationMessage::user("start".to_owned()),
                ConversationMessage::assistant(String::new(), vec![call("call_1", "memory_read", "{\"path\":\"root\"}")]),
                ConversationMessage::tool("{\"ok\":true}".to_owned(), "memory_read".to_owned(), "call_1".to_owned()),
            ],
        ),
    )
    .unwrap();

    let tool_message = body.messages.iter().find(|m| m.role == "tool").expect("tool message");
    assert_eq!(text_of(tool_message), Some("{\"ok\":true}"));
    assert_eq!(tool_message.tool_call_id.as_deref(), Some("call_1"));
    assert_eq!(tool_message.name, None);
    let assistant = body.messages.iter().find(|m| m.role == "assistant").expect("assistant message");
    assert!(assistant.content.is_none());
    assert_eq!(assistant.tool_calls.len(), 1);
    assert_eq!(assistant.tool_calls[0].id, "call_1");
    assert_eq!(assistant.tool_calls[0].kind, "function");
    assert_eq!(assistant.tool_calls[0].function.arguments, "{\"path\":\"root\"}");
}

#[test]
fn serializes_legacy_function_call_continuation_messages() {
    let legacy_call_id = "xai_legacy_function_call:memory_read";
    let mut assistant = ConversationMessage::assistant(
        String::new(),
        vec![call(legacy_call_id, "memory_read", "{\"path\":\"root\"}")],
    );
    assistant.provider_context = vec![
        ProviderConversationItem::DeepSeekAssistantMessage { payload: json("{\"content\":\"DeepSeek-owned content\"}") },
        ProviderConversationItem::KimiAssistantMessage { payload: json("{\"reasoning\":\"Kimi-owned context\"}") },
        ProviderConversationItem::XaiLegacyFunctionCall {
            tool_call_id: legacy_call_id.to_owned(),
            name: "memory_read".to_owned(),
            arguments: "{\"path\":\"root\"}".to_owned(),
        },
    ];
    let body = build_request(
        "grok-4",
        ThinkingLevel::Disabled,
        &request(
            "system",
            vec![
                ConversationMessage::user("start".to_owned()),
                assistant,
                ConversationMessage::tool("{\"ok\":true}".to_owned(), "memory_read".to_owned(), legacy_call_id.to_owned()),
            ],
        ),
    )
    .unwrap();

    let assistant_message = body.messages.iter().find(|m| m.role == "assistant").expect("assistant");
    let function_message = body.messages.iter().find(|m| m.role == "function").expect("function");
    let function_call = assistant_message.function_call.as_ref().expect("function call");
    assert_eq!(function_call.name, "memory_read");
    assert_eq!(function_call.arguments, "{\"path\":\"root\"}");
    assert!(assistant_message.tool_calls.is_empty());
    assert_eq!(function_message.name.as_deref(), Some("memory_read"));
    assert_eq!(text_of(function_message), Some("{\"ok\":true}"));
    assert_eq!(function_message.tool_call_id, None);
    assert!(body.messages.iter().all(|m| m.role != "tool"));
}

#[test]
fn a_legacy_context_that_answers_no_tool_call_is_ignored() {
    let mut assistant = ConversationMessage::assistant(String::new(), vec![call("call_9", "memory_read", "{}")]);
    assistant.provider_context = vec![ProviderConversationItem::XaiLegacyFunctionCall {
        tool_call_id: "other".to_owned(),
        name: "memory_read".to_owned(),
        arguments: "{}".to_owned(),
    }];
    let body = build_request(
        "grok-4",
        ThinkingLevel::Disabled,
        &request(
            "",
            vec![
                assistant,
                ConversationMessage::tool("done".to_owned(), "memory_read".to_owned(), "call_9".to_owned()),
            ],
        ),
    )
    .unwrap();

    assert_eq!(body.messages.len(), 2);
    assert!(body.messages[0].function_call.is_none());
    assert_eq!(body.messages[0].tool_calls.len(), 1);
    assert_eq!(body.messages[1].role, "tool");
    assert_eq!(body.messages[1].tool_call_id.as_deref(), Some("call_9"));
}

#[test]
fn serializes_image_context_message() {
    let mut user = ConversationMessage::user("Visual context is available.".to_owned());
    user.content_parts = vec![
        ConversationContentPart::Text { text: "Visual context is available.".to_owned() },
        ConversationContentPart::Image { mime_type: "image/png".to_owned(), data_base64: "abc123".to_owned() },
    ];
    let body = build_request(
        "grok-4",
        ThinkingLevel::Disabled,
        &request(
            "system",
            vec![
                ConversationMessage::assistant("looking".to_owned(), vec![call("call-view", "attachment_view", "{\"attachment_id\":\"attachment://image-id\"}")]),
                ConversationMessage::tool("{\"context_accepted\":true}".to_owned(), "attachment_view".to_owned(), "call-view".to_owned()),
                user,
            ],
        ),
    )
    .unwrap();

    assert_eq!(body.messages[0].role, "system");
    assert_eq!(body.messages[2].role, "tool");
    match &body.messages[3].content {
        Some(ChatCompletionsContent::Parts(parts)) => {
            assert!(matches!(&parts[0], ChatCompletionsContentPart::Text { text } if text == "Visual context is available."));
            match &parts[1] {
                ChatCompletionsContentPart::ImageUrl { image_url } => {
                    assert_eq!(image_url.url, "data:image/png;base64,abc123")
                }
                other => panic!("unexpected part: {other:?}"),
            }
        }
        other => panic!("unexpected content: {other:?}"),
    }
}

#[test]
fn rejects_video_content_parts_before_transport() {
    let mut user = ConversationMessage::user("fallback".to_owned());
    user.content_parts = vec![ConversationContentPart::Video {
        mime_type: "video/mp4".to_owned(),
        data_base64: "dmlkZW8=".to_owned(),
    }];
    let error = build_request("grok-4", ThinkingLevel::Disabled, &request("system", vec![user]))
        .expect_err("video parts must be rejected");

    match error {
        ModelError::Provider { provider, model_id, message } => {
            assert_eq!(provider, "xai");
            assert_eq!(model_id, "grok-4");
            assert_eq!(message, "xAI accepts text and image content parts only");
        }
        other => panic!("unexpected error: {other:?}"),
    }
}

#[test]
fn maps_generation_controls_and_blank_system_to_final_request() {
    let mut model_request = request("", vec![ConversationMessage::user("hello".to_owned())]);
    model_request.tools = vec![lookup_tool()];
    model_request.controls.generation = GenerationControls {
        tool_choice: Some(ModelToolChoice::Function("lookup".to_owned())),
        max_output_tokens: Some(900),
        stop_sequences: vec!["done".to_owned()],
    };
    let body = build_request("grok-4", ThinkingLevel::Disabled, &model_request).unwrap();

    assert_eq!(body.messages[0].role, "user");
    assert_eq!(body.max_tokens, Some(900));
    assert_eq!(body.stop, vec!["done".to_owned()]);
    match &body.tool_choice {
        Some(ChatCompletionsToolChoice::Function(named)) => {
            assert_eq!(named.kind, "function");
            assert_eq!(named.function.name, "lookup");
        }
        other => panic!("unexpected tool choice: {other:?}"),
    }
    assert!(!body.deferred);
    assert_eq!(body.tools.len(), 1);
    assert_eq!(body.tools[0].kind, "function");
    assert_eq!(body.tools[0].function.name, "lookup");
    assert_eq!(body.tools[0].function.description, "Look up a value");
}

#[test]
fn required_or_auto_uses_forced_required_semantics() {
    let mut model_request = request("system", vec![ConversationMessage::user("hello".to_owned())]);
    model_request.tools = vec![lookup_tool()];
    model_request.controls.generation.tool_choice = Some(ModelToolChoice::RequiredOrAuto);

    let body = build_request("grok-4", ThinkingLevel::Disabled, &model_request).unwrap();

    assert_eq!(mode_of(&body.tool_choice), Some("required"));
}

#[test]
fn tool_choice_defaults_to_auto_only_when_tools_are_offered() {
    let mut with_tools = request("system", vec![ConversationMessage::user("hello".to_owned())]);
    with_tools.tools = vec![lookup_tool()];
    let without_tools = request("system", vec![ConversationMessage::user("hello".to_owned())]);
    let mut no_tools_choice = request("system", vec![ConversationMessage::user("hello".to_owned())]);
    no_tools_choice.controls.generation.tool_choice = Some(ModelToolChoice::NoTools);

    assert_eq!(mode_of(&build_request("grok-4", ThinkingLevel::Disabled, &with_tools).unwrap().tool_choice), Some("auto"));
    assert!(build_request("grok-4", ThinkingLevel::Disabled, &without_tools).unwrap().tool_choice.is_none());
    assert_eq!(mode_of(&build_request("grok-4", ThinkingLevel::Disabled, &no_tools_choice).unwrap().tool_choice), Some("none"));
}

#[test]
fn system_prompt_omits_empty_and_spaces_but_preserves_nonblank() {
    for (system_prompt, expected) in [("", None), ("   ", None), ("\t\n", None), ("normal", Some("normal"))] {
        let body = build_request(
            "grok-4",
            ThinkingLevel::Disabled,
            &request(system_prompt, vec![ConversationMessage::user("hello".to_owned())]),
        )
        .unwrap();

        match expected {
            Some(expected) => {
                assert_eq!(body.messages[0].role, "system");
                assert_eq!(text_of(&body.messages[0]), Some(expected));
                assert_eq!(body.messages.len(), 2);
            }
            None => {
                assert_eq!(body.messages[0].role, "user");
                assert_eq!(body.messages.len(), 1);
            }
        }
    }
}

#[test]
fn deferred_preference_and_structured_output_reach_the_body() {
    let mut model_request = request("system", vec![ConversationMessage::user("hello".to_owned())]);
    model_request.controls.execution.completion_mode = ModelCompletionMode::PreferDeferred;
    model_request.response_schema = Some(StructuredOutputSchema {
        name: "status".to_owned(),
        schema: json("{\"type\":\"object\"}"),
    });

    let body = build_request("grok-4", ThinkingLevel::Medium, &model_request).unwrap();

    assert!(body.deferred);
    let format = body.response_format.expect("response format");
    assert_eq!(format.kind, "json_schema");
    assert_eq!(format.json_schema.name, "status");
    assert!(!format.json_schema.strict);
    assert_eq!(body.reasoning_effort.as_deref(), Some("medium"));
    assert_eq!(body.model, "grok-4");
}

#[test]
fn reasoning_effort_follows_the_thinking_level() {
    assert_eq!(reasoning_effort("grok-4.20", ThinkingLevel::Disabled), None);
    assert_eq!(reasoning_effort("grok-4.20", ThinkingLevel::Low), Some("low"));
    assert_eq!(reasoning_effort("grok-4.20", ThinkingLevel::Medium), Some("medium"));
    assert_eq!(reasoning_effort("grok-4.20", ThinkingLevel::High), Some("high"));
    assert_eq!(reasoning_effort("grok-4.20", ThinkingLevel::ExtraHigh), Some("xhigh"));
    assert_eq!(reasoning_effort("grok-4.20", ThinkingLevel::Max), Some("high"));
}

#[test]
fn builds_xai_thinking_variant_requests() {
    let body = build_request(
        "grok-4.20",
        ThinkingLevel::High,
        &request("system", vec![ConversationMessage::user("hello".to_owned())]),
    )
    .unwrap();

    assert_eq!(body.model, "grok-4.20");
    assert_eq!(body.reasoning_effort.as_deref(), Some("high"));
}
