//! Conversation, model and tool values that the runtime and the xAI adapter
//! read and produce.

use vstd::prelude::*;

verus! {

/// Author of one conversation message.
#[derive(Clone, Copy, Debug, PartialEq, Eq, Structural)]
pub enum ConversationRole {
    /// Caller or end user.
    User,
    /// Model reply.
    Assistant,
    /// Tool result.
    Tool,
}

/// One model-requested tool invocation.
#[derive(Clone, Debug, PartialEq)]
pub struct ToolCall {
    /// Provider-assigned call id.
    pub id: String,
    /// Model-visible tool name.
    pub name: String,
    /// JSON arguments.
    pub input: serde_json::Value,
    /// Idempotency key for the tool, when the provider scoped one.
    pub operation_id: Option<String>,
}

/// One part of a multimodal message.
#[derive(Clone, Debug, PartialEq, Eq)]
pub enum ConversationContentPart {
    /// Plain text.
    Text {
        /// The text.
        text: String,
    },
    /// Inline image bytes.
    Image {
        /// MIME type such as `image/png`.
        mime_type: String,
        /// Base64-encoded image bytes.
        data_base64: String,
    },
    /// Inline video bytes.
    Video {
        /// MIME type such as `video/mp4`.
        mime_type: String,
        /// Base64-encoded video bytes.
        data_base64: String,
    },
}

/// Provider-owned replay context attached to a message.
#[derive(Clone, Debug, PartialEq)]
pub enum ProviderConversationItem {
    /// A legacy xAI `function_call` that the model made.
    XaiLegacyFunctionCall {
        /// Tool call id the function call answered as.
        tool_call_id: String,
        /// Function name.
        name: String,
        /// Raw argument text.
        arguments: String,
    },
    /// Kimi assistant replay message.
    KimiAssistantMessage {
        /// Provider payload.
        payload: serde_json::Value,
    },
    /// MiniMax assistant replay message.
    MiniMaxAssistant {
        /// Provider payload.
        payload: serde_json::Value,
    },
    /// DeepSeek assistant replay message.
    DeepSeekAssistantMessage {
        /// Provider payload.
        payload: serde_json::Value,
    },
    /// Qwen assistant replay message.
    QwenAssistantMessage {
        /// Provider payload.
        payload: serde_json::Value,
    },
    /// OpenAI message item.
    OpenAiMessage {
        /// Provider payload.
        payload: serde_json::Value,
    },
    /// OpenAI reasoning item.
    OpenAiReasoning {
        /// Provider payload.
        payload: serde_json::Value,
    },
    /// OpenAI function call item.
    OpenAiFunctionCall {
        /// Provider payload.
        payload: serde_json::Value,
    },
}

impl ProviderConversationItem {
    /// Returns a field-for-field copy of this item.
    pub fn duplicate(&self) -> (copy: ProviderConversationItem)
        ensures
            copy == *self,
    {
        match self {
            ProviderConversationItem::XaiLegacyFunctionCall { tool_call_id, name, arguments } => {
                ProviderConversationItem::XaiLegacyFunctionCall {
                    tool_call_id: tool_call_id.clone(),
                    name: name.clone(),
                    arguments: arguments.clone(),
                }
            },
            ProviderConversationItem::KimiAssistantMessage { payload } => {
                ProviderConversationItem::KimiAssistantMessage { payload: payload.clone() }
            },
            ProviderConversationItem::MiniMaxAssistant { payload } => {
                ProviderConversationItem::MiniMaxAssistant { payload: payload.clone() }
            },
            ProviderConversationItem::DeepSeekAssistantMessage { payload } => {
                ProviderConversationItem::DeepSeekAssistantMessage { payload: payload.clone() }
            },
            ProviderConversationItem::QwenAssistantMessage { payload } => {
                ProviderConversationItem::QwenAssistantMessage { payload: payload.clone() }
            },
            ProviderConversationItem::OpenAiMessage { payload } => {
                ProviderConversationItem::OpenAiMessage { payload: payload.clone() }
            },
            ProviderConversationItem::OpenAiReasoning { payload } => {
                ProviderConversationItem::OpenAiReasoning { payload: payload.clone() }
            },
            ProviderConversationItem::OpenAiFunctionCall { payload } => {
                ProviderConversationItem::OpenAiFunctionCall { payload: payload.clone() }
            },
        }
    }
}

/// Returns copies of replay context items, in order.
pub fn duplicate_context(items: &Vec<ProviderConversationItem>) -> (copies: Vec<
    ProviderConversationItem,
>)
    ensures
        copies@ == items@,
{
    let mut copies: Vec<ProviderConversationItem> = Vec::new();
    let mut i: usize = 0;
    while i < items.len()
        invariant
            i <= items@.len(),
            copies@ == items@.subrange(0, i as int),
        decreases items@.len() - i,
    {
        copies.push(items[i].duplicate());
        i = i + 1;
        proof {
            assert(copies@ =~= items@.subrange(0, i as int));
        }
    }
    copies
}

/// One retained conversation message.
#[derive(Clone, Debug, PartialEq)]
pub struct ConversationMessage {
    /// Author role.
    pub role: ConversationRole,
    /// Text content.
    pub content: String,
    /// Multimodal parts; when present they replace `content`.
    pub content_parts: Vec<ConversationContentPart>,
    /// Optional author name.
    pub name: Option<String>,
    /// Tool call answered by a tool message.
    pub tool_call_id: Option<String>,
    /// Tool calls made by an assistant message.
    pub tool_calls: Vec<ToolCall>,
    /// Provider-owned replay context.
    pub provider_context: Vec<ProviderConversationItem>,
}

impl ConversationMessage {
    /// Builds a user message.
    pub fn user(content: String) -> (message: ConversationMessage)
        ensures
            message.role == ConversationRole::User,
            message.content@ == content@,
            message.content_parts@.len() == 0,
            message.name is None,
            message.tool_call_id is None,
            message.tool_calls@.len() == 0,
            message.provider_context@.len() == 0,
    {
        ConversationMessage {
            role: ConversationRole::User,
            content,
            content_parts: Vec::new(),
            name: None,
            tool_call_id: None,
            tool_calls: Vec::new(),
            provider_context: Vec::new(),
        }
    }

    /// Builds an assistant message with its tool calls.
    pub fn assistant(content: String, tool_calls: Vec<ToolCall>) -> (message: ConversationMessage)
        ensures
            message.role == ConversationRole::Assistant,
            message.content@ == content@,
            message.content_parts@.len() == 0,
            message.name is None,
            message.tool_call_id is None,
            message.tool_calls@ == tool_calls@,
            message.provider_context@.len() == 0,
    {
        ConversationMessage {
            role: ConversationRole::Assistant,
            content,
            content_parts: Vec::new(),
            name: None,
            tool_call_id: None,
            tool_calls,
            provider_context: Vec::new(),
        }
    }

    /// Builds a tool-result message for one tool call.
    pub fn tool(content: String, tool_name: String, tool_call_id: String) -> (message:
        ConversationMessage)
        ensures
            message.role == ConversationRole::Tool,
            message.content@ == content@,
            message.content_parts@.len() == 0,
            message.name matches Some(name) && name@ == tool_name@,
            message.tool_call_id matches Some(id) && id@ == tool_call_id@,
            message.tool_calls@.len() == 0,
            message.provider_context@.len() == 0,
    {
        ConversationMessage {
            role: ConversationRole::Tool,
            content,
            content_parts: Vec::new(),
            name: Some(tool_name),
            tool_call_id: Some(tool_call_id),
            tool_calls: Vec::new(),
            provider_context: Vec::new(),
        }
    }
}

/// Normalized reason a model stopped generating.
#[derive(Clone, Debug, PartialEq, Eq)]
pub enum FinishReason {
    /// Natural completion.
    Stop,
    /// The model requested tool calls.
    ToolCalls,
    /// Output hit a length limit.
    Truncated,
    /// The provider filtered the output.
    Filtered,
    /// Any other provider reason, verbatim.
    Other(String),
}

/// Token accounting for one model call.
#[derive(Clone, Copy, Debug, PartialEq, Eq, Structural)]
pub struct ModelUsage {
    /// Uncached input tokens.
    pub input_tokens: u64,
    /// Visible output tokens.
    pub output_tokens: u64,
    /// Cached input tokens.
    pub cached_input_tokens: u64,
    /// Reasoning tokens.
    pub reasoning_tokens: u64,
    /// Total tokens billed.
    pub total_tokens: u64,
    /// Estimated cost in micro-dollars.
    pub estimated_cost_microusd: u64,
}

/// One normalized model response.
#[derive(Clone, Debug, PartialEq)]
pub struct ModelResponse {
    /// Provider name.
    pub provider: String,
    /// Provider model id.
    pub model_id: String,
    /// Catalog model id, when the model came from a catalog.
    pub catalog_model_id: Option<String>,
    /// Thinking level label.
    pub thinking_level: Option<String>,
    /// Assistant text.
    pub assistant_message: String,
    /// Requested tool calls.
    pub tool_calls: Vec<ToolCall>,
    /// Normalized finish reason.
    pub finish_reason: FinishReason,
    /// Parsed structured output, when a schema was requested.
    pub structured_output: Option<serde_json::Value>,
    /// Provider-owned replay context.
    pub provider_context: Vec<ProviderConversationItem>,
    /// Token usage.
    pub usage: ModelUsage,
}

/// A tool as the model sees it.
#[derive(Clone, Debug, PartialEq)]
pub struct ToolDefinition {
    /// Model-visible name.
    pub name: String,
    /// Description shown to the model.
    pub description: String,
    /// JSON schema of the arguments.
    pub input_schema: serde_json::Value,
    /// Verb shown while the tool runs.
    pub activity_verb: Option<String>,
}

/// A named JSON schema that a structured response must follow.
#[derive(Clone, Debug, PartialEq)]
pub struct StructuredOutputSchema {
    /// Schema name.
    pub name: String,
    /// The schema.
    pub schema: serde_json::Value,
}

/// Which tools the model may or must call.
#[derive(Clone, Debug, PartialEq, Eq)]
pub enum ModelToolChoice {
    /// No tool calls (the `none` mode).
    NoTools,
    /// The model decides.
    Auto,
    /// Some tool call is required.
    Required,
    /// A tool call is required, falling back to the model's choice where the
    /// provider cannot enforce it.
    RequiredOrAuto,
    /// This one function must be called.
    Function(String),
}

/// How the caller wants the completion delivered.
#[derive(Clone, Copy, Debug, PartialEq, Eq, Structural)]
pub enum ModelCompletionMode {
    /// Answer within the request.
    Synchronous,
    /// Submit now and collect the answer later where the provider can.
    PreferDeferred,
}

/// Portable generation controls that the adapters read as whole values.
#[derive(Clone, Debug, PartialEq, Eq)]
pub struct GenerationControls {
    /// Tool choice.
    pub tool_choice: Option<ModelToolChoice>,
    /// Output token cap.
    pub max_output_tokens: Option<u32>,
    /// Stop sequences.
    pub stop_sequences: Vec<String>,
}

/// Execution controls.
#[derive(Clone, Debug, PartialEq, Eq)]
pub struct ExecutionControls {
    /// Delivery mode.
    pub completion_mode: ModelCompletionMode,
    /// Whole-call timeout in nanoseconds, when the caller set one.
    pub total_timeout_nanos: Option<u128>,
}

/// Per-call controls.
#[derive(Clone, Debug, PartialEq, Eq)]
pub struct ModelCallControls {
    /// Generation controls.
    pub generation: GenerationControls,
    /// Execution controls.
    pub execution: ExecutionControls,
}

/// One model request.
#[derive(Clone, Debug, PartialEq)]
pub struct ModelRequest {
    /// System prompt; a blank one is not sent.
    pub system_prompt: String,
    /// Conversation so far.
    pub messages: Vec<ConversationMessage>,
    /// Tools offered to the model.
    pub tools: Vec<ToolDefinition>,
    /// Schema a structured response must follow.
    pub response_schema: Option<StructuredOutputSchema>,
    /// Per-call controls.
    pub controls: ModelCallControls,
}

/// Requested reasoning depth.
#[derive(Clone, Copy, Debug, PartialEq, Eq, Structural)]
pub enum ThinkingLevel {
    /// No dedicated reasoning.
    Disabled,
    /// Low effort.
    Low,
    /// Medium effort.
    Medium,
    /// High effort.
    High,
    /// Extra-high effort.
    ExtraHigh,
    /// Maximum effort.
    Max,
}

/// The label of a thinking level.
pub open spec fn thinking_level_label(level: ThinkingLevel) -> Seq<char> {
    match level {
        ThinkingLevel::Disabled => "disabled"@,
        ThinkingLevel::Low => "low"@,
        ThinkingLevel::Medium => "medium"@,
        ThinkingLevel::High => "high"@,
        ThinkingLevel::ExtraHigh => "extra_high"@,
        ThinkingLevel::Max => "max"@,
    }
}

impl ThinkingLevel {
    /// Returns the level's label.
    pub fn as_str(&self) -> (label: &'static str)
        ensures
            label@ == thinking_level_label(*self),
    {
        match self {
            ThinkingLevel::Disabled => "disabled",
            ThinkingLevel::Low => "low",
            ThinkingLevel::Medium => "medium",
            ThinkingLevel::High => "high",
            ThinkingLevel::ExtraHigh => "extra_high",
            ThinkingLevel::Max => "max",
        }
    }
}

} // verus!
