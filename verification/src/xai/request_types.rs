//! xAI chat-completions request values.

use vstd::prelude::*;

verus! {

/// One chat-completions request body.
#[derive(Debug)]
pub struct ChatCompletionsRequest {
    /// Provider model id.
    pub model: String,
    /// Messages, system prompt first.
    pub messages: Vec<ChatCompletionsMessage>,
    /// Tools offered to the model.
    pub tools: Vec<ChatCompletionsTool>,
    /// Tool choice, when any.
    pub tool_choice: Option<ChatCompletionsToolChoice>,
    /// Structured output format, when a schema was requested.
    pub response_format: Option<ChatCompletionsResponseFormat>,
    /// Reasoning effort, when the model takes one.
    pub reasoning_effort: Option<String>,
    /// Output token cap.
    pub max_tokens: Option<u32>,
    /// Stop sequences.
    pub stop: Vec<String>,
    /// Whether the completion is deferred.
    pub deferred: bool,
}

/// One chat-completions message.
#[derive(Debug)]
pub struct ChatCompletionsMessage {
    /// Wire role.
    pub role: String,
    /// Content, when any.
    pub content: Option<ChatCompletionsContent>,
    /// Author or function name.
    pub name: Option<String>,
    /// Answered tool call id.
    pub tool_call_id: Option<String>,
    /// Tool calls of an assistant message.
    pub tool_calls: Vec<ChatCompletionsToolCall>,
    /// Legacy function call of an assistant message.
    pub function_call: Option<ChatCompletionsToolFunction>,
}

/// Message content: plain text or parts.
#[derive(Debug)]
pub enum ChatCompletionsContent {
    /// Plain text.
    Text(String),
    /// Multimodal parts.
    Parts(Vec<ChatCompletionsContentPart>),
}

/// One multimodal content part.
#[derive(Debug)]
pub enum ChatCompletionsContentPart {
    /// Text part.
    Text {
        /// The text.
        text: String,
    },
    /// Image part.
    ImageUrl {
        /// The image location.
        image_url: ChatCompletionsImageUrl,
    },
}

/// An image location, here a data URL.
#[derive(Debug)]
pub struct ChatCompletionsImageUrl {
    /// The URL.
    pub url: String,
}

/// One tool call on the wire.
#[derive(Debug)]
pub struct ChatCompletionsToolCall {
    /// Call id.
    pub id: String,
    /// Always `function`.
    pub kind: String,
    /// Function and arguments.
    pub function: ChatCompletionsToolFunction,
}

/// One tool offered on the wire.
#[derive(Debug)]
pub struct ChatCompletionsTool {
    /// Always `function`.
    pub kind: String,
    /// Function definition.
    pub function: ChatCompletionsToolDefinition,
}

/// A function definition on the wire.
#[derive(Debug)]
pub struct ChatCompletionsToolDefinition {
    /// Function name.
    pub name: String,
    /// Description.
    pub description: String,
    /// Argument schema.
    pub parameters: serde_json::Value,
}

/// A function name with its argument text.
#[derive(Debug)]
pub struct ChatCompletionsToolFunction {
    /// Function name.
    pub name: String,
    /// Argument JSON text.
    pub arguments: String,
}

/// Tool choice on the wire.
#[derive(Debug)]
pub enum ChatCompletionsToolChoice {
    /// `none`, `auto` or `required`.
    Mode(String),
    /// One named function.
    Function(ChatCompletionsNamedToolChoice),
}

/// A named-function tool choice.
#[derive(Debug)]
pub struct ChatCompletionsNamedToolChoice {
    /// Always `function`.
    pub kind: String,
    /// The function.
    pub function: ChatCompletionsNamedFunction,
}

/// A function named by a tool choice.
#[derive(Debug)]
pub struct ChatCompletionsNamedFunction {
    /// Function name.
    pub name: String,
}

/// Structured output format on the wire.
#[derive(Debug)]
pub struct ChatCompletionsResponseFormat {
    /// Always `json_schema`.
    pub kind: String,
    /// The schema.
    pub json_schema: ChatCompletionsJsonSchema,
}

/// A named JSON schema.
#[derive(Debug)]
pub struct ChatCompletionsJsonSchema {
    /// Schema name.
    pub name: String,
    /// The schema.
    pub schema: serde_json::Value,
    /// Whether the provider enforces it strictly.
    pub strict: bool,
}

} // verus!
