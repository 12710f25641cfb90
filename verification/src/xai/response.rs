//! xAI chat-completions response normalization.

use vstd::prelude::*;

use crate::blank::{is_blank, is_blank_text};
use crate::error::ModelError;
use crate::interface::{
    thinking_level_label, FinishReason, ModelResponse, ModelUsage, ProviderConversationItem,
    StructuredOutputSchema, ThinkingLevel, ToolCall,
};
use crate::json::{json_display, json_parse, parse_json_text, value_display_text};
use crate::tool_output::str_equal;
use crate::xai::request::{is_xai_provider_error, opt_view, PROVIDER};
use crate::xai::request_types::ChatCompletionsToolFunction;

verus! {

/// Message of the error for a response without choices.
pub const NO_CHOICES: &'static str = "xAI response had no choices";

/// Message of the error for tool call arguments that are not JSON.
pub const INVALID_TOOL_ARGUMENTS: &'static str = "invalid tool call arguments";

/// Message of the error for structured output that is not JSON.
pub const INVALID_STRUCTURED_OUTPUT: &'static str = "invalid structured output";

/// One parsed chat-completions response body.
#[derive(Debug)]
pub struct ChatCompletionsResponse {
    /// Choices; the first one is used.
    pub choices: Vec<ChatCompletionsChoice>,
    /// Token usage, when reported.
    pub usage: Option<ChatCompletionsUsage>,
}

/// One response choice.
#[derive(Debug)]
pub struct ChatCompletionsChoice {
    /// The assistant message.
    pub message: ChatCompletionsAssistantMessage,
    /// Raw finish reason, when reported.
    pub finish_reason: Option<String>,
}

/// The assistant message of a choice.
#[derive(Debug)]
pub struct ChatCompletionsAssistantMessage {
    /// Text content, when any.
    pub content: Option<String>,
    /// Requested tool calls.
    pub tool_calls: Vec<ChatCompletionsResponseToolCall>,
    /// A legacy function call, when the model made one.
    pub function_call: Option<ChatCompletionsToolFunction>,
}

/// Prefix of the id given to a legacy function call.
pub const LEGACY_FUNCTION_CALL_PREFIX: &'static str = "xai_legacy_function_call:";

/// One requested tool call as xAI reports it.
#[derive(Debug)]
pub struct ChatCompletionsResponseToolCall {
    /// Call id.
    pub id: String,
    /// Function name and raw argument text.
    pub function: ChatCompletionsToolFunction,
}

/// Token usage as xAI reports it; absent counts are zero.
#[derive(Clone, Copy, Debug, PartialEq, Eq, Structural)]
pub struct ChatCompletionsUsage {
    /// Prompt tokens, cached ones included.
    pub prompt_tokens: u32,
    /// Completion tokens, reasoning ones included.
    pub completion_tokens: u32,
    /// Reported total, when any.
    pub total_tokens: Option<u32>,
    /// Cached prompt tokens.
    pub cached_tokens: u32,
    /// Reasoning tokens.
    pub reasoning_tokens: u32,
}

/// Usage with every count zero, which stands for unreported usage.
pub open spec fn zero_usage() -> ChatCompletionsUsage {
    ChatCompletionsUsage {
        prompt_tokens: 0,
        completion_tokens: 0,
        total_tokens: None,
        cached_tokens: 0,
        reasoning_tokens: 0,
    }
}

impl Default for ChatCompletionsUsage {
    fn default() -> (usage: Self)
        ensures
            usage == zero_usage(),
    {
        ChatCompletionsUsage {
            prompt_tokens: 0,
            completion_tokens: 0,
            total_tokens: None,
            cached_tokens: 0,
            reasoning_tokens: 0,
        }
    }
}

/// `a - b`, or zero where `b` is larger.
pub open spec fn saturating_difference(a: int, b: int) -> int {
    if a >= b {
        a - b
    } else {
        0
    }
}

/// The normalized usage: cached tokens leave the input count, reasoning
/// tokens leave the output count, and the total is the reported one or,
/// when none was reported, the sum of the four counts.
pub open spec fn normalized_usage_of(usage: ChatCompletionsUsage) -> ModelUsage {
    let input = saturating_difference(usage.prompt_tokens as int, usage.cached_tokens as int);
    let output = saturating_difference(
        usage.completion_tokens as int,
        usage.reasoning_tokens as int,
    );
    ModelUsage {
        input_tokens: input as u64,
        output_tokens: output as u64,
        cached_input_tokens: usage.cached_tokens as u64,
        reasoning_tokens: usage.reasoning_tokens as u64,
        total_tokens: match usage.total_tokens {
            Some(total) => total as u64,
            None => (input + output + usage.cached_tokens + usage.reasoning_tokens) as u64,
        },
        estimated_cost_microusd: 0,
    }
}

/// Normalizes reported usage.
pub fn normalized_usage(usage: ChatCompletionsUsage) -> (normalized: ModelUsage)
    ensures
        normalized == normalized_usage_of(usage),
{
    let cached_input_tokens = usage.cached_tokens as u64;
    let reasoning_tokens = usage.reasoning_tokens as u64;
    let input_tokens = (usage.prompt_tokens as u64).saturating_sub(cached_input_tokens);
    let output_tokens = (usage.completion_tokens as u64).saturating_sub(reasoning_tokens);
    let total_tokens = match usage.total_tokens {
        Some(total) => total as u64,
        None => input_tokens.saturating_add(output_tokens).saturating_add(
            cached_input_tokens,
        ).saturating_add(reasoning_tokens),
    };
    ModelUsage {
        input_tokens,
        output_tokens,
        cached_input_tokens,
        reasoning_tokens,
        total_tokens,
        estimated_cost_microusd: 0,
    }
}

/// `reason` is the normalized form of the raw finish reason.
pub open spec fn is_finish_reason_for(reason: FinishReason, raw: Option<Seq<char>>) -> bool {
    match raw {
        Some(text) => if text == "stop"@ {
            reason is Stop
        } else if text == "tool_calls"@ || text == "function_call"@ {
            reason is ToolCalls
        } else if text == "length"@ {
            reason is Truncated
        } else if text == "content_filter"@ {
            reason is Filtered
        } else {
            reason matches FinishReason::Other(other) && other@ == text
        },
        None => reason matches FinishReason::Other(other) && other@ == "missing"@,
    }
}

/// Normalizes a raw finish reason.
pub fn finish_reason(value: Option<&str>) -> (reason: FinishReason)
    ensures
        is_finish_reason_for(
            reason,
            match value {
                Some(text) => Some(text@),
                None => None,
            },
        ),
{
    match value {
        Some(raw) => {
            if str_equal(raw, "stop") {
                FinishReason::Stop
            } else if str_equal(raw, "tool_calls") || str_equal(raw, "function_call") {
                FinishReason::ToolCalls
            } else if str_equal(raw, "length") {
                FinishReason::Truncated
            } else if str_equal(raw, "content_filter") {
                FinishReason::Filtered
            } else {
                FinishReason::Other(raw.to_owned())
            }
        },
        None => FinishReason::Other("missing".to_owned()),
    }
}

/// The assistant text of a message: its content, or empty text.
pub open spec fn assistant_text_of(content: Option<String>) -> Seq<char> {
    match content {
        Some(text) => text@,
        None => Seq::empty(),
    }
}

/// Returns the assistant text of a message.
pub fn assistant_text(content: Option<String>) -> (text: String)
    ensures
        text@ == assistant_text_of(content),
{
    match content {
        Some(text) => text,
        None => String::new(),
    }
}

/// Parses the raw argument text of a tool call; text that is not JSON is a
/// provider error.
pub fn parse_tool_call_arguments(model_id: &str, arguments: &str) -> (result: Result<
    serde_json::Value,
    ModelError,
>)
    ensures
        match json_parse(arguments@) {
            Some(value) => result == Ok::<serde_json::Value, ModelError>(value),
            None => result matches Err(error) && is_xai_provider_error(
                error,
                model_id@,
                INVALID_TOOL_ARGUMENTS@,
            ),
        },
{
    match parse_json_text(arguments) {
        Ok(value) => Ok(value),
        Err(_) => Err(
            ModelError::provider(
                PROVIDER.to_owned(),
                model_id.to_owned(),
                INVALID_TOOL_ARGUMENTS.to_owned(),
            ),
        ),
    }
}

/// Parses the assistant text as the requested structured output; text that
/// is not JSON is a provider error.
pub fn parse_structured_output(model_id: &str, text: &str) -> (result: Result<
    serde_json::Value,
    ModelError,
>)
    ensures
        match json_parse(text@) {
            Some(value) => result == Ok::<serde_json::Value, ModelError>(value),
            None => result matches Err(error) && is_xai_provider_error(
                error,
                model_id@,
                INVALID_STRUCTURED_OUTPUT@,
            ),
        },
{
    match parse_json_text(text) {
        Ok(value) => Ok(value),
        Err(_) => Err(
            ModelError::provider(
                PROVIDER.to_owned(),
                model_id.to_owned(),
                INVALID_STRUCTURED_OUTPUT.to_owned(),
            ),
        ),
    }
}

/// Whether the raw finish reason marks a truncated answer.
pub open spec fn is_truncated_raw(raw: Option<Seq<char>>) -> bool {
    raw == Some("length"@)
}

/// Whether the raw finish reason marks a filtered answer.
pub open spec fn is_filtered_raw(raw: Option<Seq<char>>) -> bool {
    raw == Some("content_filter"@)
}

/// The tool calls that are parsed: none of a truncated answer, whose
/// arguments may be cut off, else all of them.
pub open spec fn kept_tool_calls(choice: ChatCompletionsChoice) -> Seq<
    ChatCompletionsResponseToolCall,
> {
    if is_truncated_raw(opt_view(choice.finish_reason)) {
        Seq::empty()
    } else {
        choice.message.tool_calls@
    }
}

/// The legacy function call that is parsed: none of a truncated answer,
/// else the one the message carries, if any.
pub open spec fn kept_legacy_call(choice: ChatCompletionsChoice) -> Option<
    ChatCompletionsToolFunction,
> {
    if is_truncated_raw(opt_view(choice.finish_reason)) {
        None
    } else {
        choice.message.function_call
    }
}

/// The id given to a legacy function call: the prefix and the request's
/// scope.
pub open spec fn legacy_call_id(scope: Seq<char>) -> Seq<char> {
    LEGACY_FUNCTION_CALL_PREFIX@ + scope
}

/// Whether every kept tool call has JSON arguments.
pub open spec fn tool_arguments_parse(calls: Seq<ChatCompletionsResponseToolCall>) -> bool {
    forall|i: int| 0 <= i < calls.len() ==> #[trigger] json_parse(calls[i].function.arguments@) is Some
}

/// Whether the kept tool calls, and the kept legacy call, all have JSON
/// arguments.
pub open spec fn all_arguments_parse(choice: ChatCompletionsChoice) -> bool {
    &&& tool_arguments_parse(kept_tool_calls(choice))
    &&& (kept_legacy_call(choice) matches Some(f) ==> json_parse(f.arguments@) is Some)
}

/// Whether the assistant text is parsed as structured output: a schema was
/// requested, no tool call was kept, and the answer was neither truncated
/// nor filtered.
pub open spec fn wants_structured_output(has_schema: bool, choice: ChatCompletionsChoice) -> bool {
    let raw = opt_view(choice.finish_reason);
    &&& has_schema
    &&& kept_tool_calls(choice).len() == 0
    &&& kept_legacy_call(choice) is None
    &&& !is_truncated_raw(raw)
    &&& !is_filtered_raw(raw)
}

/// A first choice that makes a tool call, or a legacy function call, and
/// was not cut off by the length limit never has its text parsed as
/// structured output, whether or not a schema was requested.
pub proof fn lemma_tool_calls_are_not_parsed_as_structured_output(
    has_schema: bool,
    choice: ChatCompletionsChoice,
)
    requires
        choice.message.tool_calls@.len() > 0 || choice.message.function_call is Some,
        opt_view(choice.finish_reason) != Some("length"@),
    ensures
        !wants_structured_output(has_schema, choice),
{
}

/// The normalized response of such a choice carries its tool calls and no
/// structured output.
pub proof fn lemma_tool_call_response_has_no_structured_output(
    response: ModelResponse,
    catalog_model_id: Seq<char>,
    provider_model_id: Seq<char>,
    thinking_level: ThinkingLevel,
    scope: Seq<char>,
    parsed: ChatCompletionsResponse,
    has_schema: bool,
)
    requires
        parsed.choices@.len() > 0,
        is_normalized_response(
            response,
            catalog_model_id,
            provider_model_id,
            thinking_level,
            scope,
            parsed,
            has_schema,
        ),
        parsed.choices@[0].message.tool_calls@.len() > 0
            || parsed.choices@[0].message.function_call is Some,
        opt_view(parsed.choices@[0].finish_reason) != Some("length"@),
    ensures
        response.structured_output is None,
        response.tool_calls@.len() == parsed.choices@[0].message.tool_calls@.len() + if parsed.choices@[0].message.function_call is Some {
            1int
        } else {
            0int
        },
        response.tool_calls@.len() > 0,
{
    lemma_tool_calls_are_not_parsed_as_structured_output(has_schema, parsed.choices@[0]);
}

/// `call` is the tool call made of a legacy function call under the
/// request's scope: the scoped id, which is also its operation id.
pub open spec fn is_legacy_tool_call(
    call: ToolCall,
    function: ChatCompletionsToolFunction,
    scope: Seq<char>,
) -> bool {
    &&& call.id@ == legacy_call_id(scope)
    &&& call.name@ == function.name@
    &&& json_parse(function.arguments@) == Some(call.input)
    &&& call.operation_id matches Some(op) && op@ == legacy_call_id(scope)
}

/// `call` is the normalized form of a reported tool call.
pub open spec fn is_normalized_tool_call(call: ToolCall, wire: ChatCompletionsResponseToolCall) -> bool {
    &&& call.id@ == wire.id@
    &&& call.name@ == wire.function.name@
    &&& json_parse(wire.function.arguments@) == Some(call.input)
    &&& call.operation_id is None
}

/// `response` is the normalized response for the first choice of `parsed`.
pub open spec fn is_normalized_response(
    response: ModelResponse,
    catalog_model_id: Seq<char>,
    provider_model_id: Seq<char>,
    thinking_level: ThinkingLevel,
    scope: Seq<char>,
    parsed: ChatCompletionsResponse,
    has_schema: bool,
) -> bool {
    let choice = parsed.choices@[0];
    let calls = kept_tool_calls(choice);
    let legacy = kept_legacy_call(choice);
    let text = assistant_text_of(choice.message.content);
    let structured = if wants_structured_output(has_schema, choice) {
        json_parse(text)
    } else {
        None
    };
    &&& response.provider@ == PROVIDER@
    &&& response.model_id@ == provider_model_id
    &&& response.catalog_model_id matches Some(id) && id@ == catalog_model_id
    &&& response.thinking_level matches Some(label) && label@ == thinking_level_label(
        thinking_level,
    )
    &&& is_finish_reason_for(response.finish_reason, opt_view(choice.finish_reason))
    &&& response.tool_calls@.len() == calls.len() + if legacy is Some {
        1int
    } else {
        0int
    }
    &&& forall|i: int|
        0 <= i < calls.len() ==> is_normalized_tool_call(#[trigger] response.tool_calls@[i], calls[i])
    &&& match legacy {
        Some(f) => {
            &&& is_legacy_tool_call(response.tool_calls@[calls.len() as int], f, scope)
            &&& response.provider_context@.len() == 1
            &&& response.provider_context@[0] matches ProviderConversationItem::XaiLegacyFunctionCall {
                tool_call_id,
                name,
                arguments,
            }
            &&& tool_call_id@ == legacy_call_id(scope)
            &&& name@ == f.name@
            &&& arguments@ == f.arguments@
        },
        None => response.provider_context@.len() == 0,
    }
    &&& response.structured_output == structured
    &&& response.assistant_message@ == if is_blank_text(text) {
        match structured {
            Some(value) => json_display(value),
            None => Seq::empty(),
        }
    } else {
        text
    }
    &&& response.usage == normalized_usage_of(
        match parsed.usage {
            Some(usage) => usage,
            None => zero_usage(),
        },
    )
}

/// Normalizes tool calls, stopping at the first whose arguments are not
/// JSON.
fn normalized_tool_calls(model_id: &str, calls: &Vec<ChatCompletionsResponseToolCall>) -> (result:
    Result<Vec<ToolCall>, ModelError>)
    ensures
        tool_arguments_parse(calls@) ==> (result matches Ok(normalized) && normalized@.len()
            == calls@.len() && forall|i: int|
            0 <= i < calls@.len() ==> is_normalized_tool_call(
                #[trigger] normalized@[i],
                calls@[i],
            )),
        !tool_arguments_parse(calls@) ==> (result matches Err(error) && is_xai_provider_error(
            error,
            model_id@,
            INVALID_TOOL_ARGUMENTS@,
        )),
{
    let mut normalized: Vec<ToolCall> = Vec::new();
    let mut i: usize = 0;
    while i < calls.len()
        invariant
            i <= calls@.len(),
            normalized@.len() == i,
            forall|j: int|
                0 <= j < i ==> is_normalized_tool_call(#[trigger] normalized@[j], calls@[j]),
        decreases calls@.len() - i,
    {
        let call = &calls[i];
        let input = match parse_tool_call_arguments(model_id, call.function.arguments.as_str()) {
            Ok(input) => input,
            Err(error) => {
                return Err(error);
            },
        };
        normalized.push(
            ToolCall {
                id: call.id.clone(),
                name: call.function.name.clone(),
                input,
                operation_id: None,
            },
        );
        i = i + 1;
    }
    proof {
        assert forall|j: int| 0 <= j < calls@.len() implies #[trigger] json_parse(
            calls@[j].function.arguments@,
        ) is Some by {
            assert(is_normalized_tool_call(normalized@[j], calls@[j]));
        }
    }
    Ok(normalized)
}

/// Normalizes a parsed response: the first choice's tool calls, its legacy
/// function call as one more tool call scoped to the request, text,
/// structured output, finish reason and usage. A response without choices,
/// tool call arguments that are not JSON, and requested structured output
/// that is not JSON are provider errors, checked in that order.
pub fn normalize_response(
    catalog_model_id: &str,
    provider_model_id: &str,
    thinking_level: ThinkingLevel,
    synthetic_tool_call_scope: &str,
    parsed: ChatCompletionsResponse,
    response_schema: Option<&StructuredOutputSchema>,
) -> (result: Result<ModelResponse, ModelError>)
    ensures
        parsed.choices@.len() == 0 ==> (result matches Err(error) && is_xai_provider_error(
            error,
            provider_model_id@,
            NO_CHOICES@,
        )),
        parsed.choices@.len() > 0 && !all_arguments_parse(parsed.choices@[0]) ==> (result matches Err(
            error,
        ) && is_xai_provider_error(error, provider_model_id@, INVALID_TOOL_ARGUMENTS@)),
        parsed.choices@.len() > 0 && all_arguments_parse(parsed.choices@[0])
            && wants_structured_output(response_schema is Some, parsed.choices@[0]) && json_parse(
            assistant_text_of(parsed.choices@[0].message.content),
        ) is None ==> (result matches Err(error) && is_xai_provider_error(
            error,
            provider_model_id@,
            INVALID_STRUCTURED_OUTPUT@,
        )),
        parsed.choices@.len() > 0 && all_arguments_parse(parsed.choices@[0]) && (
        parsed.choices@[0].message.tool_calls@.len() > 0
            || parsed.choices@[0].message.function_call is Some) && opt_view(
            parsed.choices@[0].finish_reason,
        ) != Some("length"@) ==> (result matches Ok(response) && response.structured_output is None
            && response.tool_calls@.len() > 0),
        parsed.choices@.len() > 0 && all_arguments_parse(parsed.choices@[0]) && !(
        wants_structured_output(response_schema is Some, parsed.choices@[0]) && json_parse(
            assistant_text_of(parsed.choices@[0].message.content),
        ) is None) ==> (result matches Ok(response) && is_normalized_response(
            response,
            catalog_model_id@,
            provider_model_id@,
            thinking_level,
            synthetic_tool_call_scope@,
            parsed,
            response_schema is Some,
        )),
{
    let ghost whole = parsed;
    let ChatCompletionsResponse { choices, usage } = parsed;
    let mut choices = choices;
    if choices.len() == 0 {
        return Err(
            ModelError::provider(
                PROVIDER.to_owned(),
                provider_model_id.to_owned(),
                NO_CHOICES.to_owned(),
            ),
        );
    }
    let choice = choices.remove(0);
    let ghost first = choice;
    let ChatCompletionsChoice { message, finish_reason: raw_finish } = choice;
    let finish = finish_reason(
        match &raw_finish {
            Some(raw) => Some(raw.as_str()),
            None => None,
        },
    );
    let truncated = match &raw_finish {
        Some(raw) => str_equal(raw.as_str(), "length"),
        None => false,
    };
    let filtered = match &raw_finish {
        Some(raw) => str_equal(raw.as_str(), "content_filter"),
        None => false,
    };
    let ChatCompletionsAssistantMessage { content, tool_calls: wire_calls, function_call } = message;
    let kept = if truncated {
        Vec::new()
    } else {
        wire_calls
    };
    let legacy = if truncated {
        None
    } else {
        function_call
    };
    proof {
        assert(kept@ == kept_tool_calls(first));
        assert(legacy == kept_legacy_call(first));
    }
    let mut tool_calls = match normalized_tool_calls(provider_model_id, &kept) {
        Ok(tool_calls) => tool_calls,
        Err(error) => {
            return Err(error);
        },
    };
    let ghost regular = tool_calls@;
    let mut provider_context: Vec<ProviderConversationItem> = Vec::new();
    let has_legacy = legacy.is_some();
    if let Some(function) = legacy {
        let input = match parse_tool_call_arguments(provider_model_id, function.arguments.as_str()) {
            Ok(input) => input,
            Err(error) => {
                return Err(error);
            },
        };
        let mut id = LEGACY_FUNCTION_CALL_PREFIX.to_owned();
        id.append(synthetic_tool_call_scope);
        tool_calls.push(
            ToolCall {
                id: id.clone(),
                name: function.name.clone(),
                input,
                operation_id: Some(id.clone()),
            },
        );
        provider_context.push(
            ProviderConversationItem::XaiLegacyFunctionCall {
                tool_call_id: id,
                name: function.name,
                arguments: function.arguments,
            },
        );
        proof {
            assert forall|i: int| 0 <= i < kept@.len() implies is_normalized_tool_call(
                #[trigger] tool_calls@[i],
                kept@[i],
            ) by {
                assert(tool_calls@[i] == regular[i]);
            }
        }
    }
    let usage = match usage {
        Some(usage) => normalized_usage(usage),
        None => normalized_usage(ChatCompletionsUsage::default()),
    };
    let text = assistant_text(content);
    let wants = response_schema.is_some() && kept.len() == 0 && !has_legacy && !truncated
        && !filtered;
    proof {
        assert(wants == wants_structured_output(response_schema is Some, first));
    }
    let structured_output = if wants {
        match parse_structured_output(provider_model_id, text.as_str()) {
            Ok(value) => Some(value),
            Err(error) => {
                return Err(error);
            },
        }
    } else {
        None
    };
    let assistant_message = if is_blank(text.as_str()) {
        match &structured_output {
            Some(value) => value_display_text(value),
            None => String::new(),
        }
    } else {
        text
    };
    Ok(
        ModelResponse {
            provider: PROVIDER.to_owned(),
            model_id: provider_model_id.to_owned(),
            catalog_model_id: Some(catalog_model_id.to_owned()),
            thinking_level: Some(thinking_level.as_str().to_owned()),
            assistant_message,
            tool_calls,
            finish_reason: finish,
            structured_output,
            provider_context,
            usage,
        },
    )
}

} // verus!
