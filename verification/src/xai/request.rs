//! xAI chat-completions request mapping.

use vstd::prelude::*;
use vstd::string::*;

use crate::blank::{is_blank, is_blank_text};
use crate::error::ModelError;
use crate::json::json_display;
use crate::interface::{
    ConversationContentPart, ConversationMessage, ConversationRole, ModelCompletionMode,
    ModelRequest, ModelToolChoice, ProviderConversationItem, StructuredOutputSchema, ThinkingLevel,
    ToolCall, ToolDefinition,
};
use crate::tool_output::str_equal;
use crate::xai::request_types::{
    ChatCompletionsContent, ChatCompletionsContentPart, ChatCompletionsImageUrl,
    ChatCompletionsJsonSchema, ChatCompletionsMessage, ChatCompletionsNamedFunction,
    ChatCompletionsNamedToolChoice, ChatCompletionsRequest, ChatCompletionsResponseFormat,
    ChatCompletionsTool, ChatCompletionsToolCall, ChatCompletionsToolChoice,
    ChatCompletionsToolDefinition, ChatCompletionsToolFunction,
};

verus! {

/// Provider name of the xAI adapter.
pub const PROVIDER: &'static str = "xai";

/// Message of the error for video content, which xAI does not take.
pub const VIDEO_UNSUPPORTED: &'static str = "xAI accepts text and image content parts only";

/// A legacy function call remembered from an earlier assistant message.
#[derive(Clone, Debug, PartialEq, Eq)]
pub struct LegacyFunctionCall {
    /// Tool call id it answered as.
    pub tool_call_id: String,
    /// Function name.
    pub name: String,
    /// Raw argument text.
    pub arguments: String,
}

/// A legacy function call as the contracts see it.
pub struct LegacyCallView {
    /// Tool call id it answered as.
    pub tool_call_id: Seq<char>,
    /// Function name.
    pub name: Seq<char>,
    /// Raw argument text.
    pub arguments: Seq<char>,
}

/// The view of a remembered legacy call.
pub open spec fn legacy_view(call: LegacyFunctionCall) -> LegacyCallView {
    LegacyCallView { tool_call_id: call.tool_call_id@, name: call.name@, arguments: call.arguments@ }
}

/// The reasoning effort sent for a thinking level.
pub open spec fn reasoning_effort_text(level: ThinkingLevel) -> Option<Seq<char>> {
    match level {
        ThinkingLevel::Disabled => None,
        ThinkingLevel::Low => Some("low"@),
        ThinkingLevel::Medium => Some("medium"@),
        ThinkingLevel::High => Some("high"@),
        ThinkingLevel::ExtraHigh => Some("xhigh"@),
        ThinkingLevel::Max => Some("high"@),
    }
}

/// Returns the reasoning effort sent to a model for a thinking level. Every
/// model of the catalog, the Grok 4.20 variants among them, takes the effort
/// its thinking level asks for, so the model id does not change it.
pub fn reasoning_effort(model_id: &str, thinking_level: ThinkingLevel) -> (effort: Option<
    &'static str,
>)
    ensures
        match reasoning_effort_text(thinking_level) {
            Some(text) => effort matches Some(e) && e@ == text,
            None => effort is None,
        },
{
    match thinking_level {
        ThinkingLevel::Disabled => None,
        ThinkingLevel::Low => Some("low"),
        ThinkingLevel::Medium => Some("medium"),
        ThinkingLevel::High => Some("high"),
        ThinkingLevel::ExtraHigh => Some("xhigh"),
        ThinkingLevel::Max => Some("high"),
    }
}

/// The wire role of a message; a tool result that answers a legacy
/// function call is sent as a `function` message.
pub open spec fn role_text(role: ConversationRole, is_legacy_tool_result: bool) -> Seq<char> {
    if is_legacy_tool_result {
        "function"@
    } else {
        match role {
            ConversationRole::User => "user"@,
            ConversationRole::Assistant => "assistant"@,
            ConversationRole::Tool => "tool"@,
        }
    }
}

/// Returns the wire role of a message.
pub fn message_role(role: ConversationRole, is_legacy_tool_result: bool) -> (text: &'static str)
    ensures
        text@ == role_text(role, is_legacy_tool_result),
{
    if is_legacy_tool_result {
        return "function";
    }
    match role {
        ConversationRole::User => "user",
        ConversationRole::Assistant => "assistant",
        ConversationRole::Tool => "tool",
    }
}

/// Optional text, by view.
pub open spec fn opt_view(text: Option<String>) -> Option<Seq<char>> {
    match text {
        Some(t) => Some(t@),
        None => None,
    }
}

/// The wire name of a message: the legacy function's name for a legacy tool
/// result; none for other tool results; the author name otherwise.
pub open spec fn name_of(message: ConversationMessage, legacy_tool_name: Option<Seq<char>>) -> Option<
    Seq<char>,
> {
    match legacy_tool_name {
        Some(name) => Some(name),
        None => match message.role {
            ConversationRole::Tool => None,
            _ => opt_view(message.name),
        },
    }
}

/// Returns the wire name of a message.
pub fn message_name(message: &ConversationMessage, legacy_tool_name: Option<&String>) -> (name:
    Option<String>)
    ensures
        opt_view(name) == name_of(
            *message,
            match legacy_tool_name {
                Some(n) => Some(n@),
                None => None,
            },
        ),
{
    if let Some(name) = legacy_tool_name {
        return Some(name.clone());
    }
    match message.role {
        ConversationRole::Tool => None,
        ConversationRole::User | ConversationRole::Assistant => message.name.clone(),
    }
}

/// Returns the wire tool call id of a message: none for a legacy tool
/// result, which names its function instead.
pub fn message_tool_call_id(message: &ConversationMessage, is_legacy_tool_result: bool) -> (id:
    Option<String>)
    ensures
        opt_view(id) == if is_legacy_tool_result {
            None
        } else {
            opt_view(message.tool_call_id)
        },
{
    if is_legacy_tool_result {
        return None;
    }
    message.tool_call_id.clone()
}

/// The data URL of an inline image.
pub open spec fn image_data_url(mime_type: Seq<char>, data_base64: Seq<char>) -> Seq<char> {
    "data:"@ + mime_type + ";base64,"@ + data_base64
}

/// The xAI error for content it cannot take.
pub open spec fn is_xai_provider_error(error: ModelError, model_id: Seq<char>, message: Seq<char>) -> bool {
    error matches ModelError::Provider { provider, model_id: m, message: t } && provider@
        == PROVIDER@ && m@ == model_id && t@ == message
}

/// `wire` is the wire form of a text or image part.
pub open spec fn is_wire_part(wire: ChatCompletionsContentPart, part: ConversationContentPart) -> bool {
    match part {
        ConversationContentPart::Text { text } => wire matches ChatCompletionsContentPart::Text {
            text: t,
        } && t@ == text@,
        ConversationContentPart::Image { mime_type, data_base64 } => wire matches ChatCompletionsContentPart::ImageUrl {
            image_url,
        } && image_url.url@ == image_data_url(mime_type@, data_base64@),
        ConversationContentPart::Video { .. } => false,
    }
}

/// Maps one content part; video is refused.
pub fn content_part(model_id: &str, part: &ConversationContentPart) -> (result: Result<
    ChatCompletionsContentPart,
    ModelError,
>)
    ensures
        match result {
            Ok(wire) => is_wire_part(wire, *part),
            Err(error) => part is Video && is_xai_provider_error(
                error,
                model_id@,
                VIDEO_UNSUPPORTED@,
            ),
        },
        part is Video ==> result is Err,
{
    match part {
        ConversationContentPart::Text { text } => Ok(
            ChatCompletionsContentPart::Text { text: text.clone() },
        ),
        ConversationContentPart::Image { mime_type, data_base64 } => {
            let mut url = "data:".to_owned();
            url.append(mime_type.as_str());
            url.append(";base64,");
            url.append(data_base64.as_str());
            Ok(ChatCompletionsContentPart::ImageUrl { image_url: ChatCompletionsImageUrl { url } })
        },
        ConversationContentPart::Video { .. } => Err(
            ModelError::provider(
                PROVIDER.to_owned(),
                model_id.to_owned(),
                VIDEO_UNSUPPORTED.to_owned(),
            ),
        ),
    }
}

/// Whether a message holds a video part.
pub open spec fn has_video_part(message: ConversationMessage) -> bool {
    exists|i: int|
        0 <= i < message.content_parts@.len() && #[trigger] message.content_parts@[i] is Video
}

/// `content` is the wire content of a message without video parts: its
/// parts when it has any, else its text when non-empty, else nothing.
pub open spec fn is_wire_content(content: Option<ChatCompletionsContent>, message: ConversationMessage) -> bool {
    if message.content_parts@.len() > 0 {
        content matches Some(ChatCompletionsContent::Parts(parts)) && parts@.len()
            == message.content_parts@.len() && forall|i: int|
            0 <= i < parts@.len() ==> is_wire_part(#[trigger] parts@[i], message.content_parts@[i])
    } else if message.content@.len() == 0 {
        content is None
    } else {
        content matches Some(ChatCompletionsContent::Text(text)) && text@ == message.content@
    }
}

/// Maps a message's content; a video part is refused.
pub fn message_content(model_id: &str, message: &ConversationMessage) -> (result: Result<
    Option<ChatCompletionsContent>,
    ModelError,
>)
    ensures
        has_video_part(*message) ==> (result matches Err(error) && is_xai_provider_error(
            error,
            model_id@,
            VIDEO_UNSUPPORTED@,
        )),
        !has_video_part(*message) ==> (result matches Ok(content) && is_wire_content(
            content,
            *message,
        )),
{
    if message.content_parts.len() > 0 {
        let mut parts: Vec<ChatCompletionsContentPart> = Vec::new();
        let mut i: usize = 0;
        while i < message.content_parts.len()
            invariant
                i <= message.content_parts@.len(),
                parts@.len() == i,
                forall|j: int| 0 <= j < i ==> #[trigger] message.content_parts@[j] !is Video,
                forall|j: int|
                    0 <= j < i ==> is_wire_part(#[trigger] parts@[j], message.content_parts@[j]),
            decreases message.content_parts@.len() - i,
        {
            match content_part(model_id, &message.content_parts[i]) {
                Ok(part) => parts.push(part),
                Err(error) => {
                    return Err(error);
                },
            }
            i = i + 1;
        }
        return Ok(Some(ChatCompletionsContent::Parts(parts)));
    }
    if message.content.as_str().is_empty() {
        Ok(None)
    } else {
        Ok(Some(ChatCompletionsContent::Text(message.content.clone())))
    }
}

/// `wire` is the wire form of a tool call; the argument text is the call's
/// JSON arguments rendered compactly.
pub open spec fn is_wire_tool_call(wire: ChatCompletionsToolCall, call: ToolCall) -> bool {
    &&& wire.id@ == call.id@
    &&& wire.kind@ == "function"@
    &&& wire.function.name@ == call.name@
    &&& wire.function.arguments@ == json_display(call.input)
}

/// Maps one tool call.
pub fn tool_call(call: &ToolCall) -> (wire: ChatCompletionsToolCall)
    ensures
        is_wire_tool_call(wire, *call),
{
    ChatCompletionsToolCall {
        id: call.id.clone(),
        kind: "function".to_owned(),
        function: ChatCompletionsToolFunction {
            name: call.name.clone(),
            arguments: crate::json::value_display_text(&call.input),
        },
    }
}

/// Maps a message's tool calls; a message that carries a legacy function
/// call sends that instead.
pub fn message_tool_calls(message: &ConversationMessage, has_legacy_function_call: bool) -> (calls:
    Vec<ChatCompletionsToolCall>)
    ensures
        has_legacy_function_call ==> calls@.len() == 0,
        !has_legacy_function_call ==> calls@.len() == message.tool_calls@.len() && forall|i: int|
            0 <= i < calls@.len() ==> is_wire_tool_call(#[trigger] calls@[i], message.tool_calls@[i]),
{
    let mut calls: Vec<ChatCompletionsToolCall> = Vec::new();
    if has_legacy_function_call {
        return calls;
    }
    let mut i: usize = 0;
    while i < message.tool_calls.len()
        invariant
            i <= message.tool_calls@.len(),
            calls@.len() == i,
            forall|j: int| 0 <= j < i ==> is_wire_tool_call(#[trigger] calls@[j], message.tool_calls@[j]),
        decreases message.tool_calls@.len() - i,
    {
        calls.push(tool_call(&message.tool_calls[i]));
        i = i + 1;
    }
    calls
}

/// Position `i` of an assistant message's provider context is a legacy
/// function call that answers one of the message's tool calls.
pub open spec fn is_matched_legacy_call(message: ConversationMessage, i: int) -> bool {
    &&& 0 <= i < message.provider_context@.len()
    &&& message.provider_context@[i] matches ProviderConversationItem::XaiLegacyFunctionCall {
        tool_call_id,
        ..
    }
    &&& exists|k: int|
        0 <= k < message.tool_calls@.len() && #[trigger] message.tool_calls@[k].id@ == tool_call_id@
}

/// The legacy function call that an assistant message carries: its first
/// matched legacy context item.
pub open spec fn legacy_call_of(message: ConversationMessage) -> Option<LegacyCallView> {
    if message.role == ConversationRole::Assistant && exists|i: int|
        is_matched_legacy_call(message, i) {
        let i = choose|i: int|
            is_matched_legacy_call(message, i) && forall|j: int|
                0 <= j < i ==> !is_matched_legacy_call(message, j);
        match message.provider_context@[i] {
            ProviderConversationItem::XaiLegacyFunctionCall { tool_call_id, name, arguments } => Some(
                LegacyCallView { tool_call_id: tool_call_id@, name: name@, arguments: arguments@ },
            ),
            _ => None,
        }
    } else {
        None
    }
}

proof fn lemma_first_matched(message: ConversationMessage, i: int)
    requires
        is_matched_legacy_call(message, i),
        forall|j: int| 0 <= j < i ==> !is_matched_legacy_call(message, j),
    ensures
        (choose|c: int|
            is_matched_legacy_call(message, c) && forall|j: int|
                0 <= j < c ==> !is_matched_legacy_call(message, j)) == i,
{
    let c = choose|c: int|
        is_matched_legacy_call(message, c) && forall|j: int|
            0 <= j < c ==> !is_matched_legacy_call(message, j);
    assert(is_matched_legacy_call(message, c) && forall|j: int|
        0 <= j < c ==> !is_matched_legacy_call(message, j));
    if c < i {
        assert(!is_matched_legacy_call(message, c));
    }
    if i < c {
        assert(!is_matched_legacy_call(message, i));
    }
}

/// Returns the legacy function call an assistant message carries.
pub fn legacy_function_call(message: &ConversationMessage) -> (call: Option<LegacyFunctionCall>)
    ensures
        match legacy_call_of(*message) {
            Some(expected) => call matches Some(c) && legacy_view(c) == expected,
            None => call is None,
        },
{
    if message.role != ConversationRole::Assistant {
        return None;
    }
    let mut i: usize = 0;
    while i < message.provider_context.len()
        invariant
            message.role == ConversationRole::Assistant,
            i <= message.provider_context@.len(),
            forall|j: int| 0 <= j < i ==> !is_matched_legacy_call(*message, j),
        decreases message.provider_context@.len() - i,
    {
        match &message.provider_context[i] {
            ProviderConversationItem::XaiLegacyFunctionCall { tool_call_id, name, arguments } => {
                let mut k: usize = 0;
                let mut matched = false;
                while k < message.tool_calls.len()
                    invariant
                        k <= message.tool_calls@.len(),
                        matched <==> exists|m: int|
                            0 <= m < k && #[trigger] message.tool_calls@[m].id@ == tool_call_id@,
                    decreases message.tool_calls@.len() - k,
                {
                    if str_equal(message.tool_calls[k].id.as_str(), tool_call_id.as_str()) {
                        matched = true;
                    }
                    k = k + 1;
                }
                if matched {
                    proof {
                        assert(is_matched_legacy_call(*message, i as int));
                        lemma_first_matched(*message, i as int);
                    }
                    return Some(
                        LegacyFunctionCall {
                            tool_call_id: tool_call_id.clone(),
                            name: name.clone(),
                            arguments: arguments.clone(),
                        },
                    );
                }
            },
            _ => {},
        }
        i = i + 1;
    }
    None
}

/// `j` is the position of the latest remembered call answered as `id`.
pub open spec fn is_latest_call_for(calls: Seq<LegacyCallView>, id: Seq<char>, j: int) -> bool {
    &&& 0 <= j < calls.len()
    &&& calls[j].tool_call_id == id
    &&& forall|m: int| j < m < calls.len() ==> calls[m].tool_call_id != id
}

/// The position of the latest remembered call answered as `id`.
pub open spec fn latest_call_for(calls: Seq<LegacyCallView>, id: Seq<char>) -> int {
    choose|j: int| is_latest_call_for(calls, id, j)
}

/// The function name of the latest remembered legacy call that a tool
/// result answers.
pub open spec fn legacy_tool_name_of(message: ConversationMessage, calls: Seq<LegacyCallView>) -> Option<
    Seq<char>,
> {
    let id = message.tool_call_id.unwrap()@;
    if message.role == ConversationRole::Tool && message.tool_call_id is Some && exists|j: int|
        0 <= j < calls.len() && #[trigger] calls[j].tool_call_id == id {
        Some(calls[latest_call_for(calls, id)].name)
    } else {
        None
    }
}

/// Returns the function name of the latest remembered legacy call that a
/// tool result answers.
pub fn legacy_tool_name(message: &ConversationMessage, legacy_calls: &Vec<LegacyFunctionCall>) -> (name:
    Option<String>)
    ensures
        opt_view(name) == legacy_tool_name_of(
            *message,
            legacy_calls@.map_values(|c: LegacyFunctionCall| legacy_view(c)),
        ),
{
    let ghost calls = legacy_calls@.map_values(|c: LegacyFunctionCall| legacy_view(c));
    if message.role != ConversationRole::Tool {
        return None;
    }
    let tool_call_id = match &message.tool_call_id {
        Some(id) => id,
        None => {
            return None;
        },
    };
    let mut j = legacy_calls.len();
    while j > 0
        invariant
            j <= legacy_calls@.len(),
            calls == legacy_calls@.map_values(|c: LegacyFunctionCall| legacy_view(c)),
            message.tool_call_id == Some(*tool_call_id),
            message.role == ConversationRole::Tool,
            forall|m: int| j <= m < calls.len() ==> calls[m].tool_call_id != tool_call_id@,
        decreases j,
    {
        j = j - 1;
        if str_equal(legacy_calls[j].tool_call_id.as_str(), tool_call_id.as_str()) {
            proof {
                assert(calls[j as int] == legacy_view(legacy_calls@[j as int]));
                assert(calls[j as int].tool_call_id == tool_call_id@);
                assert(is_latest_call_for(calls, tool_call_id@, j as int));
                let c = latest_call_for(calls, tool_call_id@);
                if c < j {
                    assert(calls[j as int].tool_call_id != tool_call_id@);
                }
                if j < c {
                    assert(calls[c].tool_call_id != tool_call_id@);
                }
                assert(c == j);
                assert(message.tool_call_id.unwrap()@ == tool_call_id@);
                assert(legacy_tool_name_of(*message, calls) == Some(calls[j as int].name));
            }
            return Some(legacy_calls[j].name.clone());
        }
    }
    None
}

/// `wire` is the chat message for `message`, given the legacy calls that
/// earlier messages carried.
#[verifier::opaque]
pub open spec fn is_chat_message_for(
    wire: ChatCompletionsMessage,
    message: ConversationMessage,
    calls: Seq<LegacyCallView>,
) -> bool {
    let legacy_name = legacy_tool_name_of(message, calls);
    let own_legacy = legacy_call_of(message);
    &&& wire.role@ == role_text(message.role, legacy_name is Some)
    &&& is_wire_content(wire.content, message)
    &&& opt_view(wire.name) == name_of(message, legacy_name)
    &&& opt_view(wire.tool_call_id) == if legacy_name is Some {
        None
    } else {
        opt_view(message.tool_call_id)
    }
    &&& match own_legacy {
        Some(legacy) => {
            &&& wire.tool_calls@.len() == 0
            &&& wire.function_call matches Some(f) && f.name@ == legacy.name && f.arguments@
                == legacy.arguments
        },
        None => {
            &&& wire.function_call is None
            &&& wire.tool_calls@.len() == message.tool_calls@.len()
            &&& forall|i: int|
                0 <= i < wire.tool_calls@.len() ==> is_wire_tool_call(
                    #[trigger] wire.tool_calls@[i],
                    message.tool_calls@[i],
                )
        },
    }
}

/// Maps one conversation message.
pub fn chat_message(
    model_id: &str,
    message: &ConversationMessage,
    legacy_calls: &Vec<LegacyFunctionCall>,
) -> (result: Result<ChatCompletionsMessage, ModelError>)
    ensures
        has_video_part(*message) ==> (result matches Err(error) && is_xai_provider_error(
            error,
            model_id@,
            VIDEO_UNSUPPORTED@,
        )),
        !has_video_part(*message) ==> (result matches Ok(wire) && is_chat_message_for(
            wire,
            *message,
            legacy_calls@.map_values(|c: LegacyFunctionCall| legacy_view(c)),
        )),
{
    proof {
        reveal(is_chat_message_for);
    }
    let legacy = legacy_function_call(message);
    let legacy_name = legacy_tool_name(message, legacy_calls);
    let content = match message_content(model_id, message) {
        Ok(content) => content,
        Err(error) => {
            return Err(error);
        },
    };
    let is_legacy_result = legacy_name.is_some();
    let name = message_name(message, legacy_name.as_ref());
    let tool_call_id = message_tool_call_id(message, is_legacy_result);
    let tool_calls = message_tool_calls(message, legacy.is_some());
    let function_call = match legacy {
        Some(call) => Some(ChatCompletionsToolFunction { name: call.name, arguments: call.arguments }),
        None => None,
    };
    Ok(
        ChatCompletionsMessage {
            role: message_role(message.role, is_legacy_result).to_owned(),
            content,
            name,
            tool_call_id,
            tool_calls,
            function_call,
        },
    )
}

/// The legacy calls remembered before message `i`.
pub open spec fn legacy_calls_before(messages: Seq<ConversationMessage>, i: int) -> Seq<
    LegacyCallView,
>
    decreases i,
{
    if i <= 0 {
        Seq::empty()
    } else {
        match legacy_call_of(messages[i - 1]) {
            Some(call) => legacy_calls_before(messages, i - 1).push(call),
            None => legacy_calls_before(messages, i - 1),
        }
    }
}

/// Maps the conversation, remembering each assistant message's legacy
/// function call so that the tool result answering it is sent as a
/// function message; the first video part refuses the whole conversation.
#[verifier::rlimit(40)]
pub fn conversation_messages(model_id: &str, messages: &Vec<ConversationMessage>) -> (result:
    Result<Vec<ChatCompletionsMessage>, ModelError>)
    ensures
        (exists|i: int| 0 <= i < messages@.len() && has_video_part(#[trigger] messages@[i]))
            ==> (result matches Err(error) && is_xai_provider_error(
            error,
            model_id@,
            VIDEO_UNSUPPORTED@,
        )),
        !(exists|i: int| 0 <= i < messages@.len() && has_video_part(#[trigger] messages@[i]))
            ==> (result matches Ok(wire) && wire@.len() == messages@.len() && forall|i: int|
            0 <= i < messages@.len() ==> is_chat_message_for(
                #[trigger] wire@[i],
                messages@[i],
                legacy_calls_before(messages@, i),
            )),
{
    let mut legacy_calls: Vec<LegacyFunctionCall> = Vec::new();
    let mut output: Vec<ChatCompletionsMessage> = Vec::new();
    let mut i: usize = 0;
    while i < messages.len()
        invariant
            i <= messages@.len(),
            output@.len() == i,
            legacy_calls@.map_values(|c: LegacyFunctionCall| legacy_view(c))
                == legacy_calls_before(messages@, i as int),
            forall|j: int| 0 <= j < i ==> !has_video_part(#[trigger] messages@[j]),
            forall|j: int|
                0 <= j < i ==> is_chat_message_for(
                    #[trigger] output@[j],
                    messages@[j],
                    legacy_calls_before(messages@, j),
                ),
        decreases messages@.len() - i,
    {
        let message = &messages[i];
        let wire = match chat_message(model_id, message, &legacy_calls) {
            Ok(wire) => wire,
            Err(error) => {
                proof {
                    assert(has_video_part(messages@[i as int]));
                }
                return Err(error);
            },
        };
        let ghost before_output = output@;
        output.push(wire);
        proof {
            assert forall|j: int| 0 <= j < i + 1 implies is_chat_message_for(
                #[trigger] output@[j],
                messages@[j],
                legacy_calls_before(messages@, j),
            ) by {
                if j < i {
                    assert(output@[j] == before_output[j]);
                }
            }
        }
        let ghost before = legacy_calls@;
        let call = legacy_function_call(message);
        proof {
            assert(legacy_calls_before(messages@, i + 1) == match legacy_call_of(messages@[i as int]) {
                Some(c) => legacy_calls_before(messages@, i as int).push(c),
                None => legacy_calls_before(messages@, i as int),
            });
        }
        if let Some(call) = call {
            legacy_calls.push(call);
            proof {
                assert(legacy_calls@.map_values(|c: LegacyFunctionCall| legacy_view(c))
                    =~= before.map_values(|c: LegacyFunctionCall| legacy_view(c)).push(
                    legacy_view(call),
                ));
            }
        }
        i = i + 1;
    }
    Ok(output)
}

/// The wire tool choice: the caller's choice when set (`required` also for
/// required-or-auto, which xAI can enforce), `auto` when tools are offered
/// without a choice, else none.
pub open spec fn tool_choice_view(choice: Option<ModelToolChoice>, has_tools: bool) -> Option<
    Seq<char>,
> {
    match choice {
        Some(ModelToolChoice::NoTools) => Some("none"@),
        Some(ModelToolChoice::Auto) => Some("auto"@),
        Some(ModelToolChoice::Required) => Some("required"@),
        Some(ModelToolChoice::RequiredOrAuto) => Some("required"@),
        Some(ModelToolChoice::Function(_)) => None,
        None => if has_tools {
            Some("auto"@)
        } else {
            None
        },
    }
}

/// `choice` is the wire tool choice for the caller's choice.
pub open spec fn is_wire_tool_choice(
    choice: Option<ChatCompletionsToolChoice>,
    requested: Option<ModelToolChoice>,
    has_tools: bool,
) -> bool {
    match requested {
        Some(ModelToolChoice::Function(name)) => choice matches Some(
            ChatCompletionsToolChoice::Function(named),
        ) && named.kind@ == "function"@ && named.function.name@ == name@,
        other => match tool_choice_view(other, has_tools) {
            Some(mode) => choice matches Some(ChatCompletionsToolChoice::Mode(m)) && m@ == mode,
            None => choice is None,
        },
    }
}

/// A caller that requires a tool call (outright, or where the provider can
/// enforce it) gets the `required` mode on the wire, so the model is forced
/// to call a tool; `auto` goes out only for an explicit `Auto` or when tools
/// are offered without a choice; with no tools and no choice nothing is sent.
pub proof fn lemma_wire_tool_choice_modes(
    choice: Option<ChatCompletionsToolChoice>,
    requested: Option<ModelToolChoice>,
    has_tools: bool,
)
    requires
        is_wire_tool_choice(choice, requested, has_tools),
    ensures
        requested == Some(ModelToolChoice::Required) || requested == Some(
            ModelToolChoice::RequiredOrAuto,
        ) ==> (choice matches Some(ChatCompletionsToolChoice::Mode(m)) && m@ == "required"@),
        (choice matches Some(ChatCompletionsToolChoice::Mode(m)) && m@ == "auto"@) ==> (requested
            == Some(ModelToolChoice::Auto) || (requested is None && has_tools)),
        (choice matches Some(ChatCompletionsToolChoice::Mode(m)) && m@ == "required"@) ==> (
        requested == Some(ModelToolChoice::Required) || requested == Some(
            ModelToolChoice::RequiredOrAuto,
        )),
        requested == Some(ModelToolChoice::NoTools) ==> (choice matches Some(
            ChatCompletionsToolChoice::Mode(m),
        ) && m@ == "none"@),
        requested == Some(ModelToolChoice::Auto) || (requested is None && has_tools) ==> (
        choice matches Some(ChatCompletionsToolChoice::Mode(m)) && m@ == "auto"@),
        requested is None ==> (has_tools <==> choice is Some),
{
    reveal_strlit("auto");
    reveal_strlit("required");
    reveal_strlit("none");
    assert("auto"@ != "required"@) by {
        assert("auto"@[0] != "required"@[0]);
    }
    assert("none"@ != "required"@) by {
        assert("none"@[0] != "required"@[0]);
    }
    assert("none"@ != "auto"@) by {
        assert("none"@[0] != "auto"@[0]);
    }
}

/// Maps the caller's tool choice.
pub fn tool_choice(request: &ModelRequest, has_tools: bool) -> (choice: Option<
    ChatCompletionsToolChoice,
>)
    ensures
        is_wire_tool_choice(choice, request.controls.generation.tool_choice, has_tools),
{
    match &request.controls.generation.tool_choice {
        Some(ModelToolChoice::NoTools) => Some(ChatCompletionsToolChoice::Mode("none".to_owned())),
        Some(ModelToolChoice::Auto) => Some(ChatCompletionsToolChoice::Mode("auto".to_owned())),
        Some(ModelToolChoice::Required) => Some(
            ChatCompletionsToolChoice::Mode("required".to_owned()),
        ),
        Some(ModelToolChoice::RequiredOrAuto) => Some(
            ChatCompletionsToolChoice::Mode("required".to_owned()),
        ),
        Some(ModelToolChoice::Function(name)) => Some(
            ChatCompletionsToolChoice::Function(
                ChatCompletionsNamedToolChoice {
                    kind: "function".to_owned(),
                    function: ChatCompletionsNamedFunction { name: name.clone() },
                },
            ),
        ),
        None => {
            if has_tools {
                Some(ChatCompletionsToolChoice::Mode("auto".to_owned()))
            } else {
                None
            }
        },
    }
}

/// `wire` is the wire form of a tool definition.
pub open spec fn is_wire_tool(wire: ChatCompletionsTool, definition: ToolDefinition) -> bool {
    &&& wire.kind@ == "function"@
    &&& wire.function.name@ == definition.name@
    &&& wire.function.description@ == definition.description@
    &&& wire.function.parameters == definition.input_schema
}

/// Maps one tool definition.
pub fn tool(definition: &ToolDefinition) -> (wire: ChatCompletionsTool)
    ensures
        is_wire_tool(wire, *definition),
{
    ChatCompletionsTool {
        kind: "function".to_owned(),
        function: ChatCompletionsToolDefinition {
            name: definition.name.clone(),
            description: definition.description.clone(),
            parameters: definition.input_schema.clone(),
        },
    }
}

/// `format` is the wire form of a structured output schema, which xAI gets
/// unenforced.
pub open spec fn is_wire_response_format(
    format: ChatCompletionsResponseFormat,
    response_schema: StructuredOutputSchema,
) -> bool {
    &&& format.kind@ == "json_schema"@
    &&& format.json_schema.name@ == response_schema.name@
    &&& format.json_schema.schema == response_schema.schema
    &&& !format.json_schema.strict
}

/// Maps a structured output schema.
pub fn response_format(response_schema: &StructuredOutputSchema) -> (format:
    ChatCompletionsResponseFormat)
    ensures
        is_wire_response_format(format, *response_schema),
{
    ChatCompletionsResponseFormat {
        kind: "json_schema".to_owned(),
        json_schema: ChatCompletionsJsonSchema {
            name: response_schema.name.clone(),
            schema: response_schema.schema.clone(),
            strict: false,
        },
    }
}

/// Builds the chat-completions request for `request`: the system prompt
/// first unless it is blank, then the mapped conversation; the offered
/// tools; the tool choice; the response format; the reasoning effort; the
/// output cap and stop sequences; and whether the completion is deferred.
pub fn build_request(model_id: &str, thinking_level: ThinkingLevel, request: &ModelRequest) -> (result:
    Result<ChatCompletionsRequest, ModelError>)
    ensures
        (exists|i: int|
            0 <= i < request.messages@.len() && has_video_part(#[trigger] request.messages@[i]))
            ==> (result matches Err(error) && is_xai_provider_error(
            error,
            model_id@,
            VIDEO_UNSUPPORTED@,
        )),
        !(exists|i: int|
            0 <= i < request.messages@.len() && has_video_part(#[trigger] request.messages@[i]))
            ==> (result matches Ok(body) && {
            let offset: int = if is_blank_text(request.system_prompt@) {
                0
            } else {
                1
            };
            &&& body.model@ == model_id@
            &&& body.messages@.len() == offset + request.messages@.len()
            &&& offset == 1 ==> body.messages@[0].role@ == "system"@
            &&& offset == 1 ==> (body.messages@[0].content matches Some(
                ChatCompletionsContent::Text(text),
            ) && text@ == request.system_prompt@)
            &&& forall|i: int|
                0 <= i < request.messages@.len() ==> is_chat_message_for(
                    #[trigger] body.messages@[offset + i],
                    request.messages@[i],
                    legacy_calls_before(request.messages@, i),
                )
            &&& body.tools@.len() == request.tools@.len()
            &&& forall|i: int|
                0 <= i < body.tools@.len() ==> is_wire_tool(#[trigger] body.tools@[i], request.tools@[i])
            &&& is_wire_tool_choice(
                body.tool_choice,
                request.controls.generation.tool_choice,
                request.tools@.len() > 0,
            )
            &&& match request.response_schema {
                Some(schema) => body.response_format matches Some(format)
                    && is_wire_response_format(format, schema),
                None => body.response_format is None,
            }
            &&& body.max_tokens == request.controls.generation.max_output_tokens
            &&& body.stop@ == request.controls.generation.stop_sequences@
            &&& body.deferred == (request.controls.execution.completion_mode
                != ModelCompletionMode::Synchronous)
            &&& match reasoning_effort_text(thinking_level) {
                Some(text) => body.reasoning_effort matches Some(e) && e@ == text,
                None => body.reasoning_effort is None,
            }
        }),
{
    let mut messages: Vec<ChatCompletionsMessage> = Vec::new();
    if !is_blank(request.system_prompt.as_str()) {
        messages.push(
            ChatCompletionsMessage {
                role: "system".to_owned(),
                content: Some(ChatCompletionsContent::Text(request.system_prompt.clone())),
                name: None,
                tool_call_id: None,
                tool_calls: Vec::new(),
                function_call: None,
            },
        );
    }
    let ghost offset = messages@.len();
    let mut conversation = match conversation_messages(model_id, &request.messages) {
        Ok(conversation) => conversation,
        Err(error) => {
            return Err(error);
        },
    };
    let ghost mapped = conversation@;
    messages.append(&mut conversation);
    proof {
        assert forall|i: int| 0 <= i < request.messages@.len() implies is_chat_message_for(
            #[trigger] messages@[offset + i],
            request.messages@[i],
            legacy_calls_before(request.messages@, i),
        ) by {
            assert(messages@[offset + i] == mapped[i]);
        }
    }
    let mut tools: Vec<ChatCompletionsTool> = Vec::new();
    let mut i: usize = 0;
    while i < request.tools.len()
        invariant
            i <= request.tools@.len(),
            tools@.len() == i,
            forall|j: int| 0 <= j < i ==> is_wire_tool(#[trigger] tools@[j], request.tools@[j]),
        decreases request.tools@.len() - i,
    {
        tools.push(tool(&request.tools[i]));
        i = i + 1;
    }
    let has_tools = request.tools.len() > 0;
    let response_format = match &request.response_schema {
        Some(schema) => Some(response_format(schema)),
        None => None,
    };
    let reasoning_effort = match reasoning_effort(model_id, thinking_level) {
        Some(effort) => Some(effort.to_owned()),
        None => None,
    };
    let deferred = match request.controls.execution.completion_mode {
        ModelCompletionMode::Synchronous => false,
        _ => true,
    };
    Ok(
        ChatCompletionsRequest {
            model: model_id.to_owned(),
            messages,
            tools,
            tool_choice: tool_choice(request, has_tools),
            response_format,
            reasoning_effort,
            max_tokens: request.controls.generation.max_output_tokens,
            stop: request.controls.generation.stop_sequences.clone(),
            deferred,
        },
    )
}

} // verus!
