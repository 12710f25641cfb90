//! Decisions of tool dispatch: where a call goes, which idempotency key it
//! carries, and what the runtime-owned reader answers.

use vstd::prelude::*;
use vstd::string::*;

use crate::catalog::ToolCatalog;
use crate::envelope::ToolOutputEnvelope;
use crate::error::{Error, ToolError, ToolExecutionSource};
use crate::failures::tool_error_message_with_text;
use crate::interface::{ConversationMessage, ToolCall};
use crate::output_id::ToolOutputId;
use crate::output_store::{ToolOutputStoreError, ToolOutputStoreReadRequest, ToolOutputStoreWindow};
use crate::policy::ToolOutputPolicy;
use crate::tool_output::{is_intrinsic_tool, readable_envelope, tool_output_read_name, TOOL_OUTPUT_READ};
use crate::turn::ToolExecutionRecord;
use crate::windowing::utf8_bytes;

verus! {

/// Arguments of the runtime-owned reader tool.
#[derive(Clone, Debug, PartialEq, Eq)]
pub struct ToolOutputReadRequest {
    /// Id of the stored output to read.
    pub output_id: ToolOutputId,
    /// Optional byte offset.
    pub offset: Option<usize>,
    /// Optional byte length.
    pub length: Option<usize>,
}

/// Where one tool call goes.
#[derive(Clone, Copy, Debug, PartialEq, Eq)]
pub enum DispatchRoute {
    /// The runtime-owned reader.
    Intrinsic,
    /// The injected tool at this index.
    Registered(usize),
    /// No tool exposes the name.
    Unknown,
}

/// The idempotency key a call carries: the provider's operation id when it
/// scoped one, otherwise the call id.
pub open spec fn operation_id_of(call: ToolCall) -> Seq<char> {
    match call.operation_id {
        Some(id) => id@,
        None => call.id@,
    }
}

/// Returns the idempotency key of a call.
pub fn operation_id_for(call: &ToolCall) -> (operation_id: String)
    ensures
        operation_id@ == operation_id_of(*call),
{
    match &call.operation_id {
        Some(id) => id.clone(),
        None => call.id.clone(),
    }
}

/// Routes a call: the reserved reader name goes to the reader, a name that
/// an injected tool exposes goes to that tool, any other name is unknown.
pub fn route_tool_call(catalog: &ToolCatalog, name: &str) -> (route: DispatchRoute)
    requires
        catalog.wf(),
    ensures
        name@ == tool_output_read_name() ==> route == DispatchRoute::Intrinsic,
        name@ != tool_output_read_name() ==> route == match catalog.entry_named(name@) {
            Some(i) => DispatchRoute::Registered(catalog.entries()[i].owner),
            None => DispatchRoute::Unknown,
        },
{
    if is_intrinsic_tool(name) {
        return DispatchRoute::Intrinsic;
    }
    match catalog.tool_for_name(name) {
        Some(owner) => DispatchRoute::Registered(owner),
        None => DispatchRoute::Unknown,
    }
}

/// The model-visible text of a tool error.
pub open spec fn tool_error_text(error: ToolError) -> Seq<char> {
    match error {
        ToolError::UnknownTool { name } => "unknown tool `"@ + name@ + "`"@,
        ToolError::InvalidArguments { tool_name, message } => "invalid arguments for tool `"@
            + tool_name@ + "`: "@ + message@,
        ToolError::Execution { tool_name, source } => "tool `"@ + tool_name@ + "` failed: "@
            + match source {
            ToolExecutionSource::OutputStore(_) => "output store error"@,
            ToolExecutionSource::Other { message } => message@,
        },
    }
}

/// Renders the model-visible text of a tool error.
pub fn tool_error_description(error: &ToolError) -> (text: String)
    ensures
        text@ == tool_error_text(*error),
{
    match error {
        ToolError::UnknownTool { name } => {
            let mut text = "unknown tool `".to_owned();
            text.append(name.as_str());
            text.append("`");
            text
        },
        ToolError::InvalidArguments { tool_name, message } => {
            let mut text = "invalid arguments for tool `".to_owned();
            text.append(tool_name.as_str());
            text.append("`: ");
            text.append(message.as_str());
            text
        },
        ToolError::Execution { tool_name, source } => {
            let mut text = "tool `".to_owned();
            text.append(tool_name.as_str());
            text.append("` failed: ");
            match source {
                ToolExecutionSource::OutputStore(_) => text.append("output store error"),
                ToolExecutionSource::Other { message } => text.append(message.as_str()),
            }
            text
        },
    }
}

/// Builds the tool message that answers a failed call with the error's text.
pub fn tool_error_message(call: &ToolCall, error: &ToolError) -> (reply: ConversationMessage)
    ensures
        reply.content@ == crate::failures::failure_payload(tool_error_text(*error)),
        reply.name matches Some(name) && name@ == call.name@,
        reply.tool_call_id matches Some(id) && id@ == call.id@,
        reply.role == crate::interface::ConversationRole::Tool,
{
    tool_error_message_with_text(call, tool_error_description(error))
}

/// The error for a call whose name no tool exposes.
pub fn unknown_tool_error(call: &ToolCall) -> (error: ToolError)
    ensures
        error matches ToolError::UnknownTool { name } && name@ == call.name@,
{
    ToolError::UnknownTool { name: call.name.clone() }
}

/// Turns the reader's parsed arguments into a store read under the
/// runtime's policy; arguments that did not parse are invalid arguments of
/// the reader.
pub fn intrinsic_read_request(
    arguments: Result<ToolOutputReadRequest, String>,
    policy: ToolOutputPolicy,
) -> (result: Result<ToolOutputStoreReadRequest, Error>)
    ensures
        match arguments {
            Ok(request) => result == Ok::<ToolOutputStoreReadRequest, Error>(
                ToolOutputStoreReadRequest {
                    output_id: request.output_id,
                    offset: request.offset,
                    length: request.length,
                    policy,
                },
            ),
            Err(message) => result matches Err(Error::Tool(
                ToolError::InvalidArguments { tool_name, message: m },
            )) && tool_name@ == tool_output_read_name() && m == message,
        },
{
    match arguments {
        Ok(request) => Ok(
            ToolOutputStoreReadRequest {
                output_id: request.output_id,
                offset: request.offset,
                length: request.length,
                policy,
            },
        ),
        Err(message) => {
            let tool_name = TOOL_OUTPUT_READ.to_owned();
            proof {
                reveal_strlit("tool_output_read");
                assert(tool_name@ =~= tool_output_read_name());
            }
            Err(Error::Tool(ToolError::InvalidArguments { tool_name, message }))
        },
    }
}

/// Turns the store's answer to a reader call into the reader's envelope: a
/// window becomes a readable envelope under the requested id; a store error
/// is an execution failure of the reader.
pub fn intrinsic_read_envelope(
    output_id: ToolOutputId,
    read: Result<ToolOutputStoreWindow, ToolOutputStoreError>,
) -> (result: Result<ToolOutputEnvelope, Error>)
    requires
        read matches Ok(window) ==> utf8_bytes(window.content@).len() <= usize::MAX,
    ensures
        match read {
            Ok(window) => match crate::envelope::readable_window_check(
                window.offset,
                window.content@,
                window.returned_bytes,
                window.total_bytes,
                window.next_offset,
            ) {
                Some(source) => result matches Err(Error::OutputEnvelope { source: s }) && s == source,
                None => result matches Ok(ToolOutputEnvelope::Window(w)) && w.tool_name
                    == window.tool_name && w.output_id == Some(output_id) && w.offset
                    == window.offset && w.content == window.content && w.returned_bytes
                    == window.returned_bytes && w.total_bytes == window.total_bytes
                    && w.next_offset == window.next_offset && w.remainder_unavailable is None,
            },
            Err(error) => result matches Err(Error::Tool(
                ToolError::Execution { tool_name, source: ToolExecutionSource::OutputStore(e) },
            )) && tool_name@ == tool_output_read_name() && e == error,
        },
{
    match read {
        Ok(window) => readable_envelope(window, output_id),
        Err(error) => {
            let tool_name = TOOL_OUTPUT_READ.to_owned();
            proof {
                reveal_strlit("tool_output_read");
                assert(tool_name@ =~= tool_output_read_name());
            }
            Err(
                Error::Tool(
                    ToolError::Execution { tool_name, source: ToolExecutionSource::OutputStore(error) },
                ),
            )
        },
    }
}

/// Builds the record of a successful call.
pub fn execution_record(
    call: &ToolCall,
    output_id: Option<ToolOutputId>,
    raw_output: serde_json::Value,
    model_visible_output: ToolOutputEnvelope,
) -> (record: ToolExecutionRecord)
    ensures
        record.call_id@ == call.id@,
        record.operation_id@ == operation_id_of(*call),
        record.name@ == call.name@,
        record.output_id == output_id,
        record.raw_output == raw_output,
        record.model_visible_output == model_visible_output,
{
    ToolExecutionRecord {
        call_id: call.id.clone(),
        operation_id: operation_id_for(call),
        name: call.name.clone(),
        output_id,
        raw_output,
        model_visible_output,
    }
}

} // verus!
