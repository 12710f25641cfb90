//! Model-visible failure messages for tool calls.

use vstd::prelude::*;
use vstd::string::*;

use crate::error::{ToolError, ToolExecutionSource};
use crate::interface::{ConversationMessage, ToolCall};
use crate::output_store::ToolOutputStoreError;
use crate::text::{decimal_text, json_quoted, json_string_literal, usize_text};

verus! {

/// Message for reader arguments that did not parse.
pub const INVALID_OUTPUT_READ_ARGUMENTS: &'static str = "Invalid tool output read arguments. Provide an output id and optional non-negative byte offset and positive byte length.";

/// Message for an output id that the store no longer holds.
pub const UNAVAILABLE_OUTPUT: &'static str = "The output is no longer available; the original tool call itself succeeded. Re-run the original tool only if it is read-only or otherwise safe to repeat, and confirm with the user before repeating a side-effecting call.";

/// Message for a read that failed for any other reason.
pub const UNREADABLE_OUTPUT: &'static str = "The tool output could not be read. Try again later.";

/// The model-visible text for a store error met while reading an output.
pub open spec fn read_error_text(error: ToolOutputStoreError) -> Seq<char> {
    match error {
        ToolOutputStoreError::UnavailableOutput { .. } => UNAVAILABLE_OUTPUT@,
        ToolOutputStoreError::InvalidOffset { offset, total_bytes, .. } => "Invalid offset "@
            + decimal_text(offset as nat) + " for an output of "@ + decimal_text(
            total_bytes as nat,
        ) + " bytes. Use a UTF-8 byte boundary from 0 through "@ + decimal_text(
            total_bytes as nat,
        ) + "."@,
        ToolOutputStoreError::InvalidLength { length } => "Invalid read length "@ + decimal_text(
            length as nat,
        ) + "; use at least 1 byte."@,
        ToolOutputStoreError::NoCompleteCharacterFits {
            offset,
            length,
            minimum_usable_length,
        } => "No complete UTF-8 character fits in length "@ + decimal_text(length as nat)
            + " at offset "@ + decimal_text(offset as nat) + "; use at least "@ + decimal_text(
            minimum_usable_length as nat,
        ) + " bytes."@,
        _ => UNREADABLE_OUTPUT@,
    }
}

/// The model-visible text for a failed read of the runtime-owned reader.
pub open spec fn reader_error_text(error: ToolError) -> Seq<char> {
    match error {
        ToolError::InvalidArguments { .. } => INVALID_OUTPUT_READ_ARGUMENTS@,
        ToolError::Execution { source, .. } => match source {
            ToolExecutionSource::OutputStore(store_error) => read_error_text(store_error),
            ToolExecutionSource::Other { .. } => UNREADABLE_OUTPUT@,
        },
        ToolError::UnknownTool { .. } => UNREADABLE_OUTPUT@,
    }
}

/// The JSON payload of a failed tool call: `ok` false with an error message.
pub open spec fn failure_payload(message: Seq<char>) -> Seq<char> {
    "{\"error\":{\"message\":"@ + json_quoted(message) + "},\"ok\":false}"@
}

/// Renders the model-visible text for a store error met while reading.
pub fn output_store_read_error_message(error: &ToolOutputStoreError) -> (message: String)
    ensures
        message@ == read_error_text(*error),
{
    match error {
        ToolOutputStoreError::UnavailableOutput { .. } => UNAVAILABLE_OUTPUT.to_owned(),
        ToolOutputStoreError::InvalidOffset { offset, total_bytes, .. } => {
            let total = usize_text(*total_bytes);
            let mut message = "Invalid offset ".to_owned();
            message.append(usize_text(*offset).as_str());
            message.append(" for an output of ");
            message.append(total.as_str());
            message.append(" bytes. Use a UTF-8 byte boundary from 0 through ");
            message.append(total.as_str());
            message.append(".");
            message
        },
        ToolOutputStoreError::InvalidLength { length } => {
            let mut message = "Invalid read length ".to_owned();
            message.append(usize_text(*length).as_str());
            message.append("; use at least 1 byte.");
            message
        },
        ToolOutputStoreError::NoCompleteCharacterFits { offset, length, minimum_usable_length } => {
            let mut message = "No complete UTF-8 character fits in length ".to_owned();
            message.append(usize_text(*length).as_str());
            message.append(" at offset ");
            message.append(usize_text(*offset).as_str());
            message.append("; use at least ");
            message.append(usize_text(*minimum_usable_length).as_str());
            message.append(" bytes.");
            message
        },
        ToolOutputStoreError::PerOutputOverflow { .. }
        | ToolOutputStoreError::AggregateExhausted { .. }
        | ToolOutputStoreError::WriteFailure { .. } => unreadable_output_message(),
    }
}

/// Returns the message for a read that failed for an unexpected reason.
pub fn unreadable_output_message() -> (message: String)
    ensures
        message@ == UNREADABLE_OUTPUT@,
{
    UNREADABLE_OUTPUT.to_owned()
}

/// Builds the tool message that answers `call` with a failure payload
/// carrying `message`.
pub fn tool_error_message_with_text(call: &ToolCall, message: String) -> (reply: ConversationMessage)
    ensures
        reply.content@ == failure_payload(message@),
        reply.name matches Some(name) && name@ == call.name@,
        reply.tool_call_id matches Some(id) && id@ == call.id@,
        reply.role == crate::interface::ConversationRole::Tool,
{
    let mut payload = "{\"error\":{\"message\":".to_owned();
    payload.append(json_string_literal(message.as_str()).as_str());
    payload.append("},\"ok\":false}");
    ConversationMessage::tool(payload, call.name.clone(), call.id.clone())
}

/// Builds the tool message that answers a failed read of the runtime-owned
/// reader, with guidance the model can act on.
pub fn tool_output_read_error_message(call: &ToolCall, error: &ToolError) -> (reply:
    ConversationMessage)
    ensures
        reply.content@ == failure_payload(reader_error_text(*error)),
        reply.name matches Some(name) && name@ == call.name@,
        reply.tool_call_id matches Some(id) && id@ == call.id@,
        reply.role == crate::interface::ConversationRole::Tool,
{
    let message = match error {
        ToolError::InvalidArguments { .. } => INVALID_OUTPUT_READ_ARGUMENTS.to_owned(),
        ToolError::Execution { source, .. } => match source {
            ToolExecutionSource::OutputStore(store_error) => output_store_read_error_message(
                store_error,
            ),
            ToolExecutionSource::Other { .. } => unreadable_output_message(),
        },
        ToolError::UnknownTool { .. } => unreadable_output_message(),
    };
    tool_error_message_with_text(call, message)
}

} // verus!
