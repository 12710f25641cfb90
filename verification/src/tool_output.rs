//! Decisions that turn a successful raw tool output into its model-visible
//! envelope: inline when small, otherwise stored and windowed, degraded to
//! an unreadable first window when the store refuses it.

use vstd::prelude::*;
use vstd::string::*;

use crate::envelope::{
    ToolOutputEnvelope, ToolOutputRemainderUnavailableReason, ToolOutputWindowEnvelope,
};
use crate::error::Error;
use crate::json::{json_serialization, value_to_json_text};
use crate::output_id::ToolOutputId;
use crate::output_store::{
    ToolOutputStoreError, ToolOutputStoreWindow, ToolOutputWriteRequest, ToolOutputWriteResult,
};
use crate::policy::ToolOutputPolicy;
use crate::windowing::utf8_bytes;
use crate::envelope::readable_window_check;

verus! {

/// Name of the runtime-owned tool that reads stored output windows.
pub const TOOL_OUTPUT_READ: &'static str = "tool_output_read";

/// The characters of the reserved reader tool name.
pub open spec fn tool_output_read_name() -> Seq<char> {
    seq!['t', 'o', 'o', 'l', '_', 'o', 'u', 't', 'p', 'u', 't', '_', 'r', 'e', 'a', 'd']
}

/// Whether `name` is the runtime-owned reader tool.
pub fn is_intrinsic_tool(name: &str) -> (intrinsic: bool)
    ensures
        intrinsic == (name@ == tool_output_read_name()),
{
    let reserved = TOOL_OUTPUT_READ;
    proof {
        reveal_strlit("tool_output_read");
        assert(reserved@ =~= tool_output_read_name());
    }
    str_equal(name, reserved)
}

/// Whether two texts are equal, character for character.
pub fn str_equal(a: &str, b: &str) -> (equal: bool)
    ensures
        equal == (a@ == b@),
{
    let a_bytes = a.as_bytes();
    let b_bytes = b.as_bytes();
    if a_bytes.len() != b_bytes.len() {
        proof {
            if a@ == b@ {
                assert(a.spec_bytes() == b.spec_bytes());
            }
        }
        return false;
    }
    let mut i: usize = 0;
    while i < a_bytes.len()
        invariant
            a_bytes@ == a.spec_bytes(),
            b_bytes@ == b.spec_bytes(),
            a_bytes@.len() == b_bytes@.len(),
            i <= a_bytes@.len(),
            forall|j: int| 0 <= j < i ==> a_bytes@[j] == b_bytes@[j],
        decreases a_bytes@.len() - i,
    {
        if a_bytes[i] != b_bytes[i] {
            proof {
                if a@ == b@ {
                    assert(a.spec_bytes() == b.spec_bytes());
                }
            }
            return false;
        }
        i = i + 1;
    }
    proof {
        assert(a.spec_bytes() =~= b.spec_bytes());
        vstd::utf8::encode_utf8_decode_utf8(a@);
        vstd::utf8::encode_utf8_decode_utf8(b@);
    }
    true
}

/// Successful output representations prepared for runtime records and logs.
#[derive(Debug)]
pub struct ManagedToolOutput {
    /// Output id present for stored outputs.
    pub output_id: Option<ToolOutputId>,
    /// Raw output returned by the tool implementation.
    pub raw_output: serde_json::Value,
    /// Bounded model-visible envelope.
    pub model_visible_output: ToolOutputEnvelope,
}

/// How a successful output is handled once its size is known.
#[derive(Debug)]
pub enum OutputHandling {
    /// Small enough to stay inline; nothing is stored.
    Inline(ManagedToolOutput),
    /// Must be written to the output store with this request.
    Store {
        /// Raw output kept for the record.
        raw_output: serde_json::Value,
        /// Write request for the serialized output.
        request: ToolOutputWriteRequest,
    },
}

/// `handling` is how a serialized output is handled: inline exactly when
/// its bytes fit in the inline limit, else stored whole with a first window
/// of inline-limit length.
pub open spec fn is_handling_for(
    handling: OutputHandling,
    tool_name: Seq<char>,
    raw_output: serde_json::Value,
    serialized: Seq<char>,
    policy: ToolOutputPolicy,
) -> bool {
    let total = utf8_bytes(serialized).len();
    if total <= policy@.inline_limit_bytes {
        &&& handling matches OutputHandling::Inline(managed)
        &&& managed.output_id is None
        &&& managed.raw_output == raw_output
        &&& managed.model_visible_output matches ToolOutputEnvelope::Inline(inline)
        &&& inline.tool_name@ == tool_name
        &&& inline.output == raw_output
        &&& inline.total_bytes == total
    } else {
        &&& handling matches OutputHandling::Store { raw_output: kept, request }
        &&& kept == raw_output
        &&& request.tool_name@ == tool_name
        &&& request.content@ == serialized
        &&& request.policy == policy
        &&& request.first_window_length == policy@.inline_limit_bytes
    }
}

/// Decides how a serialized output is handled.
pub fn handle_serialized_output(
    tool_name: &str,
    raw_output: serde_json::Value,
    serialized: String,
    policy: ToolOutputPolicy,
) -> (handling: OutputHandling)
    requires
        utf8_bytes(serialized@).len() <= usize::MAX,
    ensures
        is_handling_for(handling, tool_name@, raw_output, serialized@, policy),
{
    let total_bytes = serialized.as_str().len();
    let inline_limit = policy.inline_limit_bytes();
    if total_bytes <= inline_limit {
        let envelope = ToolOutputEnvelope::inline(tool_name.to_owned(), raw_output.clone(), total_bytes);
        return OutputHandling::Inline(
            ManagedToolOutput { output_id: None, raw_output, model_visible_output: envelope },
        );
    }
    OutputHandling::Store {
        raw_output,
        request: ToolOutputWriteRequest {
            tool_name: tool_name.to_owned(),
            content: serialized,
            policy,
            first_window_length: inline_limit,
        },
    }
}

/// Serializes a successful raw output and decides how it is handled; a
/// serialization failure is reported against the tool.
pub fn prepare_tool_output(
    tool_name: &str,
    raw_output: serde_json::Value,
    policy: ToolOutputPolicy,
) -> (result: Result<OutputHandling, Error>)
    ensures
        match json_serialization(raw_output) {
            Some(serialized) => result matches Ok(handling) && is_handling_for(
                handling,
                tool_name@,
                raw_output,
                serialized,
                policy,
            ),
            None => result matches Err(Error::OutputSerialization { tool_name: t, .. }) && t@
                == tool_name@,
        },
        result matches Ok(OutputHandling::Store { request, .. }) ==> utf8_bytes(
            request.content@,
        ).len() <= usize::MAX,
{
    let serialized = match value_to_json_text(&raw_output) {
        Ok(serialized) => serialized,
        Err(message) => {
            return Err(Error::OutputSerialization { tool_name: tool_name.to_owned(), message });
        },
    };
    Ok(handle_serialized_output(tool_name, raw_output, serialized, policy))
}

/// Builds the readable envelope for a stored output's window.
pub fn readable_envelope(window: ToolOutputStoreWindow, output_id: ToolOutputId) -> (result: Result<
    ToolOutputEnvelope,
    Error,
>)
    requires
        utf8_bytes(window.content@).len() <= usize::MAX,
    ensures
        match readable_window_check(
            window.offset,
            window.content@,
            window.returned_bytes,
            window.total_bytes,
            window.next_offset,
        ) {
            Some(source) => result matches Err(Error::OutputEnvelope { source: s }) && s == source,
            None => result matches Ok(ToolOutputEnvelope::Window(w)) && w.tool_name == window.tool_name
                && w.output_id == Some(output_id) && w.offset == window.offset && w.content
                == window.content && w.returned_bytes == window.returned_bytes && w.total_bytes
                == window.total_bytes && w.next_offset == window.next_offset
                && w.remainder_unavailable is None,
        },
{
    match ToolOutputEnvelope::readable_window(
        window.tool_name,
        output_id,
        window.offset,
        window.content,
        window.returned_bytes,
        window.total_bytes,
        window.next_offset,
    ) {
        Ok(envelope) => Ok(envelope),
        Err(source) => Err(Error::OutputEnvelope { source }),
    }
}

/// The reason a refused store write leaves the remainder unreadable, with
/// the window the store computed; `None` for errors a write never gives.
pub open spec fn degraded_reason(error: ToolOutputStoreError) -> Option<
    (ToolOutputRemainderUnavailableReason, ToolOutputStoreWindow),
> {
    match error {
        ToolOutputStoreError::PerOutputOverflow { window, .. } => Some(
            (ToolOutputRemainderUnavailableReason::OutputTooLarge, window),
        ),
        ToolOutputStoreError::AggregateExhausted { window, .. } => Some(
            (ToolOutputRemainderUnavailableReason::BudgetExhausted, window),
        ),
        ToolOutputStoreError::WriteFailure { window, .. } => Some(
            (ToolOutputRemainderUnavailableReason::StoreUnavailable, window),
        ),
        _ => None,
    }
}

/// Builds the degraded envelope for a refused store write: the store's
/// first window, marked with why the rest cannot be read. Errors that only
/// reads give are unexpected here.
pub fn degraded_envelope(error: ToolOutputStoreError) -> (result: Result<ToolOutputEnvelope, Error>)
    ensures
        match degraded_reason(error) {
            Some((reason, window)) => result == Ok::<ToolOutputEnvelope, Error>(
                ToolOutputEnvelope::Window(
                    crate::envelope::ToolOutputWindowEnvelope {
                        tool_name: window.tool_name,
                        output_id: None,
                        offset: 0,
                        content: window.content,
                        returned_bytes: window.returned_bytes,
                        total_bytes: window.total_bytes,
                        next_offset: None,
                        remainder_unavailable: Some(reason),
                    },
                ),
            ),
            None => result matches Err(Error::UnexpectedOutputStoreWrite { source }) && source
                == error,
        },
{
    let (reason, window) = match error {
        ToolOutputStoreError::PerOutputOverflow { window, .. } => {
            (ToolOutputRemainderUnavailableReason::OutputTooLarge, window)
        },
        ToolOutputStoreError::AggregateExhausted { window, .. } => {
            (ToolOutputRemainderUnavailableReason::BudgetExhausted, window)
        },
        ToolOutputStoreError::WriteFailure { window, .. } => {
            (ToolOutputRemainderUnavailableReason::StoreUnavailable, window)
        },
        source => {
            return Err(Error::UnexpectedOutputStoreWrite { source });
        },
    };
    Ok(
        ToolOutputEnvelope::degraded_window(
            window.tool_name,
            window.content,
            window.returned_bytes,
            window.total_bytes,
            reason,
        ),
    )
}

/// Finishes a stored output from the store's answer: a written output gets
/// a readable first window under its new id; a refused write still
/// succeeds, with a degraded first window and no id.
pub fn finish_stored_output(
    raw_output: serde_json::Value,
    write: Result<ToolOutputWriteResult, ToolOutputStoreError>,
) -> (result: Result<ManagedToolOutput, Error>)
    requires
        write matches Ok(written) ==> utf8_bytes(written.first_window.content@).len() <= usize::MAX,
    ensures
        match write {
            Ok(written) => match readable_window_check(
                written.first_window.offset,
                written.first_window.content@,
                written.first_window.returned_bytes,
                written.first_window.total_bytes,
                written.first_window.next_offset,
            ) {
                Some(source) => result matches Err(Error::OutputEnvelope { source: s }) && s
                    == source,
                None => {
                    &&& result matches Ok(managed)
                    &&& managed.output_id == Some(written.output_id)
                    &&& managed.raw_output == raw_output
                    &&& managed.model_visible_output == ToolOutputEnvelope::Window(
                        ToolOutputWindowEnvelope {
                            tool_name: written.first_window.tool_name,
                            output_id: Some(written.output_id),
                            offset: written.first_window.offset,
                            content: written.first_window.content,
                            returned_bytes: written.first_window.returned_bytes,
                            total_bytes: written.first_window.total_bytes,
                            next_offset: written.first_window.next_offset,
                            remainder_unavailable: None,
                        },
                    )
                },
            },
            Err(error) => match degraded_reason(error) {
                Some((reason, window)) => {
                    &&& result matches Ok(managed)
                    &&& managed.output_id is None
                    &&& managed.raw_output == raw_output
                    &&& managed.model_visible_output == ToolOutputEnvelope::Window(
                        ToolOutputWindowEnvelope {
                            tool_name: window.tool_name,
                            output_id: None,
                            offset: 0,
                            content: window.content,
                            returned_bytes: window.returned_bytes,
                            total_bytes: window.total_bytes,
                            next_offset: None,
                            remainder_unavailable: Some(reason),
                        },
                    )
                },
                None => result matches Err(Error::UnexpectedOutputStoreWrite { source }) && source
                    == error,
            },
        },
{
    match write {
        Ok(written) => {
            let output_id = written.output_id.duplicate();
            match readable_envelope(written.first_window, written.output_id) {
                Ok(envelope) => Ok(
                    ManagedToolOutput {
                        output_id: Some(output_id),
                        raw_output,
                        model_visible_output: envelope,
                    },
                ),
                Err(error) => Err(error),
            }
        },
        Err(error) => match degraded_envelope(error) {
            Ok(envelope) => Ok(
                ManagedToolOutput { output_id: None, raw_output, model_visible_output: envelope },
            ),
            Err(error) => Err(error),
        },
    }
}

/// Every window the windowing rules produce passes the readable-window
/// check, so a stored output's first window always becomes a readable
/// envelope.
pub proof fn lemma_windows_pass_readable_check(
    window: ToolOutputStoreWindow,
    tool_name: Seq<char>,
    content: Seq<char>,
    offset: int,
    length: int,
)
    requires
        crate::windowing::is_window_of(window, tool_name, content, offset, length),
    ensures
        readable_window_check(
            window.offset,
            window.content@,
            window.returned_bytes,
            window.total_bytes,
            window.next_offset,
        ) is None,
{
    let bytes = utf8_bytes(content);
    let end = offset + window.returned_bytes;
    assert(bytes.subrange(offset, end).len() == end - offset);
}

} // verus!
