//! Model-visible tool output envelopes.

use vstd::prelude::*;

use crate::output_id::ToolOutputId;
use crate::windowing::utf8_bytes;

verus! {

/// Why the remainder of an output cannot be read later.
#[derive(Clone, Copy, Debug, PartialEq, Eq, Structural)]
pub enum ToolOutputRemainderUnavailableReason {
    /// The output exceeded the per-output limit.
    OutputTooLarge,
    /// The aggregate store budget was exhausted.
    BudgetExhausted,
    /// The store failed to retain the output.
    StoreUnavailable,
}

/// A complete output small enough to stay in model context.
#[derive(Clone, Debug, PartialEq)]
pub struct InlineToolOutput {
    /// Tool that produced the output.
    pub tool_name: String,
    /// The complete raw output.
    pub output: serde_json::Value,
    /// Serialized byte size of the output.
    pub total_bytes: usize,
}

/// One byte window of a larger output.
#[derive(Clone, Debug, PartialEq, Eq)]
pub struct ToolOutputWindowEnvelope {
    /// Tool that produced the output.
    pub tool_name: String,
    /// Id under which the rest can be read, for readable windows.
    pub output_id: Option<ToolOutputId>,
    /// Byte offset of the window.
    pub offset: usize,
    /// Window text.
    pub content: String,
    /// Byte length of `content`.
    pub returned_bytes: usize,
    /// Serialized byte size of the whole output.
    pub total_bytes: usize,
    /// Where the next read starts, when bytes remain and can be read.
    pub next_offset: Option<usize>,
    /// Why the remainder cannot be read, for degraded windows.
    pub remainder_unavailable: Option<ToolOutputRemainderUnavailableReason>,
}

/// Model-visible form of one successful tool output.
#[derive(Clone, Debug, PartialEq)]
pub enum ToolOutputEnvelope {
    /// The whole output, inline.
    Inline(InlineToolOutput),
    /// A window of a larger output.
    Window(ToolOutputWindowEnvelope),
}

/// A readable window whose fields disagree with each other.
#[derive(Clone, Debug, PartialEq, Eq)]
pub enum ToolOutputEnvelopeError {
    /// `returned_bytes` is not the byte length of the window text.
    ReturnedBytesMismatch {
        /// Claimed byte count.
        returned_bytes: usize,
        /// Actual byte length of the text.
        content_bytes: usize,
    },
    /// The window reaches past the end of the output.
    WindowBeyondTotal {
        /// Window offset.
        offset: usize,
        /// Window byte count.
        returned_bytes: usize,
        /// Output byte size.
        total_bytes: usize,
    },
    /// `next_offset` is not where the window ends while bytes remain.
    NextOffsetMismatch {
        /// Claimed next offset.
        next_offset: Option<usize>,
    },
}

/// The next offset of a window from `offset` with `returned` bytes of an
/// output of `total` bytes: its end, when bytes remain after it.
pub open spec fn expected_next_offset(offset: int, returned: int, total: int) -> Option<usize> {
    if offset + returned < total {
        Some((offset + returned) as usize)
    } else {
        None
    }
}

/// The check a readable window must pass, with its outcome.
pub open spec fn readable_window_check(
    offset: usize,
    content: Seq<char>,
    returned_bytes: usize,
    total_bytes: usize,
    next_offset: Option<usize>,
) -> Option<ToolOutputEnvelopeError> {
    if utf8_bytes(content).len() != returned_bytes {
        Some(
            ToolOutputEnvelopeError::ReturnedBytesMismatch {
                returned_bytes,
                content_bytes: utf8_bytes(content).len() as usize,
            },
        )
    } else if offset + returned_bytes > total_bytes {
        Some(ToolOutputEnvelopeError::WindowBeyondTotal { offset, returned_bytes, total_bytes })
    } else if next_offset != expected_next_offset(
        offset as int,
        returned_bytes as int,
        total_bytes as int,
    ) {
        Some(ToolOutputEnvelopeError::NextOffsetMismatch { next_offset })
    } else {
        None
    }
}

impl ToolOutputEnvelope {
    /// Builds an inline envelope for a complete output.
    pub fn inline(tool_name: String, output: serde_json::Value, total_bytes: usize) -> (envelope:
        ToolOutputEnvelope)
        ensures
            envelope == ToolOutputEnvelope::Inline(
                InlineToolOutput { tool_name, output, total_bytes },
            ),
    {
        ToolOutputEnvelope::Inline(InlineToolOutput { tool_name, output, total_bytes })
    }

    /// Builds a readable window envelope after checking that its fields
    /// agree: the byte count matches the text, the window lies inside the
    /// output, and the next offset is the window end exactly when bytes
    /// remain.
    pub fn readable_window(
        tool_name: String,
        output_id: ToolOutputId,
        offset: usize,
        content: String,
        returned_bytes: usize,
        total_bytes: usize,
        next_offset: Option<usize>,
    ) -> (result: Result<ToolOutputEnvelope, ToolOutputEnvelopeError>)
        requires
            utf8_bytes(content@).len() <= usize::MAX,
        ensures
            ({
                let check = readable_window_check(
                    offset,
                    content@,
                    returned_bytes,
                    total_bytes,
                    next_offset,
                );
                match check {
                    Some(error) => result == Err::<ToolOutputEnvelope, ToolOutputEnvelopeError>(
                        error,
                    ),
                    None => result == Ok::<ToolOutputEnvelope, ToolOutputEnvelopeError>(
                        ToolOutputEnvelope::Window(
                            ToolOutputWindowEnvelope {
                                tool_name,
                                output_id: Some(output_id),
                                offset,
                                content,
                                returned_bytes,
                                total_bytes,
                                next_offset,
                                remainder_unavailable: None,
                            },
                        ),
                    ),
                }
            }),
    {
        let content_bytes = content.as_str().len();
        if content_bytes != returned_bytes {
            return Err(
                ToolOutputEnvelopeError::ReturnedBytesMismatch { returned_bytes, content_bytes },
            );
        }
        if returned_bytes > total_bytes || offset > total_bytes - returned_bytes {
            return Err(
                ToolOutputEnvelopeError::WindowBeyondTotal { offset, returned_bytes, total_bytes },
            );
        }
        let end = offset + returned_bytes;
        let expected = if end < total_bytes {
            Some(end)
        } else {
            None
        };
        if next_offset != expected {
            return Err(ToolOutputEnvelopeError::NextOffsetMismatch { next_offset });
        }
        Ok(
            ToolOutputEnvelope::Window(
                ToolOutputWindowEnvelope {
                    tool_name,
                    output_id: Some(output_id),
                    offset,
                    content,
                    returned_bytes,
                    total_bytes,
                    next_offset,
                    remainder_unavailable: None,
                },
            ),
        )
    }

    /// Builds a degraded first-window envelope whose remainder cannot be
    /// read later.
    pub fn degraded_window(
        tool_name: String,
        content: String,
        returned_bytes: usize,
        total_bytes: usize,
        reason: ToolOutputRemainderUnavailableReason,
    ) -> (envelope: ToolOutputEnvelope)
        ensures
            envelope == ToolOutputEnvelope::Window(
                ToolOutputWindowEnvelope {
                    tool_name,
                    output_id: None,
                    offset: 0,
                    content,
                    returned_bytes,
                    total_bytes,
                    next_offset: None,
                    remainder_unavailable: Some(reason),
                },
            ),
    {
        ToolOutputEnvelope::Window(
            ToolOutputWindowEnvelope {
                tool_name,
                output_id: None,
                offset: 0,
                content,
                returned_bytes,
                total_bytes,
                next_offset: None,
                remainder_unavailable: Some(reason),
            },
        )
    }
}

impl ToolOutputEnvelope {
    /// Returns a field-for-field copy of this envelope.
    pub fn duplicate(&self) -> (copy: ToolOutputEnvelope)
        ensures
            copy == *self,
    {
        match self {
            ToolOutputEnvelope::Inline(inline) => ToolOutputEnvelope::Inline(
                InlineToolOutput {
                    tool_name: inline.tool_name.clone(),
                    output: inline.output.clone(),
                    total_bytes: inline.total_bytes,
                },
            ),
            ToolOutputEnvelope::Window(window) => {
                let output_id = match &window.output_id {
                    Some(id) => Some(id.duplicate()),
                    None => None,
                };
                ToolOutputEnvelope::Window(
                    ToolOutputWindowEnvelope {
                        tool_name: window.tool_name.clone(),
                        output_id,
                        offset: window.offset,
                        content: window.content.clone(),
                        returned_bytes: window.returned_bytes,
                        total_bytes: window.total_bytes,
                        next_offset: window.next_offset,
                        remainder_unavailable: window.remainder_unavailable,
                    },
                )
            },
        }
    }
}

} // verus!
