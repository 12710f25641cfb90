//! Tool output store requests, results, windows and errors.

use vstd::prelude::*;

use crate::output_id::{OutputIdGenerationError, ToolOutputId};
use crate::policy::ToolOutputPolicy;

verus! {

/// Request to store one serialized tool output.
#[derive(Clone, Debug, PartialEq, Eq)]
pub struct ToolOutputWriteRequest {
    /// Model-visible tool name that produced the output.
    pub tool_name: String,
    /// Compact UTF-8 JSON serialization of the tool output.
    pub content: String,
    /// Validated output policy governing the write.
    pub policy: ToolOutputPolicy,
    /// Maximum bytes returned in the first model-visible window.
    pub first_window_length: usize,
}

/// Successful stored-output write result.
#[derive(Clone, Debug, PartialEq, Eq)]
pub struct ToolOutputWriteResult {
    /// Opaque id assigned to the stored bytes.
    pub output_id: ToolOutputId,
    /// First UTF-8-safe window for the stored bytes.
    pub first_window: ToolOutputStoreWindow,
}

/// Request to read a UTF-8 byte window from a stored output.
#[derive(Clone, Debug, PartialEq, Eq)]
pub struct ToolOutputStoreReadRequest {
    /// Opaque id returned by a prior stored output.
    pub output_id: ToolOutputId,
    /// Optional byte offset; omitted means zero.
    pub offset: Option<usize>,
    /// Optional byte length; omitted means the policy read limit.
    pub length: Option<usize>,
    /// Validated output policy governing the read.
    pub policy: ToolOutputPolicy,
}

/// UTF-8-safe byte window returned by an output store.
#[derive(Clone, Debug, PartialEq, Eq)]
pub struct ToolOutputStoreWindow {
    /// Model-visible tool name that produced the whole output.
    pub tool_name: String,
    /// Byte offset represented by this window.
    pub offset: usize,
    /// UTF-8 substring of the serialized tool output.
    pub content: String,
    /// Number of bytes returned in `content`.
    pub returned_bytes: usize,
    /// Total serialized tool output byte count.
    pub total_bytes: usize,
    /// Whether unread bytes remain after this window.
    pub truncated: bool,
    /// Next readable byte offset, when `truncated` is true.
    pub next_offset: Option<usize>,
}

impl ToolOutputStoreWindow {
    /// Returns a field-for-field copy of this window.
    pub fn copy_window(&self) -> (copy: ToolOutputStoreWindow)
        ensures
            copy == *self,
    {
        ToolOutputStoreWindow {
            tool_name: self.tool_name.clone(),
            offset: self.offset,
            content: self.content.clone(),
            returned_bytes: self.returned_bytes,
            total_bytes: self.total_bytes,
            truncated: self.truncated,
            next_offset: self.next_offset,
        }
    }
}

/// What made a store write fail after its aggregate budget was reserved.
#[derive(Clone, Debug, PartialEq, Eq)]
pub enum WriteFailureSource {
    /// A test asked the in-memory store to fail its next write.
    InjectedWriteFailure,
    /// The store generated an id that it already holds.
    OutputIdCollision,
    /// No id could be generated for the output.
    IdGeneration(OutputIdGenerationError),
    /// Another store failed, with the failure's message.
    Store {
        /// Human-readable description of the underlying failure.
        message: String,
    },
}

/// Errors returned by the tool output store boundary.
#[derive(Clone, Debug, PartialEq, Eq)]
pub enum ToolOutputStoreError {
    /// The serialized output exceeded the configured per-output limit.
    PerOutputOverflow {
        /// Serialized output byte count.
        requested_bytes: usize,
        /// Configured per-output byte limit.
        limit_bytes: usize,
        /// Store-computed degraded first window.
        window: ToolOutputStoreWindow,
    },
    /// The write would exceed the configured aggregate storage budget.
    AggregateExhausted {
        /// Serialized output byte count.
        requested_bytes: usize,
        /// Remaining aggregate byte budget at rejection time.
        available_bytes: usize,
        /// Configured aggregate byte limit.
        limit_bytes: usize,
        /// Store-computed degraded first window.
        window: ToolOutputStoreWindow,
    },
    /// The store failed after reserving aggregate budget.
    WriteFailure {
        /// Store-computed degraded first window.
        window: ToolOutputStoreWindow,
        /// Underlying storage failure.
        source: WriteFailureSource,
    },
    /// The requested output id is not available in this store scope.
    UnavailableOutput {
        /// Opaque id that could not be resolved.
        output_id: ToolOutputId,
    },
    /// The requested offset is beyond the output or not a UTF-8 boundary.
    InvalidOffset {
        /// Opaque id being read.
        output_id: ToolOutputId,
        /// Requested byte offset.
        offset: usize,
        /// Total serialized output byte count.
        total_bytes: usize,
    },
    /// The requested read length was invalid.
    InvalidLength {
        /// Requested byte length.
        length: usize,
    },
    /// No full UTF-8 character fits in the requested length.
    NoCompleteCharacterFits {
        /// Requested byte offset.
        offset: usize,
        /// Effective requested byte length.
        length: usize,
        /// Minimum length that would fit the next complete character.
        minimum_usable_length: usize,
    },
}

impl ToolOutputStoreError {
    /// Builds a write-failure error while preserving the degraded first window.
    pub fn write_failure(window: ToolOutputStoreWindow, source: WriteFailureSource) -> (error:
        ToolOutputStoreError)
        ensures
            error == (ToolOutputStoreError::WriteFailure { window, source }),
    {
        ToolOutputStoreError::WriteFailure { window, source }
    }
}

} // verus!
