//! Error values of the tool-calling runtime.

use vstd::prelude::*;

use crate::envelope::ToolOutputEnvelopeError;
use crate::output_store::ToolOutputStoreError;
use crate::policy::ToolOutputPolicyError;

verus! {

/// Model execution failures.
#[derive(Clone, Debug, PartialEq, Eq)]
pub enum ModelError {
    /// The provider answered with something the runtime cannot use.
    Provider {
        /// Provider name.
        provider: String,
        /// Provider model id.
        model_id: String,
        /// What was wrong.
        message: String,
    },
    /// A provider failure that a retry may clear.
    TransientProvider {
        /// Provider name.
        provider: String,
        /// Provider model id.
        model_id: String,
        /// What was wrong.
        message: String,
    },
    /// The caller asked for a control the provider cannot honour.
    UnsupportedControl {
        /// Provider name.
        provider: String,
        /// Provider model id.
        model_id: String,
        /// The control that cannot be honoured.
        control: String,
    },
    /// A failure inside the adapter itself.
    Internal {
        /// What was wrong.
        message: String,
    },
}

impl ModelError {
    /// Builds a provider error.
    pub fn provider(provider: String, model_id: String, message: String) -> (error: ModelError)
        ensures
            error == (ModelError::Provider { provider, model_id, message }),
    {
        ModelError::Provider { provider, model_id, message }
    }

    /// Builds a transient provider error.
    pub fn transient_provider(provider: String, model_id: String, message: String) -> (error:
        ModelError)
        ensures
            error == (ModelError::TransientProvider { provider, model_id, message }),
    {
        ModelError::TransientProvider { provider, model_id, message }
    }
}

/// What made a tool execution fail.
#[derive(Clone, Debug, PartialEq, Eq)]
pub enum ToolExecutionSource {
    /// The output store refused a read.
    OutputStore(ToolOutputStoreError),
    /// Any other failure, by its message.
    Other {
        /// Human-readable description.
        message: String,
    },
}

/// Tool dispatch or execution failures.
#[derive(Clone, Debug, PartialEq, Eq)]
pub enum ToolError {
    /// No tool exposes the requested name.
    UnknownTool {
        /// Requested name.
        name: String,
    },
    /// The arguments did not parse.
    InvalidArguments {
        /// Tool whose arguments failed.
        tool_name: String,
        /// Parser message.
        message: String,
    },
    /// The tool ran and failed.
    Execution {
        /// Tool that failed.
        tool_name: String,
        /// Underlying failure.
        source: ToolExecutionSource,
    },
}

/// Errors returned by the generic tool-calling runtime.
#[derive(Debug)]
pub enum Error {
    /// Model execution failed.
    Model(ModelError),
    /// Tool dispatch or tool execution failed.
    Tool(ToolError),
    /// Logger persistence or callback logic failed.
    Logger {
        /// Underlying failure message.
        message: String,
    },
    /// A caller-provided turn checkpoint failed.
    Checkpoint {
        /// Underlying failure message.
        message: String,
    },
    /// Two injected tools exposed the same model-visible name.
    DuplicateToolDefinition {
        /// Conflicting model-visible tool name.
        name: String,
    },
    /// A caller-provided tool attempted to use a runtime-reserved name.
    ReservedToolDefinition {
        /// Reserved model-visible tool name.
        name: String,
    },
    /// Output policy validation failed during runtime construction.
    OutputPolicy {
        /// Underlying policy validation error.
        source: ToolOutputPolicyError,
    },
    /// The runtime could not serialize a raw tool output.
    OutputSerialization {
        /// Tool name whose output failed to serialize.
        tool_name: String,
        /// Underlying JSON serialization failure message.
        message: String,
    },
    /// The runtime could not serialize a model-visible output envelope.
    EnvelopeSerialization {
        /// Tool name whose envelope failed to serialize.
        tool_name: String,
        /// Underlying JSON serialization failure message.
        message: String,
    },
    /// The runtime could not construct a valid model-visible output envelope.
    OutputEnvelope {
        /// Underlying envelope construction error.
        source: ToolOutputEnvelopeError,
    },
    /// A store returned a read-only error while writing output.
    UnexpectedOutputStoreWrite {
        /// Underlying store error.
        source: ToolOutputStoreError,
    },
}

impl Error {
    /// Builds a checkpoint error from an embedding runtime failure.
    pub fn checkpoint(message: String) -> (error: Error)
        ensures
            error == (Error::Checkpoint { message }),
    {
        Error::Checkpoint { message }
    }
}

} // verus!
