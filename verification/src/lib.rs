//! Verified core of an in-memory tool-calling runtime: output policy
//! validation, UTF-8-safe output windows, a retained output store, the
//! decisions that drive tool-calling turns, and the xAI adapter's request
//! mapping, response normalization and deferred-completion schedule.

pub mod blank;
pub mod catalog;
pub mod dispatch;
pub mod envelope;
pub mod error;
pub mod failures;
pub mod interface;
pub mod intrinsic;
pub mod json;
pub mod memory_store;
pub mod output_id;
pub mod output_store;
pub mod policy;
pub mod redaction;
pub mod round;
pub mod runtime;
pub mod text;
pub mod tool_output;
pub mod turn;
pub mod windowing;
pub mod xai;

pub use policy::{
    ToolOutputPolicy, ToolOutputPolicyError, ToolOutputPolicyLimits,
    DEFAULT_AGGREGATE_LIMIT_BYTES, DEFAULT_INLINE_LIMIT_BYTES, DEFAULT_PER_OUTPUT_LIMIT_BYTES,
    DEFAULT_READ_LIMIT_BYTES,
};
