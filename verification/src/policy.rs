//! Tool output windowing and storage policy.

use vstd::prelude::*;

verus! {

/// Default maximum inline model-visible output bytes.
pub const DEFAULT_INLINE_LIMIT_BYTES: usize = 20_000;

/// Default maximum bytes returned by one output read.
pub const DEFAULT_READ_LIMIT_BYTES: usize = 20_000;

/// Default maximum serialized bytes retained for one output.
pub const DEFAULT_PER_OUTPUT_LIMIT_BYTES: usize = 1_048_576;

/// Default maximum serialized bytes retained by one runtime.
pub const DEFAULT_AGGREGATE_LIMIT_BYTES: usize = 16_777_216;

/// Raw output policy limits that must be validated before runtime use.
#[derive(Clone, Copy, Debug, PartialEq, Eq, Structural)]
pub struct ToolOutputPolicyLimits {
    /// Maximum bytes kept inline in model-visible output.
    pub inline_limit_bytes: usize,
    /// Maximum bytes returned by one intrinsic read.
    pub read_limit_bytes: usize,
    /// Maximum serialized bytes stored for one output.
    pub per_output_limit_bytes: usize,
    /// Aggregate serialized bytes retained by one runtime.
    pub aggregate_limit_bytes: usize,
}

/// The limits that a validated policy holds: every limit is positive, the
/// inline and read limits fit in the per-output limit, and the per-output
/// limit fits in the aggregate limit.
pub open spec fn limits_are_valid(limits: ToolOutputPolicyLimits) -> bool {
    &&& limits.inline_limit_bytes > 0
    &&& limits.read_limit_bytes > 0
    &&& limits.per_output_limit_bytes > 0
    &&& limits.aggregate_limit_bytes > 0
    &&& limits.inline_limit_bytes <= limits.per_output_limit_bytes
    &&& limits.read_limit_bytes <= limits.per_output_limit_bytes
    &&& limits.per_output_limit_bytes <= limits.aggregate_limit_bytes
}

/// The limits used when the caller configures none.
pub open spec fn default_limits() -> ToolOutputPolicyLimits {
    ToolOutputPolicyLimits {
        inline_limit_bytes: 20_000,
        read_limit_bytes: 20_000,
        per_output_limit_bytes: 1_048_576,
        aggregate_limit_bytes: 16_777_216,
    }
}

/// Errors returned while validating an output policy.
#[derive(Clone, Debug, PartialEq, Eq, Structural)]
pub enum ToolOutputPolicyError {
    /// Inline limit was zero.
    ZeroInlineLimit,
    /// Read limit was zero.
    ZeroReadLimit,
    /// Per-output limit was zero.
    ZeroPerOutputLimit,
    /// Aggregate limit was zero.
    ZeroAggregateLimit,
    /// Inline limit exceeded the per-output storage limit.
    InlineLimitExceedsPerOutput {
        /// Configured inline byte limit.
        inline_limit_bytes: usize,
        /// Configured per-output byte limit.
        per_output_limit_bytes: usize,
    },
    /// Read limit exceeded the per-output storage limit.
    ReadLimitExceedsPerOutput {
        /// Configured read byte limit.
        read_limit_bytes: usize,
        /// Configured per-output byte limit.
        per_output_limit_bytes: usize,
    },
    /// Per-output storage limit exceeded the aggregate storage limit.
    PerOutputLimitExceedsAggregate {
        /// Configured per-output byte limit.
        per_output_limit_bytes: usize,
        /// Configured aggregate byte limit.
        aggregate_limit_bytes: usize,
    },
}

/// The outcome of validating raw limits: the first rule that the limits
/// break, in the order zero limits, inline, read, per-output; or the limits
/// themselves when they break none.
pub open spec fn validate_limits(limits: ToolOutputPolicyLimits) -> Result<
    ToolOutputPolicyLimits,
    ToolOutputPolicyError,
> {
    let l = limits;
    if l.inline_limit_bytes == 0 {
        Err(ToolOutputPolicyError::ZeroInlineLimit)
    } else if l.read_limit_bytes == 0 {
        Err(ToolOutputPolicyError::ZeroReadLimit)
    } else if l.per_output_limit_bytes == 0 {
        Err(ToolOutputPolicyError::ZeroPerOutputLimit)
    } else if l.aggregate_limit_bytes == 0 {
        Err(ToolOutputPolicyError::ZeroAggregateLimit)
    } else if l.inline_limit_bytes > l.per_output_limit_bytes {
        Err(
            ToolOutputPolicyError::InlineLimitExceedsPerOutput {
                inline_limit_bytes: l.inline_limit_bytes,
                per_output_limit_bytes: l.per_output_limit_bytes,
            },
        )
    } else if l.read_limit_bytes > l.per_output_limit_bytes {
        Err(
            ToolOutputPolicyError::ReadLimitExceedsPerOutput {
                read_limit_bytes: l.read_limit_bytes,
                per_output_limit_bytes: l.per_output_limit_bytes,
            },
        )
    } else if l.per_output_limit_bytes > l.aggregate_limit_bytes {
        Err(
            ToolOutputPolicyError::PerOutputLimitExceedsAggregate {
                per_output_limit_bytes: l.per_output_limit_bytes,
                aggregate_limit_bytes: l.aggregate_limit_bytes,
            },
        )
    } else {
        Ok(l)
    }
}

/// Validated policy for model-visible tool output envelopes and storage.
///
/// Only outputs larger than the inline limit are written to an output store;
/// inline outputs are already complete in model context and never consume
/// aggregate store budget.
#[derive(Clone, Copy, Debug, PartialEq, Eq, Structural)]
pub struct ToolOutputPolicy {
    inline_limit_bytes: usize,
    read_limit_bytes: usize,
    per_output_limit_bytes: usize,
    aggregate_limit_bytes: usize,
}

impl View for ToolOutputPolicy {
    type V = ToolOutputPolicyLimits;

    closed spec fn view(&self) -> ToolOutputPolicyLimits {
        ToolOutputPolicyLimits {
            inline_limit_bytes: self.inline_limit_bytes,
            read_limit_bytes: self.read_limit_bytes,
            per_output_limit_bytes: self.per_output_limit_bytes,
            aggregate_limit_bytes: self.aggregate_limit_bytes,
        }
    }
}

impl ToolOutputPolicy {
    /// Every policy value holds valid limits.
    #[verifier::type_invariant]
    pub open spec fn well_formed(self) -> bool {
        limits_are_valid(self@)
    }

    /// Builds a validated output policy.
    pub fn new(
        inline_limit_bytes: usize,
        read_limit_bytes: usize,
        per_output_limit_bytes: usize,
        aggregate_limit_bytes: usize,
    ) -> (result: Result<ToolOutputPolicy, ToolOutputPolicyError>)
        ensures
            ({
                let limits = ToolOutputPolicyLimits {
                    inline_limit_bytes,
                    read_limit_bytes,
                    per_output_limit_bytes,
                    aggregate_limit_bytes,
                };
                &&& result is Ok <==> validate_limits(limits) is Ok
                &&& result matches Ok(policy) ==> policy@ == limits
                &&& result matches Err(e) ==> validate_limits(limits) == Err::<
                    ToolOutputPolicyLimits,
                    ToolOutputPolicyError,
                >(e)
            }),
    {
        Self::from_limits(
            ToolOutputPolicyLimits {
                inline_limit_bytes,
                read_limit_bytes,
                per_output_limit_bytes,
                aggregate_limit_bytes,
            },
        )
    }

    /// Builds a validated output policy from raw limit values.
    pub fn from_limits(limits: ToolOutputPolicyLimits) -> (result: Result<
        ToolOutputPolicy,
        ToolOutputPolicyError,
    >)
        ensures
            result is Ok <==> validate_limits(limits) is Ok,
            result matches Ok(policy) ==> policy@ == limits,
            result matches Err(e) ==> validate_limits(limits) == Err::<
                ToolOutputPolicyLimits,
                ToolOutputPolicyError,
            >(e),
    {
        let inline_limit_bytes = limits.inline_limit_bytes;
        let read_limit_bytes = limits.read_limit_bytes;
        let per_output_limit_bytes = limits.per_output_limit_bytes;
        let aggregate_limit_bytes = limits.aggregate_limit_bytes;
        if inline_limit_bytes == 0 {
            return Err(ToolOutputPolicyError::ZeroInlineLimit);
        }
        if read_limit_bytes == 0 {
            return Err(ToolOutputPolicyError::ZeroReadLimit);
        }
        if per_output_limit_bytes == 0 {
            return Err(ToolOutputPolicyError::ZeroPerOutputLimit);
        }
        if aggregate_limit_bytes == 0 {
            return Err(ToolOutputPolicyError::ZeroAggregateLimit);
        }
        if inline_limit_bytes > per_output_limit_bytes {
            return Err(
                ToolOutputPolicyError::InlineLimitExceedsPerOutput {
                    inline_limit_bytes,
                    per_output_limit_bytes,
                },
            );
        }
        if read_limit_bytes > per_output_limit_bytes {
            return Err(
                ToolOutputPolicyError::ReadLimitExceedsPerOutput {
                    read_limit_bytes,
                    per_output_limit_bytes,
                },
            );
        }
        if per_output_limit_bytes > aggregate_limit_bytes {
            return Err(
                ToolOutputPolicyError::PerOutputLimitExceedsAggregate {
                    per_output_limit_bytes,
                    aggregate_limit_bytes,
                },
            );
        }
        Ok(
            ToolOutputPolicy {
                inline_limit_bytes,
                read_limit_bytes,
                per_output_limit_bytes,
                aggregate_limit_bytes,
            },
        )
    }

    /// Returns the maximum bytes kept inline in model-visible output.
    pub fn inline_limit_bytes(&self) -> (limit: usize)
        ensures
            limit == self@.inline_limit_bytes,
            limit > 0,
    {
        proof {
            use_type_invariant(self);
        }
        self.inline_limit_bytes
    }

    /// Returns the maximum bytes returned by one intrinsic read.
    pub fn read_limit_bytes(&self) -> (limit: usize)
        ensures
            limit == self@.read_limit_bytes,
            limit > 0,
    {
        proof {
            use_type_invariant(self);
        }
        self.read_limit_bytes
    }

    /// Returns the maximum serialized bytes stored for one output.
    pub fn per_output_limit_bytes(&self) -> (limit: usize)
        ensures
            limit == self@.per_output_limit_bytes,
            limit > 0,
    {
        proof {
            use_type_invariant(self);
        }
        self.per_output_limit_bytes
    }

    /// Returns the aggregate serialized bytes retained by one runtime.
    pub fn aggregate_limit_bytes(&self) -> (limit: usize)
        ensures
            limit == self@.aggregate_limit_bytes,
            limit > 0,
    {
        proof {
            use_type_invariant(self);
        }
        self.aggregate_limit_bytes
    }
}

impl Default for ToolOutputPolicyLimits {
    fn default() -> (limits: ToolOutputPolicyLimits)
        ensures
            limits == default_limits(),
    {
        ToolOutputPolicyLimits {
            inline_limit_bytes: DEFAULT_INLINE_LIMIT_BYTES,
            read_limit_bytes: DEFAULT_READ_LIMIT_BYTES,
            per_output_limit_bytes: DEFAULT_PER_OUTPUT_LIMIT_BYTES,
            aggregate_limit_bytes: DEFAULT_AGGREGATE_LIMIT_BYTES,
        }
    }
}

impl Default for ToolOutputPolicy {
    fn default() -> (policy: ToolOutputPolicy)
        ensures
            policy@ == default_limits(),
    {
        ToolOutputPolicy {
            inline_limit_bytes: DEFAULT_INLINE_LIMIT_BYTES,
            read_limit_bytes: DEFAULT_READ_LIMIT_BYTES,
            per_output_limit_bytes: DEFAULT_PER_OUTPUT_LIMIT_BYTES,
            aggregate_limit_bytes: DEFAULT_AGGREGATE_LIMIT_BYTES,
        }
    }
}

/// Validation accepts exactly the limits that satisfy every policy rule,
/// and a policy built from accepted limits holds them unchanged.
pub proof fn lemma_validation_accepts_exactly_valid_limits(limits: ToolOutputPolicyLimits)
    ensures
        validate_limits(limits) is Ok <==> limits_are_valid(limits),
        validate_limits(limits) is Ok ==> validate_limits(limits) == Ok::<
            ToolOutputPolicyLimits,
            ToolOutputPolicyError,
        >(limits),
{
}

/// The default limits are valid, so the default policy could equally have
/// been built through validation.
pub proof fn lemma_default_limits_are_valid()
    ensures
        limits_are_valid(default_limits()),
        validate_limits(default_limits()) == Ok::<ToolOutputPolicyLimits, ToolOutputPolicyError>(
            default_limits(),
        ),
{
}

} // verus!
