use ai_tool_calling::error::Error;
use ai_tool_calling::runtime::RuntimeState;
use ai_tool_calling::{ToolOutputPolicy, ToolOutputPolicyError, ToolOutputPolicyLimits};

#[test]
fn policy_defaults_and_validation_match_protocol_limits() {
    let policy = ToolOutputPolicy::default();

    assert_eq!(policy.inline_limit_bytes(), 20_000);
    assert_eq!(policy.read_limit_bytes(), 20_000);
    assert_eq!(policy.per_output_limit_bytes(), 1_048_576);
    assert_eq!(policy.aggregate_limit_bytes(), 16_777_216);
    assert!(matches!(ToolOutputPolicy::new(0, 1, 1, 1), Err(ToolOutputPolicyError::ZeroInlineLimit)));
    assert!(matches!(ToolOutputPolicy::new(1, 0, 1, 1), Err(ToolOutputPolicyError::ZeroReadLimit)));
    assert!(matches!(
        ToolOutputPolicy::new(1, 1, 0, 1),
        Err(ToolOutputPolicyError::ZeroPerOutputLimit)
    ));
    assert!(matches!(
        ToolOutputPolicy::new(1, 1, 1, 0),
        Err(ToolOutputPolicyError::ZeroAggregateLimit)
    ));
    assert!(matches!(
        ToolOutputPolicy::new(2, 1, 1, 1),
        Err(ToolOutputPolicyError::InlineLimitExceedsPerOutput { .. })
    ));
    assert!(matches!(
        ToolOutputPolicy::new(1, 2, 1, 1),
        Err(ToolOutputPolicyError::ReadLimitExceedsPerOutput { .. })
    ));
    assert!(matches!(
        ToolOutputPolicy::new(1, 1, 2, 1),
        Err(ToolOutputPolicyError::PerOutputLimitExceedsAggregate { .. })
    ));
}

#[test]
fn raw_limit_constructor_fails_runtime_construction_for_invalid_policy() {
    let error = match RuntimeState::new_with_output_policy_limits(
        "system prompt".to_owned(),
        Vec::new(),
        ToolOutputPolicyLimits {
            inline_limit_bytes: 0,
            read_limit_bytes: 1,
            per_output_limit_bytes: 1,
            aggregate_limit_bytes: 1,
        },
    ) {
        Ok(_) => panic!("invalid policy should fail runtime construction"),
        Err(error) => error,
    };

    assert!(matches!(error, Error::OutputPolicy { source: ToolOutputPolicyError::ZeroInlineLimit }));
}

#[test]
fn valid_limits_round_trip_through_the_policy() {
    let limits = ToolOutputPolicyLimits {
        inline_limit_bytes: 3,
        read_limit_bytes: 5,
        per_output_limit_bytes: 7,
        aggregate_limit_bytes: 11,
    };
    let policy = ToolOutputPolicy::from_limits(limits).unwrap();

    assert_eq!(policy.inline_limit_bytes(), 3);
    assert_eq!(policy.read_limit_bytes(), 5);
    assert_eq!(policy.per_output_limit_bytes(), 7);
    assert_eq!(policy.aggregate_limit_bytes(), 11);
    assert_eq!(ToolOutputPolicyLimits::default().inline_limit_bytes, 20_000);
}

#[test]
fn limit_errors_name_the_offending_pair() {
    assert!(matches!(
        ToolOutputPolicy::new(9, 1, 4, 8),
        Err(ToolOutputPolicyError::InlineLimitExceedsPerOutput { inline_limit_bytes: 9, per_output_limit_bytes: 4 })
    ));
    assert!(matches!(
        ToolOutputPolicy::new(1, 9, 4, 8),
        Err(ToolOutputPolicyError::ReadLimitExceedsPerOutput { read_limit_bytes: 9, per_output_limit_bytes: 4 })
    ));
    assert!(matches!(
        ToolOutputPolicy::new(1, 1, 9, 8),
        Err(ToolOutputPolicyError::PerOutputLimitExceedsAggregate { per_output_limit_bytes: 9, aggregate_limit_bytes: 8 })
    ));
}
