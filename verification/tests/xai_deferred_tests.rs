use ai_tool_calling::error::ModelError;
use ai_tool_calling::interface::{ExecutionControls, ModelCompletionMode};
use ai_tool_calling::xai::deferred::{
    classify_retrieval_status, completion_failed, deferred_timeout_nanos, exchange_error,
    http_status_error, next_deferred_action, remaining_nanos, submission_accepted, use_deferred,
    validate_request_id, DeferredAction, DeferredPhase, ExchangeFailure, RetrievalStatus,
    POLL_INTERVAL_NANOS, POLL_TIMEOUT_NANOS,
};

const SECOND: u128 = 1_000_000_000;

#[test]
fn accepts_safe_request_ids_and_rejects_malformed_ones() {
    assert_eq!(validate_request_id("grok-4", "req-123_ABC".to_owned()), Ok("req-123_ABC".to_owned()));
    for bad in ["", "../escape", "has space", "é", "a/b", "a?b"] {
        let error = validate_request_id("grok-4", bad.to_owned()).expect_err("unsafe request id should fail");
        assert_eq!(
            error,
            ModelError::Provider {
                provider: "xai".to_owned(),
                model_id: "grok-4".to_owned(),
                message: "deferred completion returned an invalid request id".to_owned(),
            }
        );
    }
    assert!(validate_request_id("grok-4", "a".repeat(512)).is_ok());
    assert!(validate_request_id("grok-4", "a".repeat(513)).is_err());
}

#[test]
fn classifies_retrieval_statuses() {
    assert_eq!(classify_retrieval_status(200), RetrievalStatus::Complete);
    for status in [202, 429, 500, 503, 599] {
        assert_eq!(classify_retrieval_status(status), RetrievalStatus::Retry);
    }
    for status in [201, 204, 301, 400, 404, 600] {
        assert_eq!(classify_retrieval_status(status), RetrievalStatus::Refused);
    }
}

#[test]
fn submissions_need_a_2xx_and_completions_fail_from_400() {
    assert!(submission_accepted(200));
    assert!(submission_accepted(299));
    assert!(!submission_accepted(302));
    assert!(!submission_accepted(199));
    assert!(completion_failed(400));
    assert!(completion_failed(503));
    assert!(!completion_failed(399));
}

#[test]
fn status_errors_are_transient_only_where_a_retry_helps() {
    assert_eq!(
        http_status_error("grok-4", 503),
        ModelError::TransientProvider {
            provider: "xai".to_owned(),
            model_id: "grok-4".to_owned(),
            message: "xAI request failed with HTTP status 503".to_owned(),
        }
    );
    assert_eq!(
        http_status_error("grok-4", 400),
        ModelError::Provider {
            provider: "xai".to_owned(),
            model_id: "grok-4".to_owned(),
            message: "xAI request failed with HTTP status 400".to_owned(),
        }
    );
    assert!(matches!(http_status_error("grok-4", 429), ModelError::TransientProvider { .. }));
    assert!(matches!(http_status_error("grok-4", 408), ModelError::TransientProvider { .. }));
}

#[test]
fn exchange_failures_split_into_transient_and_internal() {
    assert_eq!(
        exchange_error("grok-4", ExchangeFailure::Transport, "connection reset".to_owned()),
        ModelError::TransientProvider {
            provider: "xai".to_owned(),
            model_id: "grok-4".to_owned(),
            message: "connection reset".to_owned(),
        }
    );
    assert!(matches!(exchange_error("grok-4", ExchangeFailure::Auth, "x".to_owned()), ModelError::TransientProvider { .. }));
    assert_eq!(
        exchange_error("grok-4", ExchangeFailure::DeserializeResponse, "bad body".to_owned()),
        ModelError::Internal { message: "bad body".to_owned() }
    );
    assert!(matches!(exchange_error("grok-4", ExchangeFailure::SerializeRequest, "x".to_owned()), ModelError::Internal { .. }));
}

#[test]
fn total_timeout_bounds_submission_poll_and_sleep() {
    let total = 7 * SECOND;
    match next_deferred_action("grok-4", DeferredPhase::Poll, total, 0) {
        DeferredAction::Retrieve { timeout_nanos } => assert_eq!(timeout_nanos, 7 * SECOND),
        other => panic!("unexpected action: {other:?}"),
    }
    match next_deferred_action("grok-4", DeferredPhase::Retry, total, 4 * SECOND) {
        DeferredAction::Sleep { nanos } => assert_eq!(nanos, 3 * SECOND),
        other => panic!("unexpected action: {other:?}"),
    }
    match next_deferred_action("grok-4", DeferredPhase::Poll, total, 7 * SECOND) {
        DeferredAction::Fail(error) => assert_eq!(
            error,
            ModelError::TransientProvider {
                provider: "xai".to_owned(),
                model_id: "grok-4".to_owned(),
                message: "deferred completion exceeded the total call timeout".to_owned(),
            }
        ),
        other => panic!("unexpected action: {other:?}"),
    }
    assert!(matches!(
        next_deferred_action("grok-4", DeferredPhase::Retry, total, 9 * SECOND),
        DeferredAction::Fail(_)
    ));
}

#[test]
fn polling_is_capped_by_the_poll_timeout_and_interval() {
    let total = 600 * SECOND;
    match next_deferred_action("grok-4", DeferredPhase::Poll, total, SECOND) {
        DeferredAction::Retrieve { timeout_nanos } => assert_eq!(timeout_nanos, POLL_TIMEOUT_NANOS),
        other => panic!("unexpected action: {other:?}"),
    }
    match next_deferred_action("grok-4", DeferredPhase::Retry, total, SECOND) {
        DeferredAction::Sleep { nanos } => assert_eq!(nanos, POLL_INTERVAL_NANOS),
        other => panic!("unexpected action: {other:?}"),
    }
    assert_eq!(remaining_nanos("grok-4", 10, 3), Ok(7));
    assert!(remaining_nanos("grok-4", 10, 10).is_err());
}

#[test]
fn deferred_use_and_default_timeout_follow_the_controls() {
    let synchronous = ExecutionControls { completion_mode: ModelCompletionMode::Synchronous, total_timeout_nanos: None };
    let deferred = ExecutionControls {
        completion_mode: ModelCompletionMode::PreferDeferred,
        total_timeout_nanos: Some(140 * SECOND),
    };

    assert!(!use_deferred(&synchronous));
    assert!(use_deferred(&deferred));
    assert_eq!(deferred_timeout_nanos(&synchronous), 60 * SECOND);
    assert_eq!(deferred_timeout_nanos(&deferred), 140 * SECOND);
}
