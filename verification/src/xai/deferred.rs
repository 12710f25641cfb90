//! Decisions of xAI deferred completions: request id validation, the
//! classification of HTTP outcomes, and the polling schedule within the
//! whole-call timeout.

use vstd::prelude::*;

use crate::error::ModelError;
use crate::interface::{ExecutionControls, ModelCompletionMode};
use crate::text::{decimal_text, usize_text};
use crate::windowing::utf8_bytes;
use crate::xai::request::{is_xai_provider_error, PROVIDER};

verus! {

/// Pause between two retrievals, in nanoseconds.
pub const POLL_INTERVAL_NANOS: u128 = 5_000_000_000;

/// Longest single retrieval, in nanoseconds.
pub const POLL_TIMEOUT_NANOS: u128 = 30_000_000_000;

/// Whole-call timeout of a deferred completion whose caller set none, in
/// nanoseconds.
pub const DEFAULT_DEFERRED_TIMEOUT_NANOS: u128 = 60_000_000_000;

/// Longest accepted request id, in bytes.
pub const MAX_REQUEST_ID_BYTES: usize = 512;

/// Message of the error for an unusable request id.
pub const INVALID_REQUEST_ID: &'static str = "deferred completion returned an invalid request id";

/// Message of the error for a deferred completion that ran out of time.
pub const DEFERRED_TIMEOUT: &'static str = "deferred completion exceeded the total call timeout";

/// Whether a byte may stand in a request id: an ASCII letter or digit, `-`
/// or `_`.
pub open spec fn is_request_id_byte(byte: u8) -> bool {
    ||| 0x30 <= byte <= 0x39
    ||| 0x41 <= byte <= 0x5a
    ||| 0x61 <= byte <= 0x7a
    ||| byte == 0x2d
    ||| byte == 0x5f
}

/// Whether a request id is safe to put in a retrieval URL: one to 512
/// bytes, each one that may stand in a request id.
pub open spec fn is_valid_request_id(bytes: Seq<u8>) -> bool {
    &&& 0 < bytes.len() <= MAX_REQUEST_ID_BYTES
    &&& forall|i: int| 0 <= i < bytes.len() ==> is_request_id_byte(#[trigger] bytes[i])
}

/// Accepts a request id that is safe to put in a retrieval URL; any other
/// is a provider error.
pub fn validate_request_id(model_id: &str, request_id: String) -> (result: Result<String, ModelError>)
    ensures
        is_valid_request_id(utf8_bytes(request_id@)) ==> result == Ok::<String, ModelError>(
            request_id,
        ),
        !is_valid_request_id(utf8_bytes(request_id@)) ==> (result matches Err(error)
            && is_xai_provider_error(error, model_id@, INVALID_REQUEST_ID@)),
{
    let bytes = request_id.as_str().as_bytes();
    let mut valid = bytes.len() > 0 && bytes.len() <= MAX_REQUEST_ID_BYTES;
    let mut i: usize = 0;
    while i < bytes.len()
        invariant
            bytes@ == utf8_bytes(request_id@),
            i <= bytes@.len(),
            valid ==> 0 < bytes@.len() <= MAX_REQUEST_ID_BYTES,
            valid ==> forall|j: int| 0 <= j < i ==> is_request_id_byte(#[trigger] bytes@[j]),
            !valid ==> !(0 < bytes@.len() <= MAX_REQUEST_ID_BYTES) || exists|j: int|
                0 <= j < i && !is_request_id_byte(#[trigger] bytes@[j]),
        decreases bytes@.len() - i,
    {
        let byte = bytes[i];
        let allowed = (byte >= 0x30 && byte <= 0x39) || (byte >= 0x41 && byte <= 0x5a) || (byte
            >= 0x61 && byte <= 0x7a) || byte == 0x2d || byte == 0x5f;
        if !allowed {
            valid = false;
        }
        i = i + 1;
    }
    if !valid {
        return Err(
            ModelError::provider(
                PROVIDER.to_owned(),
                model_id.to_owned(),
                INVALID_REQUEST_ID.to_owned(),
            ),
        );
    }
    Ok(request_id)
}

/// What a retrieval's HTTP status means.
#[derive(Clone, Copy, Debug, PartialEq, Eq, Structural)]
pub enum RetrievalStatus {
    /// The completion is ready in the body.
    Complete,
    /// Not ready yet, or a passing failure: poll again.
    Retry,
    /// A final failure.
    Refused,
}

/// The meaning of a retrieval status: 200 is complete; 202, 429 and every
/// 5xx are polled again; anything else is refused.
pub open spec fn retrieval_status_of(status: u16) -> RetrievalStatus {
    if status == 200 {
        RetrievalStatus::Complete
    } else if status == 202 || status == 429 || (500 <= status <= 599) {
        RetrievalStatus::Retry
    } else {
        RetrievalStatus::Refused
    }
}

/// Every server error, like 202 and 429, is polled again, and all statuses
/// of the 5xx class share one meaning; 200 alone completes; a status is
/// refused exactly when it is none of these.
pub proof fn lemma_retrieval_status_classes(status: u16, other: u16)
    ensures
        500 <= status <= 599 ==> retrieval_status_of(status) == RetrievalStatus::Retry,
        500 <= status <= 599 && 500 <= other <= 599 ==> retrieval_status_of(status)
            == retrieval_status_of(other),
        status == 202 || status == 429 ==> retrieval_status_of(status) == RetrievalStatus::Retry,
        retrieval_status_of(status) == RetrievalStatus::Complete <==> status == 200,
        retrieval_status_of(status) == RetrievalStatus::Refused <==> !(status == 200 || status
            == 202 || status == 429 || (500 <= status <= 599)),
{
}

/// Classifies a retrieval status.
pub fn classify_retrieval_status(status: u16) -> (meaning: RetrievalStatus)
    ensures
        meaning == retrieval_status_of(status),
        500 <= status <= 599 ==> meaning == RetrievalStatus::Retry,
{
    if status == 200 {
        RetrievalStatus::Complete
    } else if status == 202 || status == 429 || (status >= 500 && status <= 599) {
        RetrievalStatus::Retry
    } else {
        RetrievalStatus::Refused
    }
}

/// Whether a submission status accepts the request: any 2xx.
pub open spec fn is_accepted_submission(status: u16) -> bool {
    200 <= status < 300
}

/// Returns whether a submission status accepts the request.
pub fn submission_accepted(status: u16) -> (accepted: bool)
    ensures
        accepted == is_accepted_submission(status),
{
    status >= 200 && status < 300
}

/// Whether an immediate completion's status is a failure: 400 and above.
pub open spec fn is_failed_completion(status: u16) -> bool {
    status >= 400
}

/// Returns whether an immediate completion's status is a failure.
pub fn completion_failed(status: u16) -> (failed: bool)
    ensures
        failed == is_failed_completion(status),
{
    status >= 400
}

/// Whether a failed HTTP status is worth retrying: 408, 429 and every 5xx.
pub open spec fn is_transient_status(status: u16) -> bool {
    status == 408 || status == 429 || (500 <= status <= 599)
}

/// The message of the error for a refused HTTP status.
pub open spec fn status_error_message(status: u16) -> Seq<char> {
    "xAI request failed with HTTP status "@ + decimal_text(status as nat)
}

/// The error for an HTTP status that refused a request: transient where a
/// retry may clear it, else a provider error; both name the status.
pub fn http_status_error(model_id: &str, status: u16) -> (error: ModelError)
    ensures
        is_transient_status(status) ==> (error matches ModelError::TransientProvider {
            provider,
            model_id: m,
            message,
        } && provider@ == PROVIDER@ && m@ == model_id@ && message@ == status_error_message(
            status,
        )),
        !is_transient_status(status) ==> is_xai_provider_error(
            error,
            model_id@,
            status_error_message(status),
        ),
{
    let mut message = "xAI request failed with HTTP status ".to_owned();
    let digits = usize_text(status as usize);
    message.append(digits.as_str());
    if status == 408 || status == 429 || (status >= 500 && status <= 599) {
        ModelError::transient_provider(PROVIDER.to_owned(), model_id.to_owned(), message)
    } else {
        ModelError::provider(PROVIDER.to_owned(), model_id.to_owned(), message)
    }
}

/// How an HTTP exchange failed before a status came back.
#[derive(Clone, Copy, Debug, PartialEq, Eq, Structural)]
pub enum ExchangeFailure {
    /// The connection or transfer failed.
    Transport,
    /// Authentication could not be applied.
    Auth,
    /// The request body did not serialize.
    SerializeRequest,
    /// The response body did not deserialize.
    DeserializeResponse,
}

/// Whether a failed exchange is a passing one: transport and auth failures.
pub open spec fn is_passing_failure(failure: ExchangeFailure) -> bool {
    failure == ExchangeFailure::Transport || failure == ExchangeFailure::Auth
}

/// The error for a failed exchange: a transient provider error for a
/// passing failure, else an internal error; both carry the failure's text.
pub fn exchange_error(model_id: &str, failure: ExchangeFailure, message: String) -> (error:
    ModelError)
    ensures
        is_passing_failure(failure) ==> (error matches ModelError::TransientProvider {
            provider,
            model_id: m,
            message: t,
        } && provider@ == PROVIDER@ && m@ == model_id@ && t == message),
        !is_passing_failure(failure) ==> error == (ModelError::Internal { message }),
{
    match failure {
        ExchangeFailure::Transport | ExchangeFailure::Auth => ModelError::transient_provider(
            PROVIDER.to_owned(),
            model_id.to_owned(),
            message,
        ),
        ExchangeFailure::SerializeRequest | ExchangeFailure::DeserializeResponse => {
            ModelError::Internal { message }
        },
    }
}

/// Whether a completion is deferred: any mode but synchronous, since xAI
/// takes deferred completions.
pub open spec fn is_deferred_mode(mode: ModelCompletionMode) -> bool {
    mode != ModelCompletionMode::Synchronous
}

/// Returns whether a completion is deferred.
pub fn use_deferred(controls: &ExecutionControls) -> (deferred: bool)
    ensures
        deferred == is_deferred_mode(controls.completion_mode),
{
    match controls.completion_mode {
        ModelCompletionMode::Synchronous => false,
        ModelCompletionMode::PreferDeferred => true,
    }
}

/// The whole-call timeout of a deferred completion: the caller's, or 60
/// seconds.
pub fn deferred_timeout_nanos(controls: &ExecutionControls) -> (timeout: u128)
    ensures
        timeout == match controls.total_timeout_nanos {
            Some(t) => t,
            None => DEFAULT_DEFERRED_TIMEOUT_NANOS,
        },
{
    match controls.total_timeout_nanos {
        Some(timeout) => timeout,
        None => DEFAULT_DEFERRED_TIMEOUT_NANOS,
    }
}

/// Time left of the whole-call timeout, in nanoseconds.
pub open spec fn time_left(total_nanos: u128, elapsed_nanos: u128) -> int {
    saturating_gap(total_nanos as int, elapsed_nanos as int)
}

/// `a - b`, or zero where `b` is larger.
pub open spec fn saturating_gap(a: int, b: int) -> int {
    if a >= b {
        a - b
    } else {
        0
    }
}

/// Whether `error` is the deferred-completion timeout.
pub open spec fn is_deferred_timeout(error: ModelError, model_id: Seq<char>) -> bool {
    error matches ModelError::TransientProvider { provider, model_id: m, message } && provider@
        == PROVIDER@ && m@ == model_id && message@ == DEFERRED_TIMEOUT@
}

/// Returns the time left of the whole-call timeout; none left is a
/// transient timeout error.
pub fn remaining_nanos(model_id: &str, total_nanos: u128, elapsed_nanos: u128) -> (result: Result<
    u128,
    ModelError,
>)
    ensures
        time_left(total_nanos, elapsed_nanos) == 0 ==> (result matches Err(error)
            && is_deferred_timeout(error, model_id@)),
        time_left(total_nanos, elapsed_nanos) > 0 ==> result == Ok::<u128, ModelError>(
            time_left(total_nanos, elapsed_nanos) as u128,
        ),
{
    let remaining = total_nanos.saturating_sub(elapsed_nanos);
    if remaining == 0 {
        return Err(
            ModelError::transient_provider(
                PROVIDER.to_owned(),
                model_id.to_owned(),
                DEFERRED_TIMEOUT.to_owned(),
            ),
        );
    }
    Ok(remaining)
}

/// Where a deferred completion stands between two steps.
#[derive(Clone, Copy, Debug, PartialEq, Eq, Structural)]
pub enum DeferredPhase {
    /// The request was accepted, or a pause ended: retrieve next.
    Poll,
    /// The last retrieval said to poll again: pause next.
    Retry,
}

/// What the polling loop does next.
#[derive(Debug)]
pub enum DeferredAction {
    /// Retrieve the completion, allowing this many nanoseconds.
    Retrieve {
        /// Timeout of the retrieval.
        timeout_nanos: u128,
    },
    /// Pause this many nanoseconds.
    Sleep {
        /// Length of the pause.
        nanos: u128,
    },
    /// Give up with this error.
    Fail(ModelError),
}

/// The smaller of two numbers.
pub open spec fn smaller(a: int, b: int) -> int {
    if a <= b {
        a
    } else {
        b
    }
}

/// Decides the next step of the polling loop from its phase and the time
/// spent: fail once the whole-call timeout is used up; otherwise retrieve
/// for at most 30 seconds, or pause for at most 5, never past the timeout.
pub fn next_deferred_action(
    model_id: &str,
    phase: DeferredPhase,
    total_nanos: u128,
    elapsed_nanos: u128,
) -> (action: DeferredAction)
    ensures
        time_left(total_nanos, elapsed_nanos) == 0 ==> (action matches DeferredAction::Fail(error)
            && is_deferred_timeout(error, model_id@)),
        time_left(total_nanos, elapsed_nanos) > 0 && phase == DeferredPhase::Poll ==> (
        action matches DeferredAction::Retrieve { timeout_nanos } && timeout_nanos == smaller(
            time_left(total_nanos, elapsed_nanos),
            POLL_TIMEOUT_NANOS as int,
        )),
        time_left(total_nanos, elapsed_nanos) > 0 && phase == DeferredPhase::Retry ==> (
        action matches DeferredAction::Sleep { nanos } && nanos == smaller(
            time_left(total_nanos, elapsed_nanos),
            POLL_INTERVAL_NANOS as int,
        )),
        action matches DeferredAction::Retrieve { timeout_nanos } ==> 0 < timeout_nanos
            && elapsed_nanos + timeout_nanos <= total_nanos,
        action matches DeferredAction::Sleep { nanos } ==> 0 < nanos && elapsed_nanos + nanos
            <= total_nanos,
{
    let remaining = match remaining_nanos(model_id, total_nanos, elapsed_nanos) {
        Ok(remaining) => remaining,
        Err(error) => {
            return DeferredAction::Fail(error);
        },
    };
    match phase {
        DeferredPhase::Poll => DeferredAction::Retrieve {
            timeout_nanos: if remaining <= POLL_TIMEOUT_NANOS {
                remaining
            } else {
                POLL_TIMEOUT_NANOS
            },
        },
        DeferredPhase::Retry => DeferredAction::Sleep {
            nanos: if remaining <= POLL_INTERVAL_NANOS {
                remaining
            } else {
                POLL_INTERVAL_NANOS
            },
        },
    }
}

} // verus!
