//! The turn state machine: what one model round decides, given what the
//! model and the tools answered.
//!
//! A turn alternates outside work (calling the model, running tools,
//! logging, checkpoints) with decisions. The embedding runtime performs the
//! work and hands each answer to the methods here, which keep the turn's
//! state and say what happens next.

use vstd::prelude::*;

use crate::blank::{is_blank, is_blank_text};
use crate::envelope::ToolOutputEnvelope;
use crate::error::{Error, ModelError, ToolError};
use crate::interface::{duplicate_context, ConversationMessage, FinishReason, ModelResponse, ToolCall};
use crate::output_id::ToolOutputId;

verus! {

/// Successful tool execution record captured by the runtime.
#[derive(Debug)]
pub struct ToolExecutionRecord {
    /// Tool call identifier associated with the output.
    pub call_id: String,
    /// Runtime operation id used as the tool idempotency key.
    pub operation_id: String,
    /// Tool name associated with the output.
    pub name: String,
    /// Id of the stored output, when the output was stored.
    pub output_id: Option<ToolOutputId>,
    /// JSON payload returned by the tool implementation.
    pub raw_output: serde_json::Value,
    /// Bounded model-visible envelope.
    pub model_visible_output: ToolOutputEnvelope,
}

impl ToolExecutionRecord {
    /// Returns a field-for-field copy of this record.
    pub fn duplicate(&self) -> (copy: ToolExecutionRecord)
        ensures
            copy == *self,
    {
        let output_id = match &self.output_id {
            Some(id) => Some(id.duplicate()),
            None => None,
        };
        ToolExecutionRecord {
            call_id: self.call_id.clone(),
            operation_id: self.operation_id.clone(),
            name: self.name.clone(),
            output_id,
            raw_output: self.raw_output.clone(),
            model_visible_output: self.model_visible_output.duplicate(),
        }
    }
}

/// One successful turn step outcome.
#[derive(Debug)]
pub enum StepOutcome {
    /// One model round completed and produced tool calls that were handled successfully.
    Stepped {
        /// Most recent non-empty assistant response seen so far.
        assistant_message: String,
        /// Number of model rounds executed in the turn.
        steps_taken: usize,
        /// Successful tool execution records from this round.
        tool_results: Vec<ToolExecutionRecord>,
    },
    /// The model returned a terminal finish reason and the turn is complete.
    Completed {
        /// Most recent non-empty assistant response seen so far.
        assistant_message: String,
        /// Number of model rounds executed in the turn.
        steps_taken: usize,
    },
    /// The step budget has been exhausted.
    Capped {
        /// Most recent non-empty assistant response seen so far.
        assistant_message: String,
        /// Number of model rounds executed in the turn.
        steps_taken: usize,
        /// Configured maximum step count.
        max_steps: usize,
    },
}

/// Terminal outcome returned by running a turn to its end.
#[derive(Clone, Debug, PartialEq, Eq)]
pub enum RunOutcome {
    /// The model completed with a terminal finish reason.
    Completed {
        /// Most recent non-empty assistant response seen so far.
        assistant_message: String,
        /// Number of model rounds executed in the turn.
        steps_taken: usize,
    },
    /// The runtime exhausted the step budget before completion.
    Capped {
        /// Most recent non-empty assistant response seen so far.
        assistant_message: String,
        /// Number of model rounds executed in the turn.
        steps_taken: usize,
        /// Configured maximum step count.
        max_steps: usize,
    },
}

/// What the logger is told when a turn ends.
#[derive(Clone, Debug, PartialEq, Eq)]
pub struct TurnOutcomeLogEntry {
    /// Most recent non-empty assistant response.
    pub assistant_message: String,
    /// Model rounds executed.
    pub steps_taken: usize,
    /// Whether the model completed (rather than the cap being hit).
    pub completed: bool,
    /// Configured maximum step count.
    pub max_steps: Option<usize>,
}

/// Hook checked before model calls, after model responses, and around tool calls.
pub trait TurnCheckpoint {
    /// Fails the current turn when the embedding runtime cannot continue.
    fn check(&mut self) -> Result<(), Error>;
}

/// Hook called after provider response validation and before tool dispatch.
pub trait ModelResponseCheckpoint {
    /// Persists or observes one validated model response.
    fn checkpoint_response(&mut self, response: &mut ModelResponse) -> Result<(), Error>;
}

/// Checkpoint that never interrupts.
pub struct NoopTurnCheckpoint;

impl TurnCheckpoint for NoopTurnCheckpoint {
    fn check(&mut self) -> (result: Result<(), Error>)
        ensures
            result is Ok,
    {
        Ok(())
    }
}

/// Response checkpoint that does no work.
pub struct NoopModelResponseCheckpoint;

impl ModelResponseCheckpoint for NoopModelResponseCheckpoint {
    fn checkpoint_response(&mut self, response: &mut ModelResponse) -> (result: Result<(), Error>)
        ensures
            result is Ok,
            *final(response) == *old(response),
    {
        Ok(())
    }
}

/// A stored terminal outcome as the contracts see it.
pub struct TerminalView {
    /// Whether the model completed (rather than the cap being hit).
    pub completed: bool,
    /// Assistant message at the end.
    pub assistant_message: Seq<char>,
    /// Model rounds at the end.
    pub steps_taken: usize,
    /// Cap that ended the turn, for capped turns.
    pub max_steps: usize,
}

/// The terminal view of an outcome; `None` for a non-terminal step.
pub open spec fn terminal_view(outcome: StepOutcome) -> Option<TerminalView> {
    match outcome {
        StepOutcome::Stepped { .. } => None,
        StepOutcome::Completed { assistant_message, steps_taken } => Some(
            TerminalView {
                completed: true,
                assistant_message: assistant_message@,
                steps_taken,
                max_steps: 0,
            },
        ),
        StepOutcome::Capped { assistant_message, steps_taken, max_steps } => Some(
            TerminalView { completed: false, assistant_message: assistant_message@, steps_taken, max_steps },
        ),
    }
}

/// A response obeys the tool-call contract: a stop or truncation carries no
/// tool calls, and a tool-call finish carries at least one.
pub open spec fn response_obeys_contract(response: ModelResponse) -> bool {
    match response.finish_reason {
        FinishReason::Stop | FinishReason::Truncated => response.tool_calls@.len() == 0,
        FinishReason::ToolCalls => response.tool_calls@.len() > 0,
        _ => false,
    }
}

/// The tool-call contract accepts a finished answer (stopped or truncated)
/// that makes no tool calls, and a tool-call finish that makes some; it
/// refuses a filtered answer, an unknown finish reason, tool calls under any
/// other finish reason, and a tool-call finish without calls.
pub proof fn lemma_response_contract_cases(response: ModelResponse)
    ensures
        response.tool_calls@.len() == 0 && (response.finish_reason == FinishReason::Stop
            || response.finish_reason == FinishReason::Truncated) ==> response_obeys_contract(
            response,
        ),
        response.tool_calls@.len() > 0 && response.finish_reason == FinishReason::ToolCalls
            ==> response_obeys_contract(response),
        response.finish_reason == FinishReason::Filtered ==> !response_obeys_contract(response),
        response.finish_reason is Other ==> !response_obeys_contract(response),
        response.tool_calls@.len() > 0 && !(response.finish_reason is ToolCalls)
            ==> !response_obeys_contract(response),
        response.tool_calls@.len() == 0 && response.finish_reason is ToolCalls
            ==> !response_obeys_contract(response),
{
}

/// A provider error naming the response's provider and model.
pub open spec fn is_provider_error_for(error: Error, response: ModelResponse) -> bool {
    error matches Error::Model(ModelError::Provider { provider, model_id, .. }) && provider
        == response.provider && model_id == response.model_id
}

/// Builds a provider error that names the response's provider and model.
pub fn provider_error(response: &ModelResponse, message: String) -> (error: Error)
    ensures
        error == Error::Model(
            ModelError::Provider {
                provider: response.provider,
                model_id: response.model_id,
                message,
            },
        ),
{
    Error::Model(ModelError::provider(response.provider.clone(), response.model_id.clone(), message))
}

/// Checks that a response obeys the tool-call contract, rejecting it with a
/// provider error otherwise.
pub fn validate_response_contract(response: &ModelResponse) -> (result: Result<(), Error>)
    ensures
        result is Ok <==> response_obeys_contract(*response),
        response.tool_calls@.len() == 0 && (response.finish_reason == FinishReason::Stop
            || response.finish_reason == FinishReason::Truncated) ==> result is Ok,
        result matches Err(error) ==> is_provider_error_for(error, *response),
        match (result, response.finish_reason) {
            (Err(Error::Model(ModelError::Provider { message, .. })), FinishReason::Other(raw)) =>
                response.tool_calls@.len() == 0 ==> message == raw,
            _ => true,
        },
{
    let has_calls = response.tool_calls.len() > 0;
    let is_tool_calls = match &response.finish_reason {
        FinishReason::ToolCalls => true,
        _ => false,
    };
    if !is_tool_calls && has_calls {
        return Err(
            provider_error(
                response,
                "model returned tool calls without a tool-call finish reason".to_owned(),
            ),
        );
    }
    match &response.finish_reason {
        FinishReason::Stop | FinishReason::Truncated => Ok(()),
        FinishReason::Filtered => Err(
            provider_error(response, "model response was filtered by the provider".to_owned()),
        ),
        FinishReason::Other(raw) => Err(provider_error(response, raw.clone())),
        FinishReason::ToolCalls => {
            if has_calls {
                Ok(())
            } else {
                Err(
                    provider_error(
                        response,
                        "model reported tool calls without any tool call payloads".to_owned(),
                    ),
                )
            }
        },
    }
}

/// How a step begins.
#[derive(Debug)]
pub enum StepStart {
    /// The turn already ended; the step repeats its terminal outcome.
    Repeat(StepOutcome),
    /// The step budget is spent: the turn ends capped, and the logger is
    /// told so.
    Capped {
        /// The capped outcome.
        outcome: StepOutcome,
        /// What to log.
        log: TurnOutcomeLogEntry,
    },
    /// The model should be called.
    CallModel,
}

/// Successful and failed tool results of one model round, in call order.
#[derive(Debug)]
pub struct ToolBatch {
    /// Successful records of this round.
    pub results: Vec<ToolExecutionRecord>,
    /// The first tool failure of this round, if any.
    pub first_error: Option<ToolError>,
}

/// What a run does after one step.
#[derive(Debug)]
pub enum RunDecision {
    /// Take another step.
    Continue,
    /// Stop with this result.
    Finish(Result<RunOutcome, Error>),
}

/// Default concrete turn handle state.
#[derive(Debug)]
pub struct ActiveTurn {
    max_steps: Option<usize>,
    steps_taken: usize,
    assistant_message: String,
    successful_tool_calls: Vec<ToolExecutionRecord>,
    terminal_outcome: Option<StepOutcome>,
}

impl ActiveTurn {
    /// The configured step cap.
    pub closed spec fn spec_max_steps(&self) -> Option<usize> {
        self.max_steps
    }

    /// Model rounds executed so far.
    pub closed spec fn spec_steps_taken(&self) -> usize {
        self.steps_taken
    }

    /// Most recent non-blank assistant message.
    pub closed spec fn spec_assistant_message(&self) -> Seq<char> {
        self.assistant_message@
    }

    /// Successful tool calls of the whole turn, in order.
    pub closed spec fn spec_successful_tool_calls(&self) -> Seq<ToolExecutionRecord> {
        self.successful_tool_calls@
    }

    /// The stored terminal outcome, once the turn ended.
    pub closed spec fn spec_terminal(&self) -> Option<TerminalView> {
        match self.terminal_outcome {
            Some(outcome) => terminal_view(outcome),
            None => None,
        }
    }

    /// The turn state is consistent: a stored outcome is terminal, and the
    /// turn never takes more model rounds than its cap.
    pub closed spec fn wf(&self) -> bool {
        &&& (self.terminal_outcome matches Some(outcome) ==> terminal_view(outcome) is Some)
        &&& (self.max_steps matches Some(max) ==> self.steps_taken <= max)
    }

    /// The model may be called: the turn has not ended and the cap, if any,
    /// is not reached.
    pub open spec fn may_call_model(&self) -> bool {
        &&& self.spec_terminal() is None
        &&& (self.spec_max_steps() matches Some(max) ==> self.spec_steps_taken() < max)
    }

    /// Starts a turn with an optional cap on model rounds.
    pub fn new(max_steps: Option<usize>) -> (turn: ActiveTurn)
        ensures
            turn.wf(),
            turn.spec_max_steps() == max_steps,
            turn.spec_steps_taken() == 0,
            turn.spec_assistant_message().len() == 0,
            turn.spec_successful_tool_calls().len() == 0,
            turn.spec_terminal() is None,
    {
        ActiveTurn {
            max_steps,
            steps_taken: 0,
            assistant_message: String::new(),
            successful_tool_calls: Vec::new(),
            terminal_outcome: None,
        }
    }

    /// Returns the number of model rounds already executed by this turn.
    pub fn steps_taken(&self) -> (steps: usize)
        ensures
            steps == self.spec_steps_taken(),
    {
        self.steps_taken
    }

    /// Returns successful tool calls observed so far in this turn.
    pub fn successful_tool_calls(&self) -> (calls: &[ToolExecutionRecord])
        ensures
            calls@ == self.spec_successful_tool_calls(),
    {
        self.successful_tool_calls.as_slice()
    }

    fn copy_terminal(outcome: &StepOutcome) -> (copy: StepOutcome)
        requires
            terminal_view(*outcome) is Some,
        ensures
            copy == *outcome,
    {
        match outcome {
            StepOutcome::Completed { assistant_message, steps_taken } => StepOutcome::Completed {
                assistant_message: assistant_message.clone(),
                steps_taken: *steps_taken,
            },
            StepOutcome::Capped { assistant_message, steps_taken, max_steps } => StepOutcome::Capped {
                assistant_message: assistant_message.clone(),
                steps_taken: *steps_taken,
                max_steps: *max_steps,
            },
            StepOutcome::Stepped { .. } => {
                assert(false);
                StepOutcome::Completed { assistant_message: String::new(), steps_taken: 0 }
            },
        }
    }

    fn outcome_log(&self, completed: bool) -> (log: TurnOutcomeLogEntry)
        ensures
            log.assistant_message@ == self.assistant_message@,
            log.steps_taken == self.steps_taken,
            log.completed == completed,
            log.max_steps == self.max_steps,
    {
        TurnOutcomeLogEntry {
            assistant_message: self.assistant_message.clone(),
            steps_taken: self.steps_taken,
            completed,
            max_steps: self.max_steps,
        }
    }

    /// Decides how a step begins. A turn that ended repeats its outcome; a
    /// turn whose cap is reached ends capped; otherwise the model is called.
    pub fn begin_step(&mut self) -> (start: StepStart)
        requires
            old(self).wf(),
        ensures
            final(self).wf(),
            final(self).spec_max_steps() == old(self).spec_max_steps(),
            final(self).spec_steps_taken() == old(self).spec_steps_taken(),
            final(self).spec_assistant_message() == old(self).spec_assistant_message(),
            final(self).spec_successful_tool_calls() == old(self).spec_successful_tool_calls(),
            match old(self).spec_terminal() {
                Some(ended) => {
                    &&& start matches StepStart::Repeat(outcome)
                    &&& terminal_view(outcome) == Some(ended)
                    &&& final(self).spec_terminal() == Some(ended)
                },
                None => match old(self).spec_max_steps() {
                    Some(max) if old(self).spec_steps_taken() >= max => {
                        let ended = TerminalView {
                            completed: false,
                            assistant_message: old(self).spec_assistant_message(),
                            steps_taken: old(self).spec_steps_taken(),
                            max_steps: max,
                        };
                        &&& start matches StepStart::Capped { outcome, log }
                        &&& terminal_view(outcome) == Some(ended)
                        &&& final(self).spec_terminal() == Some(ended)
                        &&& log.assistant_message@ == ended.assistant_message
                        &&& log.steps_taken == ended.steps_taken
                        &&& !log.completed
                        &&& log.max_steps == Some(max)
                    },
                    _ => {
                        &&& start is CallModel
                        &&& final(self).spec_terminal() is None
                        &&& final(self).may_call_model()
                    },
                },
            },
    {
        if let Some(outcome) = &self.terminal_outcome {
            return StepStart::Repeat(Self::copy_terminal(outcome));
        }
        if let Some(max_steps) = self.max_steps {
            if self.steps_taken >= max_steps {
                let outcome = StepOutcome::Capped {
                    assistant_message: self.assistant_message.clone(),
                    steps_taken: self.steps_taken,
                    max_steps,
                };
                self.terminal_outcome = Some(Self::copy_terminal(&outcome));
                let log = self.outcome_log(false);
                return StepStart::Capped { outcome, log };
            }
        }
        StepStart::CallModel
    }

    /// Counts one model round whose response arrived.
    pub fn record_model_round(&mut self)
        requires
            old(self).wf(),
            old(self).may_call_model(),
            old(self).spec_steps_taken() < usize::MAX,
        ensures
            final(self).wf(),
            final(self).spec_steps_taken() == old(self).spec_steps_taken() + 1,
            final(self).spec_max_steps() == old(self).spec_max_steps(),
            final(self).spec_assistant_message() == old(self).spec_assistant_message(),
            final(self).spec_successful_tool_calls() == old(self).spec_successful_tool_calls(),
            final(self).spec_terminal() is None,
    {
        self.steps_taken = self.steps_taken + 1;
    }

    /// Remembers the response's assistant text and says which assistant
    /// message, if any, joins the conversation. A response with tool calls
    /// but no tool-call finish is a provider error and changes nothing.
    pub fn store_assistant_response(&mut self, response: &ModelResponse) -> (result: Result<
        Option<ConversationMessage>,
        Error,
    >)
        requires
            old(self).wf(),
        ensures
            final(self).wf(),
            final(self).spec_steps_taken() == old(self).spec_steps_taken(),
            final(self).spec_max_steps() == old(self).spec_max_steps(),
            final(self).spec_successful_tool_calls() == old(self).spec_successful_tool_calls(),
            final(self).spec_terminal() == old(self).spec_terminal(),
            !(response.finish_reason is ToolCalls) && response.tool_calls@.len() > 0 ==> {
                &&& result matches Err(error)
                &&& is_provider_error_for(error, *response)
                &&& final(self).spec_assistant_message() == old(self).spec_assistant_message()
            },
            !(!(response.finish_reason is ToolCalls) && response.tool_calls@.len() > 0) ==> {
                let blank = is_blank_text(response.assistant_message@);
                &&& result matches Ok(append)
                &&& final(self).spec_assistant_message() == if blank {
                    old(self).spec_assistant_message()
                } else {
                    response.assistant_message@
                }
                &&& (blank && response.tool_calls@.len() == 0 <==> append is None)
                &&& append matches Some(message) ==> {
                    &&& message.role is Assistant
                    &&& message.content@ == response.assistant_message@
                    &&& message.content_parts@.len() == 0
                    &&& message.name is None
                    &&& message.tool_call_id is None
                    &&& message.tool_calls@ == response.tool_calls@
                    &&& message.provider_context@ == response.provider_context@
                }
            },
    {
        let is_tool_calls = match &response.finish_reason {
            FinishReason::ToolCalls => true,
            _ => false,
        };
        let has_calls = response.tool_calls.len() > 0;
        if !is_tool_calls && has_calls {
            return Err(
                provider_error(
                    response,
                    "model returned tool calls without a tool-call finish reason".to_owned(),
                ),
            );
        }
        let blank = is_blank(response.assistant_message.as_str());
        if !blank {
            self.assistant_message = response.assistant_message.clone();
        }
        if !blank || has_calls {
            let mut message = ConversationMessage::assistant(
                response.assistant_message.clone(),
                clone_tool_calls(&response.tool_calls),
            );
            message.provider_context = duplicate_context(&response.provider_context);
            Ok(Some(message))
        } else {
            Ok(None)
        }
    }

    /// Decides whether the response ends the turn. A stop or truncation
    /// completes it, and the logger is told so; a filtered or unknown
    /// finish, or a tool-call finish without calls, is a provider error; a
    /// tool-call finish with calls continues to tool dispatch.
    pub fn terminal_response_outcome(&mut self, response: &ModelResponse) -> (result: Result<
        Option<(StepOutcome, TurnOutcomeLogEntry)>,
        Error,
    >)
        requires
            old(self).wf(),
        ensures
            final(self).wf(),
            final(self).spec_steps_taken() == old(self).spec_steps_taken(),
            final(self).spec_max_steps() == old(self).spec_max_steps(),
            final(self).spec_assistant_message() == old(self).spec_assistant_message(),
            final(self).spec_successful_tool_calls() == old(self).spec_successful_tool_calls(),
            match response.finish_reason {
                FinishReason::Stop | FinishReason::Truncated => {
                    let ended = TerminalView {
                        completed: true,
                        assistant_message: old(self).spec_assistant_message(),
                        steps_taken: old(self).spec_steps_taken(),
                        max_steps: 0,
                    };
                    &&& result matches Ok(Some((outcome, log)))
                    &&& terminal_view(outcome) == Some(ended)
                    &&& final(self).spec_terminal() == Some(ended)
                    &&& log.completed
                    &&& log.assistant_message@ == ended.assistant_message
                    &&& log.steps_taken == ended.steps_taken
                    &&& log.max_steps == old(self).spec_max_steps()
                },
                FinishReason::ToolCalls => {
                    &&& final(self).spec_terminal() == old(self).spec_terminal()
                    &&& if response.tool_calls@.len() > 0 {
                        result matches Ok(None)
                    } else {
                        result matches Err(error) && is_provider_error_for(error, *response)
                    }
                },
                _ => {
                    &&& final(self).spec_terminal() == old(self).spec_terminal()
                    &&& result matches Err(error)
                    &&& is_provider_error_for(error, *response)
                },
            },
    {
        match &response.finish_reason {
            FinishReason::Stop | FinishReason::Truncated => {
                let outcome = StepOutcome::Completed {
                    assistant_message: self.assistant_message.clone(),
                    steps_taken: self.steps_taken,
                };
                self.terminal_outcome = Some(Self::copy_terminal(&outcome));
                let log = self.outcome_log(true);
                Ok(Some((outcome, log)))
            },
            FinishReason::Filtered => Err(
                provider_error(response, "model response was filtered by the provider".to_owned()),
            ),
            FinishReason::Other(raw) => Err(provider_error(response, raw.clone())),
            FinishReason::ToolCalls => {
                if response.tool_calls.len() == 0 {
                    Err(
                        provider_error(
                            response,
                            "model reported tool calls without any tool call payloads".to_owned(),
                        ),
                    )
                } else {
                    Ok(None)
                }
            },
        }
    }

    /// Takes in one dispatched tool call's result. A success joins both the
    /// round's results and the turn's successful calls; the first tool
    /// failure of the round is kept; any other failure ends the step.
    pub fn record_tool_result(
        &mut self,
        batch: &mut ToolBatch,
        result: Result<ToolExecutionRecord, Error>,
    ) -> (outcome: Result<(), Error>)
        requires
            old(self).wf(),
        ensures
            final(self).wf(),
            final(self).spec_steps_taken() == old(self).spec_steps_taken(),
            final(self).spec_max_steps() == old(self).spec_max_steps(),
            final(self).spec_assistant_message() == old(self).spec_assistant_message(),
            final(self).spec_terminal() == old(self).spec_terminal(),
            match result {
                Ok(record) => {
                    &&& outcome is Ok
                    &&& final(self).spec_successful_tool_calls() == old(
                        self,
                    ).spec_successful_tool_calls().push(record)
                    &&& final(batch).results@ == old(batch).results@.push(record)
                    &&& final(batch).first_error == old(batch).first_error
                },
                Err(Error::Tool(error)) => {
                    &&& outcome is Ok
                    &&& final(self).spec_successful_tool_calls() == old(
                        self,
                    ).spec_successful_tool_calls()
                    &&& final(batch).results@ == old(batch).results@
                    &&& final(batch).first_error == match old(batch).first_error {
                        Some(first) => Some(first),
                        None => Some(error),
                    }
                },
                Err(error) => {
                    &&& outcome == Err::<(), Error>(error)
                    &&& final(self).spec_successful_tool_calls() == old(
                        self,
                    ).spec_successful_tool_calls()
                    &&& final(batch).results@ == old(batch).results@
                    &&& final(batch).first_error == old(batch).first_error
                },
            },
    {
        match result {
            Ok(record) => {
                self.successful_tool_calls.push(record.duplicate());
                batch.results.push(record);
                Ok(())
            },
            Err(Error::Tool(error)) => {
                if batch.first_error.is_none() {
                    batch.first_error = Some(error);
                }
                Ok(())
            },
            Err(error) => Err(error),
        }
    }

    /// Ends a round whose tool calls were all dispatched: the first tool
    /// failure fails the step, otherwise the step reports its results.
    pub fn finish_tool_batch(&self, batch: ToolBatch) -> (result: Result<StepOutcome, Error>)
        requires
            self.wf(),
        ensures
            match batch.first_error {
                Some(error) => result == Err::<StepOutcome, Error>(Error::Tool(error)),
                None => {
                    &&& result matches Ok(StepOutcome::Stepped { assistant_message, steps_taken, tool_results })
                    &&& assistant_message@ == self.spec_assistant_message()
                    &&& steps_taken == self.spec_steps_taken()
                    &&& tool_results == batch.results
                },
            },
    {
        match batch.first_error {
            Some(error) => Err(Error::Tool(error)),
            None => Ok(
                StepOutcome::Stepped {
                    assistant_message: self.assistant_message.clone(),
                    steps_taken: self.steps_taken,
                    tool_results: batch.results,
                },
            ),
        }
    }
}

/// Returns copies of the tool calls, in order.
fn clone_tool_calls(calls: &Vec<ToolCall>) -> (copies: Vec<ToolCall>)
    ensures
        copies@ == calls@,
{
    let mut copies: Vec<ToolCall> = Vec::new();
    let mut i: usize = 0;
    while i < calls.len()
        invariant
            i <= calls@.len(),
            copies@ == calls@.subrange(0, i as int),
        decreases calls@.len() - i,
    {
        let call = &calls[i];
        copies.push(
            ToolCall {
                id: call.id.clone(),
                name: call.name.clone(),
                input: call.input.clone(),
                operation_id: call.operation_id.clone(),
            },
        );
        i = i + 1;
        proof {
            assert(copies@ =~= calls@.subrange(0, i as int));
        }
    }
    copies
}

/// Decides what a run does after one step: another step after a tool round
/// or a tool failure; the run's end after completion, the cap, or any other
/// failure.
pub fn run_decision(step: Result<StepOutcome, Error>) -> (decision: RunDecision)
    ensures
        match step {
            Ok(StepOutcome::Stepped { .. }) => decision is Continue,
            Ok(StepOutcome::Completed { assistant_message, steps_taken }) => decision
                == RunDecision::Finish(
                Ok(RunOutcome::Completed { assistant_message, steps_taken }),
            ),
            Ok(StepOutcome::Capped { assistant_message, steps_taken, max_steps }) => decision
                == RunDecision::Finish(
                Ok(RunOutcome::Capped { assistant_message, steps_taken, max_steps }),
            ),
            Err(Error::Tool(_)) => decision is Continue,
            Err(error) => decision == RunDecision::Finish(Err(error)),
        },
{
    match step {
        Ok(StepOutcome::Stepped { .. }) => RunDecision::Continue,
        Ok(StepOutcome::Completed { assistant_message, steps_taken }) => RunDecision::Finish(
            Ok(RunOutcome::Completed { assistant_message, steps_taken }),
        ),
        Ok(StepOutcome::Capped { assistant_message, steps_taken, max_steps }) => RunDecision::Finish(
            Ok(RunOutcome::Capped { assistant_message, steps_taken, max_steps }),
        ),
        Err(Error::Tool(_)) => RunDecision::Continue,
        Err(error) => RunDecision::Finish(Err(error)),
    }
}

} // verus!
