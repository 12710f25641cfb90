//! One round of tool calls within a turn step: a checkpoint before the
//! first call and after each one, the calls dispatched in the order the
//! model made them, and exactly one tool message answering each call.

use vstd::prelude::*;

use crate::dispatch::{tool_error_message, tool_error_text};
use crate::error::{Error, ToolError};
use crate::failures::{failure_payload, reader_error_text, tool_output_read_error_message};
use crate::interface::{ConversationMessage, ConversationRole, ToolCall};
use crate::tool_output::{is_intrinsic_tool, tool_output_read_name};
use crate::turn::{ActiveTurn, StepOutcome, ToolBatch, ToolExecutionRecord};

verus! {

/// `reply` is a tool message that answers `call`: it carries the call's id
/// and the tool's name.
pub open spec fn answers(reply: ConversationMessage, call: ToolCall) -> bool {
    &&& reply.role == ConversationRole::Tool
    &&& reply.tool_call_id matches Some(id) && id@ == call.id@
    &&& reply.name matches Some(name) && name@ == call.name@
}

/// The text of the failure payload that answers a failed call: the reader
/// explains its own failures, any other tool states its error.
pub open spec fn failure_text(call: ToolCall, error: ToolError) -> Seq<char> {
    if call.name@ == tool_output_read_name() {
        reader_error_text(error)
    } else {
        tool_error_text(error)
    }
}

/// What the round does next.
#[derive(Debug)]
pub enum RoundAction {
    /// Run the caller's checkpoint.
    Check,
    /// Dispatch this call.
    Dispatch(ToolCall),
    /// Every call was dispatched and checked.
    Finished,
}

/// The state of one round of tool calls.
pub struct ToolRound {
    calls: Vec<ToolCall>,
    dispatched: usize,
    awaiting_check: bool,
    batch: ToolBatch,
    replies: Ghost<Seq<ConversationMessage>>,
}

/// Returns a copy of a tool call.
fn copy_call(call: &ToolCall) -> (copy: ToolCall)
    ensures
        copy == *call,
{
    ToolCall {
        id: call.id.clone(),
        name: call.name.clone(),
        input: call.input.clone(),
        operation_id: call.operation_id.clone(),
    }
}

impl ToolRound {
    /// The calls of the round, in the order the model made them.
    pub closed spec fn spec_calls(&self) -> Seq<ToolCall> {
        self.calls@
    }

    /// How many calls were dispatched.
    pub closed spec fn spec_dispatched(&self) -> nat {
        self.dispatched as nat
    }

    /// Whether the checkpoint runs next.
    pub closed spec fn spec_awaiting_check(&self) -> bool {
        self.awaiting_check
    }

    /// The tool messages handed out so far, in order.
    pub closed spec fn spec_replies(&self) -> Seq<ConversationMessage> {
        self.replies@
    }

    /// Successful records and the first tool failure of the round.
    pub closed spec fn spec_batch(&self) -> ToolBatch {
        self.batch
    }

    /// The round is consistent: one reply per dispatched call, each
    /// answering its call, in order.
    pub closed spec fn wf(&self) -> bool {
        &&& self.dispatched <= self.calls@.len()
        &&& self.replies@.len() == self.dispatched
        &&& forall|i: int| 0 <= i < self.dispatched ==> answers(#[trigger] self.replies@[i], self.calls@[i])
    }

    /// Starts a round over the response's calls; the checkpoint runs first.
    pub fn new(calls: Vec<ToolCall>) -> (round: ToolRound)
        ensures
            round.wf(),
            round.spec_calls() == calls@,
            round.spec_dispatched() == 0,
            round.spec_awaiting_check(),
            round.spec_replies().len() == 0,
            round.spec_batch().results@.len() == 0,
            round.spec_batch().first_error is None,
    {
        ToolRound {
            calls,
            dispatched: 0,
            awaiting_check: true,
            batch: ToolBatch { results: Vec::new(), first_error: None },
            replies: Ghost(Seq::empty()),
        }
    }

    /// Decides the next action: the checkpoint when one is due, else the
    /// next call in order, else the end of the round.
    pub fn next_action(&self) -> (action: RoundAction)
        requires
            self.wf(),
        ensures
            self.spec_awaiting_check() ==> action is Check,
            !self.spec_awaiting_check() && self.spec_dispatched() < self.spec_calls().len() ==> (
            action matches RoundAction::Dispatch(call) && call == self.spec_calls()[self.spec_dispatched() as int]),
            !self.spec_awaiting_check() && self.spec_dispatched() == self.spec_calls().len()
                ==> action is Finished,
    {
        if self.awaiting_check {
            RoundAction::Check
        } else if self.dispatched < self.calls.len() {
            RoundAction::Dispatch(copy_call(&self.calls[self.dispatched]))
        } else {
            RoundAction::Finished
        }
    }

    /// Records that the checkpoint passed.
    pub fn checked(&mut self)
        requires
            old(self).wf(),
        ensures
            final(self).wf(),
            !final(self).spec_awaiting_check(),
            final(self).spec_calls() == old(self).spec_calls(),
            final(self).spec_dispatched() == old(self).spec_dispatched(),
            final(self).spec_replies() == old(self).spec_replies(),
            final(self).spec_batch() == old(self).spec_batch(),
    {
        self.awaiting_check = false;
    }

    /// Takes in the outcome of the call just dispatched and returns the one
    /// tool message that answers it: the serialized envelope of a success,
    /// or the failure payload of a tool failure. The success joins the
    /// turn's successful calls; a checkpoint is due next.
    pub fn record_outcome(
        &mut self,
        turn: &mut ActiveTurn,
        outcome: Result<(ToolExecutionRecord, String), ToolError>,
    ) -> (reply: ConversationMessage)
        requires
            old(self).wf(),
            !old(self).spec_awaiting_check(),
            old(self).spec_dispatched() < old(self).spec_calls().len(),
            old(turn).wf(),
        ensures
            final(self).wf(),
            final(turn).wf(),
            final(self).spec_awaiting_check(),
            final(self).spec_calls() == old(self).spec_calls(),
            final(self).spec_dispatched() == old(self).spec_dispatched() + 1,
            final(self).spec_replies() == old(self).spec_replies().push(reply),
            answers(reply, old(self).spec_calls()[old(self).spec_dispatched() as int]),
            final(turn).spec_steps_taken() == old(turn).spec_steps_taken(),
            final(turn).spec_max_steps() == old(turn).spec_max_steps(),
            final(turn).spec_assistant_message() == old(turn).spec_assistant_message(),
            final(turn).spec_terminal() == old(turn).spec_terminal(),
            match outcome {
                Ok((record, content)) => {
                    &&& reply.content@ == content@
                    &&& final(turn).spec_successful_tool_calls() == old(
                        turn,
                    ).spec_successful_tool_calls().push(record)
                    &&& final(self).spec_batch().results@ == old(self).spec_batch().results@.push(
                        record,
                    )
                    &&& final(self).spec_batch().first_error == old(self).spec_batch().first_error
                },
                Err(error) => {
                    &&& reply.content@ == failure_payload(
                        failure_text(
                            old(self).spec_calls()[old(self).spec_dispatched() as int],
                            error,
                        ),
                    )
                    &&& final(turn).spec_successful_tool_calls() == old(
                        turn,
                    ).spec_successful_tool_calls()
                    &&& final(self).spec_batch().results@ == old(self).spec_batch().results@
                    &&& final(self).spec_batch().first_error == match old(self).spec_batch().first_error {
                        Some(first) => Some(first),
                        None => Some(error),
                    }
                },
            },
    {
        let index = self.dispatched;
        let count = self.calls.len();
        assert(index < count);
        let call = &self.calls[index];
        let reply = match outcome {
            Ok((record, content)) => {
                let reply = ConversationMessage::tool(content, call.name.clone(), call.id.clone());
                let _ = turn.record_tool_result(&mut self.batch, Ok(record));
                reply
            },
            Err(error) => {
                let reply = if is_intrinsic_tool(call.name.as_str()) {
                    tool_output_read_error_message(call, &error)
                } else {
                    tool_error_message(call, &error)
                };
                let _ = turn.record_tool_result(&mut self.batch, Err(Error::Tool(error)));
                reply
            },
        };
        proof {
            self.replies@ = self.replies@.push(reply);
        }
        self.dispatched = index + 1;
        self.awaiting_check = true;
        reply
    }

    /// Ends a round whose calls were all dispatched and checked: the first
    /// tool failure fails the step, otherwise the step reports its results.
    pub fn finish(self, turn: &ActiveTurn) -> (result: Result<StepOutcome, Error>)
        requires
            self.wf(),
            turn.wf(),
        ensures
            match self.spec_batch().first_error {
                Some(error) => result == Err::<StepOutcome, Error>(Error::Tool(error)),
                None => {
                    &&& result matches Ok(StepOutcome::Stepped { assistant_message, steps_taken, tool_results })
                    &&& assistant_message@ == turn.spec_assistant_message()
                    &&& steps_taken == turn.spec_steps_taken()
                    &&& tool_results == self.spec_batch().results
                },
            },
    {
        turn.finish_tool_batch(self.batch)
    }
}

/// A finished round answered every call exactly once, in the order the
/// model made the calls.
pub proof fn lemma_finished_round_answers_every_call_in_order(round: ToolRound)
    requires
        round.wf(),
        round.spec_dispatched() == round.spec_calls().len(),
    ensures
        round.spec_replies().len() == round.spec_calls().len(),
        forall|i: int|
            0 <= i < round.spec_calls().len() ==> answers(
                #[trigger] round.spec_replies()[i],
                round.spec_calls()[i],
            ),
{
}

} // verus!
