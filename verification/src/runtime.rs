//! Retained runtime state: system prompt, conversation, output policy and
//! tool catalog, with the mutations the runtime offers its callers.

use vstd::prelude::*;

use crate::catalog::{is_catalog_outcome, GroupedToolDefinition, ToolCatalog};
use crate::error::Error;
use crate::interface::{
    ConversationMessage, ConversationRole, ModelCallControls, ModelRequest, ToolDefinition,
};
use crate::policy::{validate_limits, ToolOutputPolicy, ToolOutputPolicyLimits};
use crate::turn::ActiveTurn;

verus! {

/// `message` has this role and text, and nothing else: no parts, name,
/// answered call, tool calls or replay context.
pub open spec fn is_plain_message(message: ConversationMessage, role: ConversationRole, content: Seq<char>) -> bool {
    &&& message.role == role
    &&& message.content@ == content
    &&& message.content_parts@.len() == 0
    &&& message.name is None
    &&& message.tool_call_id is None
    &&& message.tool_calls@.len() == 0
    &&& message.provider_context@.len() == 0
}

/// The runtime's retained state.
#[derive(Debug)]
pub struct RuntimeState {
    system_prompt: String,
    conversation: Vec<ConversationMessage>,
    output_policy: ToolOutputPolicy,
    tools: ToolCatalog,
}

impl RuntimeState {
    /// Active system prompt.
    pub closed spec fn spec_system_prompt(&self) -> Seq<char> {
        self.system_prompt@
    }

    /// Retained conversation.
    pub closed spec fn spec_conversation(&self) -> Seq<ConversationMessage> {
        self.conversation@
    }

    /// Output policy.
    pub closed spec fn spec_output_policy(&self) -> ToolOutputPolicy {
        self.output_policy
    }

    /// Tool catalog.
    pub closed spec fn spec_tools(&self) -> ToolCatalog {
        self.tools
    }

    /// The catalog is consistent.
    pub closed spec fn wf(&self) -> bool {
        self.tools.wf()
    }

    /// Builds the state from the injected tools' definitions and an output
    /// policy; the catalog's refusal of a tool name fails construction.
    pub fn new(
        system_prompt: String,
        tools: Vec<Vec<GroupedToolDefinition>>,
        output_policy: ToolOutputPolicy,
    ) -> (result: Result<RuntimeState, Error>)
        ensures
            match result {
                Ok(state) => {
                    &&& state.wf()
                    &&& state.spec_system_prompt() == system_prompt@
                    &&& state.spec_conversation().len() == 0
                    &&& state.spec_output_policy() == output_policy
                    &&& is_catalog_outcome(Ok(state.spec_tools()), tools@)
                },
                Err(error) => is_catalog_outcome(Err(error), tools@),
            },
    {
        let catalog = match ToolCatalog::new(tools) {
            Ok(catalog) => catalog,
            Err(error) => {
                return Err(error);
            },
        };
        Ok(
            RuntimeState {
                system_prompt,
                conversation: Vec::new(),
                output_policy,
                tools: catalog,
            },
        )
    }

    /// Builds the state after validating raw output policy limits; invalid
    /// limits fail construction with the validation error.
    pub fn new_with_output_policy_limits(
        system_prompt: String,
        tools: Vec<Vec<GroupedToolDefinition>>,
        output_limits: ToolOutputPolicyLimits,
    ) -> (result: Result<RuntimeState, Error>)
        ensures
            match validate_limits(output_limits) {
                Err(source) => result matches Err(Error::OutputPolicy { source: s }) && s == source,
                Ok(_) => match result {
                    Ok(state) => {
                        &&& state.wf()
                        &&& state.spec_system_prompt() == system_prompt@
                        &&& state.spec_conversation().len() == 0
                        &&& state.spec_output_policy()@ == output_limits
                        &&& is_catalog_outcome(Ok(state.spec_tools()), tools@)
                    },
                    Err(error) => is_catalog_outcome(Err(error), tools@),
                },
            },
    {
        let output_policy = match ToolOutputPolicy::from_limits(output_limits) {
            Ok(output_policy) => output_policy,
            Err(source) => {
                return Err(Error::OutputPolicy { source });
            },
        };
        Self::new(system_prompt, tools, output_policy)
    }

    /// Returns the retained conversation state.
    pub fn conversation(&self) -> (conversation: &Vec<ConversationMessage>)
        ensures
            conversation@ == self.spec_conversation(),
    {
        &self.conversation
    }

    /// Replaces the retained conversation state.
    pub fn replace_conversation(&mut self, messages: Vec<ConversationMessage>)
        ensures
            final(self).spec_conversation() == messages@,
            final(self).spec_system_prompt() == old(self).spec_system_prompt(),
            final(self).spec_output_policy() == old(self).spec_output_policy(),
            final(self).spec_tools() == old(self).spec_tools(),
    {
        self.conversation = messages;
    }

    /// Appends one message.
    pub fn append_message(&mut self, message: ConversationMessage)
        ensures
            final(self).spec_conversation() == old(self).spec_conversation().push(message),
            final(self).spec_system_prompt() == old(self).spec_system_prompt(),
            final(self).spec_output_policy() == old(self).spec_output_policy(),
            final(self).spec_tools() == old(self).spec_tools(),
    {
        self.conversation.push(message);
    }

    /// Appends one caller/user message.
    pub fn push_user_message(&mut self, content: String)
        ensures
            final(self).spec_conversation().len() == old(self).spec_conversation().len() + 1,
            final(self).spec_conversation().drop_last() == old(self).spec_conversation(),
            is_plain_message(final(self).spec_conversation().last(), ConversationRole::User, content@),
            final(self).spec_system_prompt() == old(self).spec_system_prompt(),
            final(self).spec_output_policy() == old(self).spec_output_policy(),
            final(self).spec_tools() == old(self).spec_tools(),
    {
        self.conversation.push(ConversationMessage::user(content));
        proof {
            assert(self.conversation@.drop_last() =~= old(self).conversation@);
        }
    }

    /// Appends one assistant message without tool calls.
    pub fn push_assistant_message(&mut self, content: String)
        ensures
            final(self).spec_conversation().len() == old(self).spec_conversation().len() + 1,
            final(self).spec_conversation().drop_last() == old(self).spec_conversation(),
            is_plain_message(
                final(self).spec_conversation().last(),
                ConversationRole::Assistant,
                content@,
            ),
            final(self).spec_system_prompt() == old(self).spec_system_prompt(),
            final(self).spec_output_policy() == old(self).spec_output_policy(),
            final(self).spec_tools() == old(self).spec_tools(),
    {
        self.conversation.push(ConversationMessage::assistant(content, Vec::new()));
        proof {
            assert(self.conversation@.drop_last() =~= old(self).conversation@);
        }
    }

    /// Clears the retained conversation state.
    pub fn clear_conversation(&mut self)
        ensures
            final(self).spec_conversation().len() == 0,
            final(self).spec_system_prompt() == old(self).spec_system_prompt(),
            final(self).spec_output_policy() == old(self).spec_output_policy(),
            final(self).spec_tools() == old(self).spec_tools(),
    {
        self.conversation.clear();
    }

    /// Returns the active system prompt.
    pub fn system_prompt(&self) -> (prompt: &String)
        ensures
            prompt@ == self.spec_system_prompt(),
    {
        &self.system_prompt
    }

    /// Replaces the active system prompt.
    pub fn set_system_prompt(&mut self, system_prompt: String)
        ensures
            final(self).spec_system_prompt() == system_prompt@,
            final(self).spec_conversation() == old(self).spec_conversation(),
            final(self).spec_output_policy() == old(self).spec_output_policy(),
            final(self).spec_tools() == old(self).spec_tools(),
    {
        self.system_prompt = system_prompt;
    }

    /// Returns the currently exposed tool definitions.
    pub fn tool_definitions(&self) -> (definitions: &Vec<ToolDefinition>)
        ensures
            definitions@ == self.spec_tools().spec_definitions(),
    {
        self.tools.definitions()
    }

    /// Returns the tool catalog.
    pub fn tools(&self) -> (tools: &ToolCatalog)
        ensures
            *tools == self.spec_tools(),
    {
        &self.tools
    }

    /// Replaces the active tools for future turns; a refused catalog leaves
    /// the tools unchanged.
    pub fn replace_tools(&mut self, tools: Vec<Vec<GroupedToolDefinition>>) -> (result: Result<
        (),
        Error,
    >)
        requires
            old(self).wf(),
        ensures
            final(self).wf(),
            final(self).spec_conversation() == old(self).spec_conversation(),
            final(self).spec_system_prompt() == old(self).spec_system_prompt(),
            final(self).spec_output_policy() == old(self).spec_output_policy(),
            result is Err ==> final(self).spec_tools() == old(self).spec_tools(),
            match result {
                Ok(()) => is_catalog_outcome(Ok(final(self).spec_tools()), tools@),
                Err(error) => is_catalog_outcome(Err(error), tools@),
            },
    {
        match ToolCatalog::new(tools) {
            Ok(catalog) => {
                self.tools = catalog;
                Ok(())
            },
            Err(error) => Err(error),
        }
    }

    /// Returns the output policy.
    pub fn output_policy(&self) -> (policy: ToolOutputPolicy)
        ensures
            policy == self.spec_output_policy(),
    {
        self.output_policy
    }

    /// Builds the request for the next model step from the retained state:
    /// the system prompt, a copy of the conversation, the exposed tool
    /// definitions, no response schema, and the caller's controls.
    pub fn model_request(&self, controls: ModelCallControls) -> (request: ModelRequest)
        requires
            self.wf(),
        ensures
            request.system_prompt@ == self.spec_system_prompt(),
            request.messages@.len() == self.spec_conversation().len(),
            forall|i: int|
                #![all_triggers]
                0 <= i < request.messages@.len() ==> cloned::<ConversationMessage>(
                    self.spec_conversation()[i],
                    request.messages@[i],
                ),
            request.tools@.len() == self.spec_tools().spec_definitions().len(),
            forall|i: int|
                #![all_triggers]
                0 <= i < request.tools@.len() ==> cloned::<ToolDefinition>(
                    self.spec_tools().spec_definitions()[i],
                    request.tools@[i],
                ),
            request.response_schema is None,
            request.controls == controls,
    {
        ModelRequest {
            system_prompt: self.system_prompt.clone(),
            messages: self.conversation.clone(),
            tools: self.tools.definitions().clone(),
            response_schema: None,
            controls,
        }
    }

    /// Appends a caller-supplied message and starts a new turn.
    pub fn send(&mut self, message: ConversationMessage, max_steps: Option<usize>) -> (turn:
        ActiveTurn)
        ensures
            final(self).spec_conversation() == old(self).spec_conversation().push(message),
            final(self).spec_system_prompt() == old(self).spec_system_prompt(),
            final(self).spec_output_policy() == old(self).spec_output_policy(),
            final(self).spec_tools() == old(self).spec_tools(),
            turn.wf(),
            turn.spec_max_steps() == max_steps,
            turn.spec_steps_taken() == 0,
            turn.spec_terminal() is None,
    {
        self.conversation.push(message);
        ActiveTurn::new(max_steps)
    }

    /// Starts a new turn without appending another caller message.
    pub fn resume(&self, max_steps: Option<usize>) -> (turn: ActiveTurn)
        ensures
            turn.wf(),
            turn.spec_max_steps() == max_steps,
            turn.spec_steps_taken() == 0,
            turn.spec_terminal() is None,
    {
        ActiveTurn::new(max_steps)
    }
}

} // verus!
