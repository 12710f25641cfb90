//! Copies of model requests and responses that are fit for logs: replay
//! context that a provider keeps private is taken out.

use vstd::prelude::*;

use crate::interface::{ConversationMessage, ModelRequest, ModelResponse, ProviderConversationItem};

verus! {

/// Replay context that must not reach logs: Kimi and MiniMax assistant
/// messages.
pub open spec fn is_private_replay_context(item: ProviderConversationItem) -> bool {
    item is KimiAssistantMessage || item is MiniMaxAssistant
}

/// The test that keeps loggable replay context.
pub open spec fn loggable() -> spec_fn(ProviderConversationItem) -> bool {
    |item: ProviderConversationItem| !is_private_replay_context(item)
}

/// The loggable part of a replay context, in order.
pub open spec fn loggable_context(context: Seq<ProviderConversationItem>) -> Seq<
    ProviderConversationItem,
> {
    context.filter(loggable())
}

/// Takes the private items out of a replay context, keeping the others in
/// order.
pub fn remove_private_replay_context(context: Vec<ProviderConversationItem>) -> (kept: Vec<
    ProviderConversationItem,
>)
    ensures
        kept@ == loggable_context(context@),
{
    let ghost items = context@;
    let mut rest = context;
    let mut kept: Vec<ProviderConversationItem> = Vec::new();
    while rest.len() > 0
        invariant
            rest@.len() <= items.len(),
            rest@ == items.subrange(items.len() - rest@.len(), items.len() as int),
            kept@ == items.subrange(0, items.len() - rest@.len()).filter(loggable()),
        decreases rest@.len(),
    {
        let ghost done = items.len() - rest@.len();
        let item = rest.remove(0);
        proof {
            reveal(Seq::filter);
            let prefix = items.subrange(0, done + 1);
            assert(prefix.drop_last() =~= items.subrange(0, done));
            assert(prefix.last() == item);
            assert(rest@ =~= items.subrange(done + 1, items.len() as int));
        }
        let private = match &item {
            ProviderConversationItem::KimiAssistantMessage { .. } => true,
            ProviderConversationItem::MiniMaxAssistant { .. } => true,
            _ => false,
        };
        if !private {
            kept.push(item);
        }
    }
    proof {
        assert(items.subrange(0, items.len() as int) =~= items);
    }
    kept
}

/// `logged` is `message` with only its loggable replay context.
pub open spec fn is_loggable_message(logged: ConversationMessage, message: ConversationMessage) -> bool {
    &&& logged.role == message.role
    &&& logged.content == message.content
    &&& logged.content_parts == message.content_parts
    &&& logged.name == message.name
    &&& logged.tool_call_id == message.tool_call_id
    &&& logged.tool_calls == message.tool_calls
    &&& logged.provider_context@ == loggable_context(message.provider_context@)
}

/// Returns a request fit for logs: each message keeps only its loggable
/// replay context.
pub fn model_request_for_logging(request: ModelRequest) -> (logged: ModelRequest)
    ensures
        logged.system_prompt == request.system_prompt,
        logged.tools == request.tools,
        logged.response_schema == request.response_schema,
        logged.controls == request.controls,
        logged.messages@.len() == request.messages@.len(),
        forall|i: int|
            0 <= i < request.messages@.len() ==> is_loggable_message(
                #[trigger] logged.messages@[i],
                request.messages@[i],
            ),
{
    let ModelRequest { system_prompt, messages, tools, response_schema, controls } = request;
    let ghost items = messages@;
    let mut rest = messages;
    let mut logged: Vec<ConversationMessage> = Vec::new();
    while rest.len() > 0
        invariant
            rest@.len() <= items.len(),
            rest@ == items.subrange(items.len() - rest@.len(), items.len() as int),
            logged@.len() == items.len() - rest@.len(),
            forall|i: int|
                0 <= i < logged@.len() ==> is_loggable_message(#[trigger] logged@[i], items[i]),
        decreases rest@.len(),
    {
        let ghost done = items.len() - rest@.len();
        let message = rest.remove(0);
        proof {
            assert(message == items[done]);
            assert(rest@ =~= items.subrange(done + 1, items.len() as int));
        }
        let ConversationMessage {
            role,
            content,
            content_parts,
            name,
            tool_call_id,
            tool_calls,
            provider_context,
        } = message;
        let kept = remove_private_replay_context(provider_context);
        logged.push(
            ConversationMessage {
                role,
                content,
                content_parts,
                name,
                tool_call_id,
                tool_calls,
                provider_context: kept,
            },
        );
    }
    ModelRequest { system_prompt, messages: logged, tools, response_schema, controls }
}

/// Returns a response fit for logs: it keeps only its loggable replay
/// context.
pub fn model_response_for_logging(response: ModelResponse) -> (logged: ModelResponse)
    ensures
        logged.provider == response.provider,
        logged.model_id == response.model_id,
        logged.catalog_model_id == response.catalog_model_id,
        logged.thinking_level == response.thinking_level,
        logged.assistant_message == response.assistant_message,
        logged.tool_calls == response.tool_calls,
        logged.finish_reason == response.finish_reason,
        logged.structured_output == response.structured_output,
        logged.usage == response.usage,
        logged.provider_context@ == loggable_context(response.provider_context@),
{
    let ModelResponse {
        provider,
        model_id,
        catalog_model_id,
        thinking_level,
        assistant_message,
        tool_calls,
        finish_reason,
        structured_output,
        provider_context,
        usage,
    } = response;
    let kept = remove_private_replay_context(provider_context);
    ModelResponse {
        provider,
        model_id,
        catalog_model_id,
        thinking_level,
        assistant_message,
        tool_calls,
        finish_reason,
        structured_output,
        provider_context: kept,
        usage,
    }
}

/// No private replay context survives: every item of a loggable context is
/// loggable, and every loggable item of the context is kept.
pub proof fn lemma_loggable_context_has_no_private_items(context: Seq<ProviderConversationItem>)
    ensures
        forall|i: int|
            0 <= i < loggable_context(context).len() ==> !is_private_replay_context(
                #[trigger] loggable_context(context)[i],
            ),
        forall|i: int|
            0 <= i < context.len() && !is_private_replay_context(context[i])
                ==> #[trigger] loggable_context(context).contains(context[i]),
{
    broadcast use vstd::seq_lib::group_filter_ensures;

    assert forall|i: int| 0 <= i < loggable_context(context).len() implies !is_private_replay_context(
        #[trigger] loggable_context(context)[i],
    ) by {
        context.lemma_filter_pred(loggable(), i);
    }
    assert forall|i: int|
        0 <= i < context.len() && !is_private_replay_context(
            context[i],
        ) implies #[trigger] loggable_context(context).contains(context[i]) by {
        context.lemma_filter_contains(loggable(), i);
    }
}

} // verus!
