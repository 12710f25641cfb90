//! Runtime-owned intrinsic tool definitions.

use vstd::prelude::*;

use crate::interface::ToolDefinition;
use crate::json::{json_null, json_parse, parse_json_text};
use crate::tool_output::{tool_output_read_name, TOOL_OUTPUT_READ};

verus! {

/// Description of the reader tool shown to the model.
pub const TOOL_OUTPUT_READ_DESCRIPTION: &'static str = "Read a byte window from a previously returned large tool output. Read further windows only when the task requires more of that output. Prefer narrowing the original query at its source when a smaller tool result would answer the task. Offsets and lengths are UTF-8 bytes, not tokens.";

/// JSON schema of the reader tool's arguments.
pub const TOOL_OUTPUT_READ_SCHEMA: &'static str = "{\"type\":\"object\",\"required\":[\"output_id\"],\"additionalProperties\":false,\"properties\":{\"output_id\":{\"type\":\"string\",\"description\":\"Opaque output id from a prior tool_output_window.\"},\"offset\":{\"type\":\"integer\",\"minimum\":0,\"description\":\"UTF-8 byte offset to read from.\"},\"length\":{\"type\":\"integer\",\"minimum\":1,\"description\":\"Maximum UTF-8 bytes to return.\"}}}";

/// The verb shown while the reader runs.
pub open spec fn reader_activity_verb() -> Seq<char> {
    seq!['R', 'e', 'a', 'd', 'i', 'n', 'g']
}

/// Returns the verb shown while the reader runs.
pub fn reader_activity_verb_text() -> (verb: String)
    ensures
        verb@ == reader_activity_verb(),
{
    let verb = "Reading".to_owned();
    proof {
        reveal_strlit("Reading");
        assert(verb@ =~= reader_activity_verb());
    }
    verb
}

/// `definition` is the reader tool's definition: its reserved name, its
/// description, its verb, and the schema parsed from its schema text.
pub open spec fn is_reader_definition(definition: ToolDefinition) -> bool {
    &&& definition.name@ == tool_output_read_name()
    &&& definition.description@ == TOOL_OUTPUT_READ_DESCRIPTION@
    &&& definition.activity_verb matches Some(verb) && verb@ == reader_activity_verb()
    &&& (json_parse(TOOL_OUTPUT_READ_SCHEMA@) matches Some(schema) ==> definition.input_schema
        == schema)
}

/// Builds the definition of the runtime-owned reader tool.
pub fn tool_output_read_definition() -> (definition: ToolDefinition)
    ensures
        is_reader_definition(definition),
{
    let name = TOOL_OUTPUT_READ.to_owned();
    proof {
        reveal_strlit("tool_output_read");
        assert(name@ =~= tool_output_read_name());
    }
    ToolDefinition {
        name,
        description: TOOL_OUTPUT_READ_DESCRIPTION.to_owned(),
        input_schema: match parse_json_text(TOOL_OUTPUT_READ_SCHEMA) {
            Ok(schema) => schema,
            Err(_) => json_null(),
        },
        activity_verb: Some(reader_activity_verb_text()),
    }
}

} // verus!
