# ai_tool_calling

A tool-calling runtime for language models, with its logic proved in Verus.

`src/` is the verified library:

- `policy`: output-size limits and their validation.
- `windowing`, `memory_store`, `output_store`, `output_id`: UTF-8-safe byte
  windows over serialized tool outputs, and an in-memory store that retains
  large outputs under generated ids within per-output and aggregate budgets.
- `tool_output`, `envelope`, `failures`, `dispatch`, `intrinsic`, `catalog`:
  how a tool result reaches the model (inline, as a readable first window, or
  as a degraded window), the runtime-owned `tool_output_read` reader, and the
  routing of tool calls by name.
- `turn`, `runtime`, `redaction`: the turn state machine (step cap, terminal
  outcomes, response contract), the retained conversation and tools, and the
  copies of requests and responses that are fit for logs.
- `xai`: the xAI chat-completions adapter's request mapping, response
  normalization, deferred-completion decisions and model catalog.

`app/` holds what stays outside the proofs: the async ports for models,
tools, loggers and output stores, the turn loop that carries out the
library's decisions, serde forms of the library's values, and the xAI HTTP
transport.
