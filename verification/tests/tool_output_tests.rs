use ai_tool_calling::dispatch::{
    execution_record, intrinsic_read_envelope, intrinsic_read_request, operation_id_for,
    tool_error_description, tool_error_message, unknown_tool_error, ToolOutputReadRequest,
};
use ai_tool_calling::envelope::{ToolOutputEnvelope, ToolOutputEnvelopeError, ToolOutputRemainderUnavailableReason};
use ai_tool_calling::error::{Error, ToolError, ToolExecutionSource};
use ai_tool_calling::failures::{
    output_store_read_error_message, tool_output_read_error_message, INVALID_OUTPUT_READ_ARGUMENTS,
    UNAVAILABLE_OUTPUT, UNREADABLE_OUTPUT,
};
use ai_tool_calling::interface::ToolCall;
use ai_tool_calling::memory_store::InMemoryToolOutputStore;
use ai_tool_calling::output_id::ToolOutputId;
use ai_tool_calling::output_store::{ToolOutputStoreError, ToolOutputWriteRequest};
use ai_tool_calling::tool_output::{
    degraded_envelope, finish_stored_output, prepare_tool_output, OutputHandling,
};
use ai_tool_calling::windowing::prefix_window;
use ai_tool_calling::ToolOutputPolicy;


fn fresh_id() -> Result<ai_tool_calling::output_id::ToolOutputId, ai_tool_calling::output_id::OutputIdGenerationError> {
    let millis = std::time::SystemTime::now()
        .duration_since(std::time::UNIX_EPOCH)
        .map(|elapsed| elapsed.as_millis())
        .map_err(|error| error.to_string());
    ai_tool_calling::output_id::generate_output_id(millis)
}

fn json(text: &str) -> serde_json::Value {
    serde_json::from_str(text).unwrap()
}

fn call(name: &str, id: &str, operation_id: Option<&str>) -> ToolCall {
    ToolCall { id: id.to_owned(), name: name.to_owned(), input: json("{}"), operation_id: operation_id.map(str::to_owned) }
}

fn payload_message(content: &str) -> String {
    let payload: serde_json::Value = serde_json::from_str(content).unwrap();
    assert_eq!(payload["ok"], false);
    payload["error"]["message"].as_str().unwrap().to_owned()
}

#[test]
fn small_success_is_inline_and_keeps_raw_output() {
    let policy = ToolOutputPolicy::new(32, 32, 64, 64).unwrap();
    let raw = json("{\"handled\":false}");
    match prepare_tool_output("search", raw.clone(), policy).unwrap() {
        OutputHandling::Inline(managed) => {
            assert!(managed.output_id.is_none());
            assert_eq!(managed.raw_output, raw);
            match managed.model_visible_output {
                ToolOutputEnvelope::Inline(inline) => {
                    assert_eq!(inline.tool_name, "search");
                    assert_eq!(inline.total_bytes, 17);
                    assert_eq!(inline.output, raw);
                }
                other => panic!("unexpected envelope: {other:?}"),
            }
        }
        _ => panic!("expected inline handling"),
    }
}

#[test]
fn exactly_inline_limit_serialized_bytes_stays_inline() {
    let raw = json("{\"handled\":false}");
    let exact = ToolOutputPolicy::new(17, 17, 64, 64).unwrap();
    let one_less = ToolOutputPolicy::new(16, 16, 64, 64).unwrap();
    assert!(matches!(prepare_tool_output("search", raw.clone(), exact), Ok(OutputHandling::Inline(_))));
    assert!(matches!(prepare_tool_output("search", raw, ToolOutputPolicy::new(15, 15, 64, 64).unwrap()), Ok(OutputHandling::Store { .. })));
    assert_eq!(one_less.inline_limit_bytes(), 16);
}

#[test]
fn large_success_is_stored_and_gets_a_readable_first_window() {
    let policy = ToolOutputPolicy::new(8, 8, 64, 64).unwrap();
    let raw = json("{\"items\":[1,2,3,4,5,6,7,8]}");
    let (raw_output, request) = match prepare_tool_output("search", raw.clone(), policy).unwrap() {
        OutputHandling::Store { raw_output, request } => (raw_output, request),
        _ => panic!("expected store handling"),
    };
    assert_eq!(request.content, "{\"items\":[1,2,3,4,5,6,7,8]}");
    assert_eq!(request.first_window_length, 8);
    let mut store = InMemoryToolOutputStore::new();
    let write = store.write(request, fresh_id());
    let managed = finish_stored_output(raw_output, write).unwrap();

    assert!(managed.output_id.is_some());
    assert_eq!(managed.raw_output, raw);
    match managed.model_visible_output {
        ToolOutputEnvelope::Window(window) => {
            assert_eq!(window.tool_name, "search");
            assert_eq!(window.offset, 0);
            assert_eq!(window.content, "{\"items\"");
            assert_eq!(window.returned_bytes, 8);
            assert_eq!(window.total_bytes, 27);
            assert_eq!(window.next_offset, Some(8));
            assert_eq!(window.output_id, managed.output_id);
            assert!(window.remainder_unavailable.is_none());
        }
        other => panic!("unexpected envelope: {other:?}"),
    }
}

#[test]
fn per_output_overflow_degrades_as_success() {
    let policy = ToolOutputPolicy::new(4, 4, 8, 8).unwrap();
    let mut store = InMemoryToolOutputStore::new();
    let write = store.write(ToolOutputWriteRequest {
        tool_name: "search".to_owned(),
        content: "abcdefghij".to_owned(),
        policy,
        first_window_length: 4,
    }, fresh_id());
    let managed = finish_stored_output(json("\"abcdefghij\""), write).unwrap();

    assert!(managed.output_id.is_none());
    match managed.model_visible_output {
        ToolOutputEnvelope::Window(window) => {
            assert_eq!(window.tool_name, "search");
            assert_eq!(window.offset, 0);
            assert_eq!(window.content, "abcd");
            assert_eq!(window.total_bytes, 10);
            assert_eq!(window.next_offset, None);
            assert_eq!(window.remainder_unavailable, Some(ToolOutputRemainderUnavailableReason::OutputTooLarge));
        }
        other => panic!("unexpected envelope: {other:?}"),
    }
}

#[test]
fn store_write_failure_degrades_as_success() {
    let policy = ToolOutputPolicy::new(4, 4, 20, 20).unwrap();
    let mut store = InMemoryToolOutputStore::new();
    store.fail_next_write_for_test();
    let write = store.write(ToolOutputWriteRequest {
        tool_name: "search".to_owned(),
        content: "abcdefghij".to_owned(),
        policy,
        first_window_length: 4,
    }, fresh_id());
    let managed = finish_stored_output(json("1"), write).unwrap();

    assert!(matches!(
        managed.model_visible_output,
        ToolOutputEnvelope::Window(window)
            if window.remainder_unavailable == Some(ToolOutputRemainderUnavailableReason::StoreUnavailable)
    ));
    assert_eq!(store.reserved_bytes(), 0);
}

#[test]
fn multibyte_first_window_snaps_to_utf8_boundary() {
    let window = prefix_window("search".to_owned(), "ab😀cd", 4);
    assert_eq!(window.content, "ab");
    assert_eq!(window.returned_bytes, 2);
    assert_eq!(window.next_offset, Some(2));
    assert!(window.truncated);
}

#[test]
fn read_errors_are_unexpected_for_a_write() {
    let error = ToolOutputStoreError::InvalidLength { length: 0 };
    assert!(matches!(
        degraded_envelope(error.clone()),
        Err(Error::UnexpectedOutputStoreWrite { source }) if source == error
    ));
}

#[test]
fn intrinsic_reader_reads_requested_id_without_recursive_wrapping() {
    let policy = ToolOutputPolicy::new(4, 4, 40, 40).unwrap();
    let mut store = InMemoryToolOutputStore::new();
    let written = store
        .write(
            ToolOutputWriteRequest {
                tool_name: "search".to_owned(),
                content: "abcdefghij".to_owned(),
                policy,
                first_window_length: 4,
            },
            fresh_id(),
        )
        .unwrap();
    let request = intrinsic_read_request(
        Ok(ToolOutputReadRequest { output_id: written.output_id.clone(), offset: Some(4), length: None }),
        policy,
    )
    .unwrap();
    let envelope = intrinsic_read_envelope(written.output_id.clone(), store.read(request)).unwrap();

    match envelope {
        ToolOutputEnvelope::Window(window) => {
            assert_eq!(window.tool_name, "search");
            assert_eq!(window.output_id, Some(written.output_id));
            assert_eq!(window.offset, 4);
            assert_eq!(window.content, "efgh");
            assert_eq!(window.next_offset, Some(8));
        }
        other => panic!("unexpected envelope: {other:?}"),
    }
}

#[test]
fn reader_failures_are_typed_and_explained() {
    let policy = ToolOutputPolicy::default();
    let invalid = intrinsic_read_request(Err("missing field `output_id`".to_owned()), policy).unwrap_err();
    let unavailable = intrinsic_read_envelope(
        ToolOutputId::from_opaque("toolout_missing".to_owned()),
        Err(ToolOutputStoreError::UnavailableOutput { output_id: ToolOutputId::from_opaque("toolout_missing".to_owned()) }),
    )
    .unwrap_err();
    let reader = call("tool_output_read", "call_r", None);

    let (invalid_error, unavailable_error) = match (invalid, unavailable) {
        (Error::Tool(a), Error::Tool(b)) => (a, b),
        other => panic!("unexpected errors: {other:?}"),
    };
    assert!(matches!(&invalid_error, ToolError::InvalidArguments { tool_name, .. } if tool_name == "tool_output_read"));
    assert!(matches!(
        &unavailable_error,
        ToolError::Execution { tool_name, source: ToolExecutionSource::OutputStore(ToolOutputStoreError::UnavailableOutput { .. }) }
            if tool_name == "tool_output_read"
    ));

    let invalid_reply = tool_output_read_error_message(&reader, &invalid_error);
    let unavailable_reply = tool_output_read_error_message(&reader, &unavailable_error);
    assert_eq!(payload_message(&invalid_reply.content), INVALID_OUTPUT_READ_ARGUMENTS);
    assert_eq!(payload_message(&unavailable_reply.content), UNAVAILABLE_OUTPUT);
    assert_eq!(unavailable_reply.tool_call_id.as_deref(), Some("call_r"));
    assert_eq!(unavailable_reply.name.as_deref(), Some("tool_output_read"));
}

#[test]
fn store_read_errors_render_actionable_messages() {
    let id = ToolOutputId::from_opaque("toolout_x".to_owned());
    assert_eq!(
        output_store_read_error_message(&ToolOutputStoreError::InvalidOffset { output_id: id, offset: 2, total_bytes: 3 }),
        "Invalid offset 2 for an output of 3 bytes. Use a UTF-8 byte boundary from 0 through 3."
    );
    assert_eq!(
        output_store_read_error_message(&ToolOutputStoreError::InvalidLength { length: 0 }),
        "Invalid read length 0; use at least 1 byte."
    );
    assert_eq!(
        output_store_read_error_message(&ToolOutputStoreError::NoCompleteCharacterFits { offset: 1, length: 1, minimum_usable_length: 2 }),
        "No complete UTF-8 character fits in length 1 at offset 1; use at least 2 bytes."
    );
    let window = prefix_window("search".to_owned(), "abc", 2);
    assert_eq!(
        output_store_read_error_message(&ToolOutputStoreError::PerOutputOverflow { requested_bytes: 3, limit_bytes: 2, window }),
        UNREADABLE_OUTPUT
    );
}

#[test]
fn tool_errors_answer_the_call_with_a_failure_payload() {
    let failed = call("echo", "call_1", Some("op_1"));
    let error = unknown_tool_error(&failed);
    assert!(matches!(&error, ToolError::UnknownTool { name } if name == "echo"));
    let reply = tool_error_message(&failed, &error);
    assert_eq!(reply.content, "{\"error\":{\"message\":\"unknown tool `echo`\"},\"ok\":false}");
    assert_eq!(
        tool_error_description(&ToolError::InvalidArguments { tool_name: "echo".to_owned(), message: "bad \"count\"".to_owned() }),
        "invalid arguments for tool `echo`: bad \"count\""
    );
    assert_eq!(
        payload_message(&tool_error_message(&failed, &ToolError::InvalidArguments { tool_name: "echo".to_owned(), message: "bad \"count\"".to_owned() }).content),
        "invalid arguments for tool `echo`: bad \"count\""
    );
}

#[test]
fn tool_dispatch_passes_operation_id_to_tool_boundary() {
    assert_eq!(operation_id_for(&call("echo", "call_1", Some("op_1"))), "op_1");
    assert_eq!(operation_id_for(&call("echo", "call_1", None)), "call_1");
    let envelope = ToolOutputEnvelope::inline("echo".to_owned(), json("1"), 1);
    let record = execution_record(&call("echo", "call_1", None), None, json("1"), envelope);
    assert_eq!(record.operation_id, "call_1");
    assert_eq!(record.call_id, "call_1");
    assert_eq!(record.name, "echo");
}

#[test]
fn readable_windows_reject_inconsistent_fields() {
    let id = ToolOutputId::from_opaque("toolout_x".to_owned());
    assert!(matches!(
        ToolOutputEnvelope::readable_window("t".to_owned(), id.clone(), 0, "ab".to_owned(), 3, 5, Some(3)),
        Err(ToolOutputEnvelopeError::ReturnedBytesMismatch { returned_bytes: 3, content_bytes: 2 })
    ));
    assert!(matches!(
        ToolOutputEnvelope::readable_window("t".to_owned(), id.clone(), 4, "ab".to_owned(), 2, 5, None),
        Err(ToolOutputEnvelopeError::WindowBeyondTotal { .. })
    ));
    assert!(matches!(
        ToolOutputEnvelope::readable_window("t".to_owned(), id.clone(), 0, "ab".to_owned(), 2, 5, None),
        Err(ToolOutputEnvelopeError::NextOffsetMismatch { next_offset: None })
    ));
    assert!(ToolOutputEnvelope::readable_window("t".to_owned(), id, 0, "ab".to_owned(), 2, 5, Some(2)).is_ok());
}
