use ai_tool_calling::memory_store::InMemoryToolOutputStore;
use ai_tool_calling::output_id::{OutputIdGenerationError, ToolOutputId};
use ai_tool_calling::output_store::{
    ToolOutputStoreError, ToolOutputStoreReadRequest, ToolOutputWriteRequest, WriteFailureSource,
};
use ai_tool_calling::ToolOutputPolicy;


fn fresh_id() -> Result<ai_tool_calling::output_id::ToolOutputId, ai_tool_calling::output_id::OutputIdGenerationError> {
    let millis = std::time::SystemTime::now()
        .duration_since(std::time::UNIX_EPOCH)
        .map(|elapsed| elapsed.as_millis())
        .map_err(|error| error.to_string());
    ai_tool_calling::output_id::generate_output_id(millis)
}

fn write_request(tool_name: &str, content: &str, policy: ToolOutputPolicy) -> ToolOutputWriteRequest {
    ToolOutputWriteRequest {
        tool_name: tool_name.to_owned(),
        content: content.to_owned(),
        policy,
        first_window_length: policy.inline_limit_bytes(),
    }
}

fn read_request(
    output_id: ToolOutputId,
    offset: Option<usize>,
    length: Option<usize>,
    policy: ToolOutputPolicy,
) -> ToolOutputStoreReadRequest {
    ToolOutputStoreReadRequest { output_id, offset, length, policy }
}

#[test]
fn successful_write_generates_uuid_v7_id_and_reads_windows() {
    let mut store = InMemoryToolOutputStore::new();
    let policy = ToolOutputPolicy::new(4, 4, 20, 20).unwrap();

    let written = store.write(write_request("search", "abcdef", policy), fresh_id()).unwrap();
    let id = written.output_id.as_str();
    assert!(id.starts_with("toolout_"));
    assert_eq!(id.len(), "toolout_".len() + 36);
    assert_eq!(id.as_bytes()["toolout_".len() + 14], b'7');
    assert!(id
        .chars()
        .all(|c| c.is_ascii_lowercase() || c.is_ascii_digit() || c == '-' || c == '_'));
    assert_eq!(written.first_window.content, "abcd");
    assert_eq!(written.first_window.next_offset, Some(4));

    let read = store.read(read_request(written.output_id, Some(4), Some(4), policy)).unwrap();

    assert_eq!(read.tool_name, "search");
    assert_eq!(read.content, "ef");
    assert!(!read.truncated);
}

#[test]
fn unavailable_ids_and_scope_isolation_share_one_error() {
    let mut store = InMemoryToolOutputStore::new();
    let other_store = InMemoryToolOutputStore::new();
    let policy = ToolOutputPolicy::new(4, 4, 20, 20).unwrap();
    let written = store.write(write_request("search", "abcdef", policy), fresh_id()).unwrap();

    let missing = other_store
        .read(read_request(written.output_id, None, None, policy))
        .expect_err("other store must not resolve id");

    assert!(matches!(missing, ToolOutputStoreError::UnavailableOutput { .. }));
}

#[test]
fn reads_snap_end_backward_to_utf8_boundary() {
    let mut store = InMemoryToolOutputStore::new();
    let policy = ToolOutputPolicy::new(3, 4, 20, 20).unwrap();
    let written = store.write(write_request("search", "aé😀z", policy), fresh_id()).unwrap();

    let first = store
        .read(read_request(written.output_id.clone(), Some(0), Some(3), policy))
        .unwrap();
    let second = store
        .read(read_request(written.output_id, first.next_offset, Some(4), policy))
        .unwrap();

    assert_eq!(first.content, "aé");
    assert_eq!(first.returned_bytes, 3);
    assert_eq!(second.content, "😀");
    assert_eq!(second.next_offset, Some(7));
}

#[test]
fn end_of_output_read_returns_empty_complete_window() {
    let mut store = InMemoryToolOutputStore::new();
    let policy = ToolOutputPolicy::new(5, 5, 20, 20).unwrap();
    let written = store.write(write_request("search", "abc", policy), fresh_id()).unwrap();

    let read = store.read(read_request(written.output_id, Some(3), None, policy)).unwrap();

    assert_eq!(read.content, "");
    assert_eq!(read.returned_bytes, 0);
    assert!(!read.truncated);
}

#[test]
fn invalid_offsets_lengths_and_too_short_windows_are_typed() {
    let mut store = InMemoryToolOutputStore::new();
    let policy = ToolOutputPolicy::new(1, 1, 20, 20).unwrap();
    let written = store.write(write_request("search", "aé", policy), fresh_id()).unwrap();

    let bad_offset = store
        .read(read_request(written.output_id.clone(), Some(2), Some(1), policy))
        .expect_err("offset inside multibyte character should fail");
    let bad_length = store
        .read(read_request(written.output_id.clone(), Some(0), Some(0), policy))
        .expect_err("zero length should fail");
    let too_short = store
        .read(read_request(written.output_id, Some(1), Some(1), policy))
        .expect_err("one byte cannot fit e acute");

    assert!(matches!(bad_offset, ToolOutputStoreError::InvalidOffset { .. }));
    assert!(matches!(bad_length, ToolOutputStoreError::InvalidLength { .. }));
    assert!(matches!(
        too_short,
        ToolOutputStoreError::NoCompleteCharacterFits { minimum_usable_length: 2, .. }
    ));
}

#[test]
fn failed_write_rolls_back_aggregate_reservation() {
    let mut store = InMemoryToolOutputStore::new();
    let policy = ToolOutputPolicy::new(4, 4, 10, 10).unwrap();
    store.fail_next_write_for_test();

    let error = store
        .write(write_request("search", "abcdef", policy), fresh_id())
        .expect_err("injected write failure should fail");
    assert!(matches!(
        error,
        ToolOutputStoreError::WriteFailure { source: WriteFailureSource::InjectedWriteFailure, .. }
    ));
    assert_eq!(store.reserved_bytes(), 0);

    let written = store.write(write_request("search", "abcdefghij", policy), fresh_id()).unwrap();

    assert_eq!(store.reserved_bytes(), 10);
    assert_eq!(written.first_window.content, "abcd");
}

#[test]
fn aggregate_rejection_is_atomic() {
    let mut store = InMemoryToolOutputStore::new();
    let policy = ToolOutputPolicy::new(4, 4, 10, 12).unwrap();
    store.write(write_request("search", "abcdefgh", policy), fresh_id()).unwrap();

    let error = store
        .write(write_request("search", "abcdef", policy), fresh_id())
        .expect_err("second write should exceed remaining budget");

    assert!(matches!(
        error,
        ToolOutputStoreError::AggregateExhausted { requested_bytes: 6, available_bytes: 4, limit_bytes: 12, .. }
    ));
    assert_eq!(store.reserved_bytes(), 8);
}

#[test]
fn per_output_overflow_returns_degraded_preview_without_reserving() {
    let mut store = InMemoryToolOutputStore::new();
    let policy = ToolOutputPolicy::new(4, 4, 5, 10).unwrap();

    let error = store
        .write(write_request("search", "abcdef", policy), fresh_id())
        .expect_err("write should exceed per-output limit");

    match error {
        ToolOutputStoreError::PerOutputOverflow { requested_bytes, limit_bytes, window } => {
            assert_eq!(requested_bytes, 6);
            assert_eq!(limit_bytes, 5);
            assert_eq!(window.content, "abcd");
            assert_eq!(window.next_offset, Some(4));
        }
        other => panic!("unexpected error: {other:?}"),
    }
    assert_eq!(store.reserved_bytes(), 0);
}

#[test]
fn explicit_length_is_capped_by_policy_read_limit() {
    let mut store = InMemoryToolOutputStore::new();
    let policy = ToolOutputPolicy::new(4, 4, 20, 20).unwrap();
    let written = store.write(write_request("search", "abcdefghij", policy), fresh_id()).unwrap();

    let read = store.read(read_request(written.output_id, Some(0), Some(9), policy)).unwrap();

    assert_eq!(read.content, "abcd");
    assert_eq!(read.returned_bytes, 4);
    assert_eq!(read.next_offset, Some(4));
}

#[test]
fn omitted_read_arguments_default_to_zero_and_policy_read_limit() {
    let mut store = InMemoryToolOutputStore::new();
    let policy = ToolOutputPolicy::new(3, 5, 20, 20).unwrap();
    let written = store.write(write_request("search", "abcdefghij", policy), fresh_id()).unwrap();

    let read = store.read(read_request(written.output_id, None, None, policy)).unwrap();

    assert_eq!(read.offset, 0);
    assert_eq!(read.content, "abcde");
    assert_eq!(read.returned_bytes, 5);
}

#[test]
fn read_gives_back_exactly_what_a_write_stored() {
    let mut store = InMemoryToolOutputStore::new();
    let policy = ToolOutputPolicy::new(4, 20, 20, 40).unwrap();
    let first = store.write(write_request("search", "first output", policy), fresh_id()).unwrap();
    let second = store.write(write_request("lookup", "second", policy), fresh_id()).unwrap();
    assert_ne!(first.output_id, second.output_id);
    assert_eq!(store.reserved_bytes(), 18);

    let read_first = store.read(read_request(first.output_id, None, None, policy)).unwrap();
    let read_second = store.read(read_request(second.output_id, None, None, policy)).unwrap();

    assert_eq!(read_first.tool_name, "search");
    assert_eq!(read_first.content, "first output");
    assert_eq!(read_first.total_bytes, 12);
    assert_eq!(read_second.tool_name, "lookup");
    assert_eq!(read_second.content, "second");
}

#[test]
fn offset_past_the_end_is_an_invalid_offset() {
    let mut store = InMemoryToolOutputStore::new();
    let policy = ToolOutputPolicy::new(4, 4, 20, 20).unwrap();
    let written = store.write(write_request("search", "abc", policy), fresh_id()).unwrap();

    let error = store
        .read(read_request(written.output_id, Some(4), None, policy))
        .expect_err("offset past the end");

    assert!(matches!(error, ToolOutputStoreError::InvalidOffset { offset: 4, total_bytes: 3, .. }));
}

#[test]
fn multi_window_output_can_be_followed_to_completion() {
    let mut store = InMemoryToolOutputStore::new();
    let policy = ToolOutputPolicy::new(3, 4, 64, 64).unwrap();
    let content = "aé😀zq€rest";
    let written = store.write(write_request("search", content, policy), fresh_id()).unwrap();

    let mut rebuilt = written.first_window.content.clone();
    let mut next = written.first_window.next_offset;
    let mut reads = 0;
    while let Some(offset) = next {
        let window = store
            .read(read_request(written.output_id.clone(), Some(offset), None, policy))
            .unwrap();
        assert_eq!(window.offset, offset);
        assert!(window.returned_bytes > 0 && window.returned_bytes <= 4);
        rebuilt.push_str(&window.content);
        next = window.next_offset;
        reads += 1;
        assert!(reads < 20);
    }

    assert_eq!(rebuilt, content);
}

#[test]
fn aggregate_overflow_degrades_one_sibling_without_pinning_order() {
    let mut store = InMemoryToolOutputStore::new();
    let policy = ToolOutputPolicy::new(2, 2, 6, 10).unwrap();
    let first = store.write(write_request("a", "abcdef", policy), fresh_id());
    let second = store.write(write_request("b", "ghijkl", policy), fresh_id());

    assert!(first.is_ok());
    match second {
        Err(ToolOutputStoreError::AggregateExhausted { requested_bytes, available_bytes, limit_bytes, window }) => {
            assert_eq!((requested_bytes, available_bytes, limit_bytes), (6, 4, 10));
            assert_eq!(window.content, "gh");
        }
        other => panic!("unexpected write result: {other:?}"),
    }
    assert_eq!(store.reserved_bytes(), 6);
}

#[test]
fn id_generation_failure_rolls_back_reservation_as_write_failure() {
    let mut store = InMemoryToolOutputStore::new();
    let policy = ToolOutputPolicy::new(4, 4, 20, 20).unwrap();

    let error = store
        .write(
            write_request("search", "abcdef", policy),
            Err(OutputIdGenerationError::Entropy { message: "unsupported".to_owned() }),
        )
        .expect_err("id generation failure should fail the store write");

    assert_eq!(store.reserved_bytes(), 0);
    match error {
        ToolOutputStoreError::WriteFailure { source, window } => {
            assert!(matches!(source, WriteFailureSource::IdGeneration(OutputIdGenerationError::Entropy { .. })));
            assert_eq!(window.content, "abcd");
        }
        other => panic!("id generation should surface as a write failure: {other:?}"),
    }
}

#[test]
fn an_id_the_store_already_holds_is_a_collision_and_rolls_back() {
    let mut store = InMemoryToolOutputStore::new();
    let policy = ToolOutputPolicy::new(4, 4, 20, 40).unwrap();
    let id = ToolOutputId::from_opaque("toolout_fixed".to_owned());
    let written = store.write(write_request("search", "abcdef", policy), Ok(id.clone())).unwrap();
    assert_eq!(written.output_id, id);

    let error = store
        .write(write_request("search", "ghijkl", policy), Ok(id))
        .expect_err("a held id collides");

    assert!(matches!(
        error,
        ToolOutputStoreError::WriteFailure { source: WriteFailureSource::OutputIdCollision, .. }
    ));
    assert_eq!(store.reserved_bytes(), 6);
}
