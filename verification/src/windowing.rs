//! UTF-8 byte window calculations for tool output stores.
//!
//! Offsets and lengths are counted in UTF-8 bytes of the serialized output.
//! A window never splits a character: its end snaps backward to the nearest
//! character boundary.

use vstd::prelude::*;
use vstd::string::*;
use vstd::utf8::*;

use crate::output_store::{ToolOutputStoreError, ToolOutputStoreReadRequest, ToolOutputStoreWindow};

verus! {

broadcast use vstd::utf8::group_utf8_lib;

/// The UTF-8 bytes of a text.
pub open spec fn utf8_bytes(text: Seq<char>) -> Seq<u8> {
    encode_utf8(text)
}

/// The furthest byte a window starting at `offset` with `length` bytes may
/// reach: `offset + length`, capped at the end of the output.
pub open spec fn window_limit(total: int, offset: int, length: int) -> int {
    if offset + length < total {
        offset + length
    } else {
        total
    }
}

/// `end` is the last character boundary in `offset..=limit`, or `offset`
/// itself when no boundary lies after `offset` within the limit.
pub open spec fn is_window_end(bytes: Seq<u8>, offset: int, limit: int, end: int) -> bool {
    &&& offset <= end <= limit
    &&& (end == offset || is_char_boundary(bytes, end))
    &&& forall|k: int| end < k <= limit ==> !is_char_boundary(bytes, k)
}

/// No character boundary lies in `offset + 1 ..= limit`.
pub open spec fn no_boundary_after(bytes: Seq<u8>, offset: int, limit: int) -> bool {
    forall|k: int| offset < k <= limit ==> !is_char_boundary(bytes, k)
}

/// `window` is the window of `content` (produced by `tool_name`) that starts
/// at `offset` and may span at most `length` bytes: it holds exactly the
/// bytes from `offset` to the window end, and points at the end when bytes
/// remain after it.
pub open spec fn is_window_of(
    window: ToolOutputStoreWindow,
    tool_name: Seq<char>,
    content: Seq<char>,
    offset: int,
    length: int,
) -> bool {
    let bytes = utf8_bytes(content);
    let end = offset + window.returned_bytes;
    &&& window.tool_name@ == tool_name
    &&& window.offset == offset
    &&& window.total_bytes == bytes.len()
    &&& is_window_end(bytes, offset, window_limit(bytes.len() as int, offset, length), end)
    &&& utf8_bytes(window.content@) == bytes.subrange(offset, end)
    &&& window.truncated == (end < bytes.len())
    &&& window.next_offset == if end < bytes.len() {
        Some(end as usize)
    } else {
        None::<usize>
    }
}

/// The byte width of the character that starts at `offset`, or 1 when the
/// offset is the end of the bytes.
pub open spec fn next_character_width(bytes: Seq<u8>, offset: int) -> int {
    if offset >= bytes.len() {
        1
    } else {
        length_of_first_scalar(bytes.subrange(offset, bytes.len() as int))
    }
}

/// `result` is what reading `request` from the output `content` of
/// `tool_name` gives. An omitted offset means zero and an omitted length the
/// policy read limit; an explicit length is capped by the read limit. The
/// offset must be a character boundary no further than the end, the length
/// must be positive, and at least one whole character must fit unless the
/// offset is the end, where the window is empty and complete.
pub open spec fn is_read_outcome(
    tool_name: Seq<char>,
    content: Seq<char>,
    request: ToolOutputStoreReadRequest,
    result: Result<ToolOutputStoreWindow, ToolOutputStoreError>,
) -> bool {
    let bytes = utf8_bytes(content);
    let read_limit = request.policy@.read_limit_bytes;
    let offset: usize = match request.offset {
        Some(o) => o,
        None => 0,
    };
    let requested: usize = match request.length {
        Some(l) => l,
        None => read_limit,
    };
    let length: usize = if requested < read_limit {
        requested
    } else {
        read_limit
    };
    let limit = window_limit(bytes.len() as int, offset as int, length as int);
    if offset > bytes.len() || !is_char_boundary(bytes, offset as int) {
        result == Err::<ToolOutputStoreWindow, ToolOutputStoreError>(
            ToolOutputStoreError::InvalidOffset {
                output_id: request.output_id,
                offset,
                total_bytes: bytes.len() as usize,
            },
        )
    } else if requested == 0 {
        result == Err::<ToolOutputStoreWindow, ToolOutputStoreError>(
            ToolOutputStoreError::InvalidLength { length: 0 },
        )
    } else if offset == bytes.len() {
        &&& result matches Ok(window)
        &&& is_window_of(window, tool_name, content, offset as int, length as int)
        &&& window.returned_bytes == 0
    } else if no_boundary_after(bytes, offset as int, limit) {
        result == Err::<ToolOutputStoreWindow, ToolOutputStoreError>(
            ToolOutputStoreError::NoCompleteCharacterFits {
                offset,
                length,
                minimum_usable_length: next_character_width(
                    bytes,
                    offset as int,
                ) as usize,
            },
        )
    } else {
        &&& result matches Ok(window)
        &&& is_window_of(window, tool_name, content, offset as int, length as int)
        &&& window.returned_bytes > 0
    }

}

/// Character boundaries after a boundary `offset` are the boundaries of the
/// bytes that follow `offset`, shifted by `offset`.
proof fn lemma_boundary_shift(bytes: Seq<u8>, offset: int, index: int)
    requires
        valid_utf8(bytes),
        is_char_boundary(bytes, offset),
        0 <= offset <= index <= bytes.len(),
    ensures
        valid_utf8(bytes.subrange(offset, bytes.len() as int)),
        is_char_boundary(bytes.subrange(offset, bytes.len() as int), index - offset)
            == is_char_boundary(bytes, index),
{
    let tail = bytes.subrange(offset, bytes.len() as int);
    valid_utf8_split(bytes, offset);
    is_char_boundary_start_end_of_seq(tail);
    is_char_boundary_start_end_of_seq(bytes);
    if offset < index && index < bytes.len() {
        is_char_boundary_iff_not_is_continuation_byte(bytes, index);
        is_char_boundary_iff_not_is_continuation_byte(tail, index - offset);
        assert(tail[index - offset] == bytes[index]);
    }
}

/// Builds the window of `content` that starts at the character boundary
/// `offset` and spans at most `length` bytes, snapping its end backward to a
/// character boundary.
pub fn prefix_window_at(tool_name: String, content: &str, offset: usize, length: usize) -> (window:
    ToolOutputStoreWindow)
    requires
        content.spec_bytes().len() <= usize::MAX,
        offset <= content.spec_bytes().len(),
        is_char_boundary(content.spec_bytes(), offset as int),
    ensures
        is_window_of(window, tool_name@, content@, offset as int, length as int),
{
    let ghost bytes = content.spec_bytes();
    proof {
        encode_utf8_valid_utf8(content@);
    }
    let total_bytes = content.len();
    let reach = offset.saturating_add(length);
    let limit = if reach < total_bytes {
        reach
    } else {
        total_bytes
    };
    assert(limit == window_limit(bytes.len() as int, offset as int, length as int));
    let mut end = limit;
    while end > offset && !content.is_char_boundary(end)
        invariant
            bytes == content.spec_bytes(),
            offset <= end <= limit,
            limit <= bytes.len(),
            forall|k: int| end < k <= limit ==> !is_char_boundary(bytes, k),
        decreases end,
    {
        end = end - 1;
    }
    proof {
        lemma_boundary_shift(bytes, offset as int, end as int);
    }
    let (_, tail) = content.split_at(offset);
    assert(tail.spec_bytes() =~= bytes.subrange(offset as int, bytes.len() as int));
    let (piece, _) = tail.split_at(end - offset);
    assert(piece.spec_bytes() =~= bytes.subrange(offset as int, end as int));
    let returned_bytes = piece.len();
    let returned = piece.to_owned();
    let truncated = end < total_bytes;
    let next_offset = if truncated {
        Some(end)
    } else {
        None
    };
    ToolOutputStoreWindow {
        tool_name,
        offset,
        content: returned,
        returned_bytes,
        total_bytes,
        truncated,
        next_offset,
    }
}

/// Builds the first window of `content`, spanning at most `length` bytes.
pub fn prefix_window(tool_name: String, content: &str, length: usize) -> (window:
    ToolOutputStoreWindow)
    requires
        content.spec_bytes().len() <= usize::MAX,
    ensures
        is_window_of(window, tool_name@, content@, 0, length as int),
{
    proof {
        encode_utf8_valid_utf8(content@);
        is_char_boundary_start_end_of_seq(content.spec_bytes());
    }
    prefix_window_at(tool_name, content, 0, length)
}

/// Returns the byte width of the character that starts at the character
/// boundary `offset`, or 1 when `offset` is the end of `content`.
pub fn next_character_len(content: &str, offset: usize) -> (width: usize)
    requires
        content.spec_bytes().len() <= usize::MAX,
        offset <= content.spec_bytes().len(),
        is_char_boundary(content.spec_bytes(), offset as int),
    ensures
        width == next_character_width(content.spec_bytes(), offset as int),
        1 <= width <= 4,
{
    let ghost bytes = content.spec_bytes();
    proof {
        encode_utf8_valid_utf8(content@);
    }
    let raw = content.as_bytes();
    if offset >= raw.len() {
        return 1;
    }
    let lead = raw[offset];
    proof {
        is_char_boundary_iff_not_is_continuation_byte(bytes, offset as int);
        assert(bytes.subrange(offset as int, bytes.len() as int)[0] == lead);
    }
    if lead <= 0x7f {
        1
    } else if lead <= 0xdf {
        2
    } else if lead <= 0xef {
        3
    } else {
        4
    }
}

/// Reads the window of `content` that `request` asks for.
///
/// An omitted offset means zero and an omitted length means the policy read
/// limit; an explicit length is capped by the read limit. The offset must be
/// a character boundary no further than the end, the length must be
/// positive, and at least one whole character must fit unless the offset is
/// the end, where the window is empty and complete.
pub fn read_window(tool_name: String, content: &str, request: ToolOutputStoreReadRequest) -> (result:
    Result<ToolOutputStoreWindow, ToolOutputStoreError>)
    requires
        content.spec_bytes().len() <= usize::MAX,
    ensures
        is_read_outcome(tool_name@, content@, request, result),
{
    let ghost bytes = content.spec_bytes();
    let offset = match request.offset {
        Some(o) => o,
        None => 0,
    };
    let total_bytes = content.len();
    if offset > total_bytes || !content.is_char_boundary(offset) {
        return Err(
            ToolOutputStoreError::InvalidOffset { output_id: request.output_id, offset, total_bytes },
        );
    }
    let read_limit = request.policy.read_limit_bytes();
    let requested_length = match request.length {
        Some(l) => l,
        None => read_limit,
    };
    if requested_length == 0 {
        return Err(ToolOutputStoreError::InvalidLength { length: requested_length });
    }
    let length = if requested_length < read_limit {
        requested_length
    } else {
        read_limit
    };
    if offset == total_bytes {
        let empty = String::new();
        assert(utf8_bytes(empty@) =~= bytes.subrange(offset as int, offset as int));
        return Ok(
            ToolOutputStoreWindow {
                tool_name,
                offset,
                content: empty,
                returned_bytes: 0,
                total_bytes,
                truncated: false,
                next_offset: None,
            },
        );
    }
    let window = prefix_window_at(tool_name, content, offset, length);
    if window.returned_bytes == 0 {
        return Err(
            ToolOutputStoreError::NoCompleteCharacterFits {
                offset,
                length,
                minimum_usable_length: next_character_len(content, offset),
            },
        );
    }
    Ok(window)
}

/// The texts of a run of windows, joined in order.
pub open spec fn joined_contents(windows: Seq<ToolOutputStoreWindow>) -> Seq<char>
    decreases windows.len(),
{
    if windows.len() == 0 {
        Seq::empty()
    } else {
        windows[0].content@ + joined_contents(windows.drop_first())
    }
}

/// A run of windows over `content` in which each window starts where the
/// previous one said to continue, and the last window reports nothing left.
pub open spec fn is_followed_run(
    windows: Seq<ToolOutputStoreWindow>,
    lengths: Seq<usize>,
    tool_name: Seq<char>,
    content: Seq<char>,
) -> bool {
    &&& windows.len() > 0
    &&& lengths.len() == windows.len()
    &&& forall|i: int|
        0 <= i < windows.len() ==> is_window_of(
            #[trigger] windows[i],
            tool_name,
            content,
            windows[i].offset as int,
            lengths[i] as int,
        )
    &&& forall|i: int|
        0 <= i < windows.len() - 1 ==> #[trigger] windows[i].next_offset == Some(
            windows[i + 1].offset,
        )
    &&& windows.last().next_offset is None
}

/// UTF-8 encoding distributes over concatenation.
pub proof fn lemma_utf8_bytes_concat(a: Seq<char>, b: Seq<char>)
    ensures
        utf8_bytes(a + b) == utf8_bytes(a) + utf8_bytes(b),
    decreases a.len(),
{
    if a.len() == 0 {
        assert(a + b =~= b);
        assert(utf8_bytes(a) + utf8_bytes(b) =~= utf8_bytes(b));
    } else {
        lemma_utf8_bytes_concat(a.drop_first(), b);
        assert((a + b).drop_first() =~= a.drop_first() + b);
        assert(utf8_bytes(a + b) =~= utf8_bytes(a) + utf8_bytes(b));
    }
}

proof fn lemma_followed_run_bytes(
    windows: Seq<ToolOutputStoreWindow>,
    lengths: Seq<usize>,
    tool_name: Seq<char>,
    content: Seq<char>,
)
    requires
        is_followed_run(windows, lengths, tool_name, content),
    ensures
        utf8_bytes(joined_contents(windows)) == utf8_bytes(content).subrange(
            windows[0].offset as int,
            utf8_bytes(content).len() as int,
        ),
    decreases windows.len(),
{
    let bytes = utf8_bytes(content);
    let w = windows[0];
    assert(is_window_of(w, tool_name, content, w.offset as int, lengths[0] as int));
    let end = w.offset + w.returned_bytes;
    if windows.len() == 1 {
        assert(joined_contents(windows.drop_first()) =~= Seq::<char>::empty());
        assert(joined_contents(windows) =~= w.content@);
    } else {
        let rest = windows.drop_first();
        let rest_lengths = lengths.drop_first();
        assert(windows[0].next_offset == Some(windows[1].offset));
        assert forall|i: int| 0 <= i < rest.len() implies is_window_of(
            #[trigger] rest[i],
            tool_name,
            content,
            rest[i].offset as int,
            rest_lengths[i] as int,
        ) by {
            assert(rest[i] == windows[i + 1]);
        }
        assert forall|i: int| 0 <= i < rest.len() - 1 implies #[trigger] rest[i].next_offset
            == Some(rest[i + 1].offset) by {
            assert(rest[i] == windows[i + 1]);
            assert(windows[i + 1].next_offset == Some(windows[i + 2].offset));
        }
        lemma_followed_run_bytes(rest, rest_lengths, tool_name, content);
        lemma_utf8_bytes_concat(w.content@, joined_contents(rest));
        assert(bytes.subrange(w.offset as int, end) + bytes.subrange(end, bytes.len() as int)
            =~= bytes.subrange(w.offset as int, bytes.len() as int));
    }
}

/// Following a stored output window by window, from offset zero until a
/// window reports nothing left, yields the whole output, whatever lengths
/// each read asked for.
pub proof fn lemma_followed_windows_rebuild_output(
    windows: Seq<ToolOutputStoreWindow>,
    lengths: Seq<usize>,
    tool_name: Seq<char>,
    content: Seq<char>,
)
    requires
        is_followed_run(windows, lengths, tool_name, content),
        windows[0].offset == 0,
    ensures
        joined_contents(windows) == content,
{
    lemma_followed_run_bytes(windows, lengths, tool_name, content);
    let bytes = utf8_bytes(content);
    assert(bytes.subrange(0, bytes.len() as int) =~= bytes);
    encode_utf8_decode_utf8(joined_contents(windows));
    encode_utf8_decode_utf8(content);
}

/// A window ends at a place where the next read may start: its next offset,
/// when present, is a character boundary inside the output.
pub proof fn lemma_next_offset_is_readable(
    window: ToolOutputStoreWindow,
    tool_name: Seq<char>,
    content: Seq<char>,
    offset: int,
    length: int,
)
    requires
        is_window_of(window, tool_name, content, offset, length),
        is_char_boundary(utf8_bytes(content), offset),
    ensures
        window.next_offset matches Some(next) ==> next < utf8_bytes(content).len()
            && is_char_boundary(utf8_bytes(content), next as int),
{
}

/// A read of at least four bytes at a character boundary before the end
/// always fits a whole character, since no UTF-8 character is longer.
pub proof fn lemma_four_bytes_always_fit(content: Seq<char>, offset: int, length: int)
    requires
        0 <= offset < utf8_bytes(content).len(),
        is_char_boundary(utf8_bytes(content), offset),
        length >= 4,
    ensures
        !no_boundary_after(
            utf8_bytes(content),
            offset,
            window_limit(utf8_bytes(content).len() as int, offset, length),
        ),
{
    let bytes = utf8_bytes(content);
    let tail = bytes.subrange(offset, bytes.len() as int);
    lemma_boundary_shift(bytes, offset, offset);
    let width = length_of_first_scalar(tail);
    assert(1 <= width <= 4);
    assert(valid_first_scalar(tail));
    assert(offset + width <= bytes.len()) by {
        reveal_with_fuel(valid_utf8, 1);
    }
    assert(is_char_boundary(tail, width)) by {
        reveal_with_fuel(is_char_boundary, 2);
        is_char_boundary_start_end_of_seq(pop_first_scalar(tail));
    }
    lemma_boundary_shift(bytes, offset, offset + width);
    assert(is_char_boundary(bytes, offset + width));
}

} // verus!
