//! Opaque identifiers for retained tool outputs.

use vstd::prelude::*;
use vstd::string::*;

use crate::text::hex_digit;

verus! {

/// Opaque id that names one retained tool output.
#[derive(Clone, Debug, PartialEq, Eq, Hash)]
pub struct ToolOutputId {
    id: String,
}

impl View for ToolOutputId {
    type V = Seq<char>;

    closed spec fn view(&self) -> Seq<char> {
        self.id@
    }
}

impl ToolOutputId {
    /// Wraps an opaque id text.
    pub fn from_opaque(id: String) -> (output_id: ToolOutputId)
        ensures
            output_id@ == id@,
    {
        ToolOutputId { id }
    }

    /// Returns the id text.
    pub fn as_str(&self) -> (text: &str)
        ensures
            text@ == self@,
    {
        self.id.as_str()
    }

    /// Returns a copy of this id.
    pub fn duplicate(&self) -> (copy: ToolOutputId)
        ensures
            copy == *self,
    {
        ToolOutputId { id: self.id.clone() }
    }

    /// Whether two ids name the same output.
    pub fn same_as(&self, other: &ToolOutputId) -> (same: bool)
        ensures
            same == (self@ == other@),
    {
        self.id == other.id
    }
}

/// The text every generated output id starts with.
pub open spec fn output_id_prefix() -> Seq<char> {
    seq!['t', 'o', 'o', 'l', 'o', 'u', 't', '_']
}

/// A lowercase hexadecimal digit.
pub open spec fn is_lower_hex(c: char) -> bool {
    ('0' <= c && c <= '9') || ('a' <= c && c <= 'f')
}

/// The lowercase hyphenated text of a version-7 UUID: 36 characters, hyphens
/// at 8, 13, 18 and 23, hexadecimal digits elsewhere, version digit `7`, and
/// an RFC 4122 variant digit.
pub open spec fn is_hyphenated_v7_uuid(text: Seq<char>) -> bool {
    &&& text.len() == 36
    &&& forall|i: int|
        0 <= i < 36 ==> if i == 8 || i == 13 || i == 18 || i == 23 {
            #[trigger] text[i] == '-'
        } else {
            is_lower_hex(text[i])
        }
    &&& text[14] == '7'
    &&& (text[19] == '8' || text[19] == '9' || text[19] == 'a' || text[19] == 'b')
}

/// An id text that the in-memory store generates: the prefix `toolout_`
/// followed by the hyphenated text of a version-7 UUID.
pub open spec fn is_generated_output_id(id: Seq<char>) -> bool {
    &&& id.len() == 44
    &&& id.subrange(0, 8) == output_id_prefix()
    &&& is_hyphenated_v7_uuid(id.subrange(8, 44))
}


/// Largest Unix timestamp, in milliseconds, that a version-7 UUID holds: 48
/// bits.
pub const MAX_UUID_V7_TIMESTAMP_MILLIS: u128 = 281_474_976_710_655;

/// Why an output id could not be generated.
#[derive(Clone, Debug, PartialEq, Eq)]
pub enum OutputIdGenerationError {
    /// The system clock reported a time before the Unix epoch.
    Clock {
        /// The clock's failure, by its message.
        message: String,
    },
    /// The clock is past what a version-7 UUID can hold.
    TimestampOutOfRange {
        /// The timestamp, in milliseconds.
        millis: u128,
    },
    /// The operating system could not provide random bytes.
    Entropy {
        /// The entropy source's failure, by its message.
        message: String,
    },
}

/// The sixteen bytes of the version-7 UUID for a Unix timestamp in
/// milliseconds and ten counter-and-random bytes: the low 48 bits of the
/// timestamp, big-endian; then the version nibble 7 over the low nibble of the
/// first random byte; the second random byte; the variant bits `10` over the
/// low six bits of the third; and the last seven random bytes as they are.
pub open spec fn uuid_v7_bytes(millis: u64, r: Seq<u8>) -> Seq<u8> {
    seq![
        ((millis / 0x100_0000_0000) % 256) as u8,
        ((millis / 0x1_0000_0000) % 256) as u8,
        ((millis / 0x100_0000) % 256) as u8,
        ((millis / 0x1_0000) % 256) as u8,
        ((millis / 0x100) % 256) as u8,
        (millis % 256) as u8,
        (0x70 + r[0] % 16) as u8,
        r[1],
        (0x80 + r[2] % 64) as u8,
        r[3],
        r[4],
        r[5],
        r[6],
        r[7],
        r[8],
        r[9],
    ]
}

/// How many hyphens of the hyphenated UUID text stand before position `i`.
pub open spec fn uuid_hyphens_before(i: int) -> int {
    if i < 8 {
        0
    } else if i < 13 {
        1
    } else if i < 18 {
        2
    } else if i < 23 {
        3
    } else {
        4
    }
}

/// The character at position `i` of the hyphenated text of `bytes`.
pub open spec fn uuid_text_char(bytes: Seq<u8>, i: int) -> char {
    if i == 8 || i == 13 || i == 18 || i == 23 {
        '-'
    } else {
        let digit = i - uuid_hyphens_before(i);
        let byte = bytes[digit / 2];
        hex_digit(if digit % 2 == 0 { (byte / 16) as nat } else { (byte % 16) as nat })
    }
}

/// The lowercase hyphenated text of sixteen UUID bytes: two hexadecimal
/// digits per byte, high nibble first, with hyphens after the fourth, sixth,
/// eighth and tenth bytes.
pub open spec fn uuid_hyphenated(bytes: Seq<u8>) -> Seq<char> {
    Seq::new(36, |i: int| uuid_text_char(bytes, i))
}

/// Every hexadecimal digit is a lowercase hexadecimal character.
proof fn lemma_hex_digit_is_lower_hex(d: nat)
    requires
        d < 16,
    ensures
        is_lower_hex(hex_digit(d)),
{
}

/// The text of a version-7 UUID built from a timestamp and ten random bytes
/// has the hyphenated version-7 shape.
pub proof fn lemma_uuid_v7_text_shape(millis: u64, r: Seq<u8>)
    requires
        r.len() == 10,
    ensures
        is_hyphenated_v7_uuid(uuid_hyphenated(uuid_v7_bytes(millis, r))),
{
    let b = uuid_v7_bytes(millis, r);
    let t = uuid_hyphenated(b);
    assert forall|i: int| 0 <= i < 36 implies if i == 8 || i == 13 || i == 18 || i == 23 {
        #[trigger] t[i] == '-'
    } else {
        is_lower_hex(t[i])
    } by {
        if !(i == 8 || i == 13 || i == 18 || i == 23) {
            let digit = i - uuid_hyphens_before(i);
            let byte = b[digit / 2];
            lemma_hex_digit_is_lower_hex((byte / 16) as nat);
            lemma_hex_digit_is_lower_hex((byte % 16) as nat);
        }
    }
    assert(b[6] / 16 == 7);
    assert(b[8] / 16 == 8 || b[8] / 16 == 9 || b[8] / 16 == 10 || b[8] / 16 == 11);
}

/// Builds a version-7 UUID with `uuid::Builder::from_unix_timestamp_millis`
/// and renders it with `Display`. The contract claims what the builder's and
/// the formatter's source show: the bytes are those of `uuid_v7_bytes`, and
/// the text is their lowercase hyphenated form.
#[verifier::external_body]
fn uuid_v7_from_parts(millis: u64, counter_random_bytes: &[u8; 10]) -> (text: String)
    ensures
        text@ == uuid_hyphenated(uuid_v7_bytes(millis, counter_random_bytes@)),
{
    uuid::Builder::from_unix_timestamp_millis(millis, counter_random_bytes).into_uuid().to_string()
}

#[verifier::external_body]
fn random_id_bytes() -> (bytes: Result<[u8; 10], String>) {
    let mut bytes = [0_u8; 10];
    match getrandom::fill(&mut bytes) {
        Ok(()) => Ok(bytes),
        Err(error) => Err(error.to_string()),
    }
}

/// The prefixed output id text for a timestamp and random bytes.
pub open spec fn output_id_text(millis: u64, random_bytes: Seq<u8>) -> Seq<char> {
    output_id_prefix() + uuid_hyphenated(uuid_v7_bytes(millis, random_bytes))
}

/// Builds the output id for a clock reading and ten random bytes; a
/// timestamp past the 48 bits of a version-7 UUID is refused.
pub fn output_id_from_parts(millis: u128, random_bytes: [u8; 10]) -> (result: Result<
    ToolOutputId,
    OutputIdGenerationError,
>)
    ensures
        millis > MAX_UUID_V7_TIMESTAMP_MILLIS ==> result == Err::<
            ToolOutputId,
            OutputIdGenerationError,
        >(OutputIdGenerationError::TimestampOutOfRange { millis }),
        millis <= MAX_UUID_V7_TIMESTAMP_MILLIS ==> (result matches Ok(id) && id@ == output_id_text(
            millis as u64,
            random_bytes@,
        ) && is_generated_output_id(id@)),
{
    if millis > MAX_UUID_V7_TIMESTAMP_MILLIS {
        return Err(OutputIdGenerationError::TimestampOutOfRange { millis });
    }
    let uuid = uuid_v7_from_parts(millis as u64, &random_bytes);
    let mut text = "toolout_".to_owned();
    proof {
        reveal_strlit("toolout_");
        assert(text@ =~= output_id_prefix());
    }
    text.append(uuid.as_str());
    proof {
        lemma_uuid_v7_text_shape(millis as u64, random_bytes@);
        assert(text@ =~= output_id_text(millis as u64, random_bytes@));
        assert(text@.subrange(0, 8) =~= output_id_prefix());
        assert(text@.subrange(8, 44) =~= uuid@);
    }
    Ok(ToolOutputId::from_opaque(text))
}

/// Generates an output id from a clock reading, in milliseconds since the
/// Unix epoch or the clock's failure, and fresh random bytes.
pub fn generate_output_id(clock_millis: Result<u128, String>) -> (result: Result<
    ToolOutputId,
    OutputIdGenerationError,
>)
    ensures
        match clock_millis {
            Err(message) => result == Err::<ToolOutputId, OutputIdGenerationError>(
                OutputIdGenerationError::Clock { message },
            ),
            Ok(millis) => if millis > MAX_UUID_V7_TIMESTAMP_MILLIS {
                result == Err::<ToolOutputId, OutputIdGenerationError>(
                    OutputIdGenerationError::TimestampOutOfRange { millis },
                )
            } else {
                &&& (result is Err ==> result matches Err(OutputIdGenerationError::Entropy { .. }))
                &&& (result matches Ok(id) ==> exists|random_bytes: Seq<u8>|
                    random_bytes.len() == 10 && id@ == #[trigger] output_id_text(
                        millis as u64,
                        random_bytes,
                    ))
            },
        },
        result matches Ok(id) ==> is_generated_output_id(id@),
{
    let millis = match clock_millis {
        Ok(millis) => millis,
        Err(message) => {
            return Err(OutputIdGenerationError::Clock { message });
        },
    };
    if millis > MAX_UUID_V7_TIMESTAMP_MILLIS {
        return Err(OutputIdGenerationError::TimestampOutOfRange { millis });
    }
    let random_bytes = match random_id_bytes() {
        Ok(bytes) => bytes,
        Err(message) => {
            return Err(OutputIdGenerationError::Entropy { message });
        },
    };
    output_id_from_parts(millis, random_bytes)
}

} // verus!
