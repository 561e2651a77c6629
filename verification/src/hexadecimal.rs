//! Hex text and the bytes it stands for. Encoding and decoding are done by
//! the `hex` crate; what it does is stated here, and the laws that follow
//! are proved from that.

use vstd::prelude::*;
use vstd::utf8::encode_scalar;
use vstd::utf8::encode_utf8;
use vstd::utf8::has_width_1_encoding;
use vstd::utf8::is_ascii_chars;
use vstd::utf8::is_ascii_chars_encode_utf8;

verus! {

/// Why a text is not the hex form of any bytes.
#[derive(Debug, Clone, Copy, PartialEq, Eq, Structural)]
pub enum HexError {
    /// A byte of the text is not a hex digit. `c` is that byte read as a
    /// character, `index` its position among the bytes of the text.
    InvalidHexCharacter { c: char, index: usize },
    /// The text has an odd number of bytes.
    OddLength,
    /// The text does not have the length of a container of fixed size.
    /// Decoding into a vector never reports this.
    InvalidStringLength,
}

/// The value of a hex digit, in either case; nothing for any other byte.
pub open spec fn hex_digit_value(byte: u8) -> Option<u8> {
    if 0x30 <= byte <= 0x39 {
        Some((byte - 0x30) as u8)
    } else if 0x61 <= byte <= 0x66 {
        Some((byte - 0x61 + 10) as u8)
    } else if 0x41 <= byte <= 0x46 {
        Some((byte - 0x41 + 10) as u8)
    } else {
        None
    }
}

/// Whether a byte is one of `0` to `9`, `a` to `f` or `A` to `F`.
pub open spec fn is_hex_digit(byte: u8) -> bool {
    hex_digit_value(byte) is Some
}

/// The position of the first byte that is no hex digit, or the length of the
/// text where every byte is one.
pub open spec fn first_non_hex(text: Seq<u8>) -> int
    decreases text.len(),
{
    if text.len() == 0 || !is_hex_digit(text[0]) {
        0
    } else {
        1 + first_non_hex(text.drop_first())
    }
}

/// The byte that two hex digits write, the first being the upper half.
pub open spec fn byte_of_digits(high: u8, low: u8) -> u8 {
    (16 * hex_digit_value(high).unwrap() + hex_digit_value(low).unwrap()) as u8
}

/// The bytes that a text of hex digits writes, two digits to a byte.
pub open spec fn decoded_bytes(text: Seq<u8>) -> Seq<u8> {
    Seq::new(text.len() / 2, |i: int| byte_of_digits(text[2 * i], text[2 * i + 1]))
}

/// What decoding makes of the bytes of a text. An odd length is reported
/// before anything else; otherwise the first byte that is no hex digit is
/// reported; otherwise the bytes decode.
pub open spec fn hex_decoding(text: Seq<u8>) -> Result<Seq<u8>, HexError> {
    if text.len() % 2 != 0 {
        Err(HexError::OddLength)
    } else if first_non_hex(text) < text.len() {
        let index = first_non_hex(text);
        Err(HexError::InvalidHexCharacter { c: text[index] as char, index: index as usize })
    } else {
        Ok(decoded_bytes(text))
    }
}

/// What decoding makes of a text: it is read as its UTF-8 bytes, so a
/// position in an error counts bytes, and a character outside ASCII shows up
/// as the first of its bytes.
pub open spec fn hex_text_decoding(text: Seq<char>) -> Result<Seq<u8>, HexError> {
    hex_decoding(encode_utf8(text))
}

/// The lowercase hex digit that stands for a value below sixteen.
pub open spec fn lower_hex_digit(nibble: u8) -> char
    recommends
        nibble < 16,
{
    if nibble < 10 {
        (nibble + 0x30) as char
    } else {
        (nibble - 10 + 0x61) as char
    }
}

/// The lowercase hex form of bytes: two digits for each byte, upper half
/// first.
pub open spec fn hex_encoding(bytes: Seq<u8>) -> Seq<char> {
    Seq::new(
        2 * bytes.len(),
        |i: int|
            if i % 2 == 0 {
                lower_hex_digit(bytes[i / 2] / 16)
            } else {
                lower_hex_digit(bytes[i / 2] % 16)
            },
    )
}

/// Whether a character is one of `0` to `9`, `a` to `f` or `A` to `F`.
pub open spec fn is_hex_char(c: char) -> bool {
    ('0' <= c <= '9') || ('a' <= c <= 'f') || ('A' <= c <= 'F')
}

/// Whether a text is the hex form of some bytes: an even number of hex
/// digits and nothing else.
pub open spec fn is_hex_text(text: Seq<char>) -> bool {
    text.len() % 2 == 0 && forall|i: int| 0 <= i < text.len() ==> is_hex_char(#[trigger] text[i])
}

/// A character with an ASCII capital letter turned into its small letter.
pub open spec fn ascii_lowercase(c: char) -> char {
    if 'A' <= c <= 'Z' {
        ((c as u32) + 32) as char
    } else {
        c
    }
}

/// A text with every ASCII capital letter turned into its small letter.
pub open spec fn lowercase(text: Seq<char>) -> Seq<char> {
    Seq::new(text.len(), |i: int| ascii_lowercase(text[i]))
}

/// The sentence that the `hex` crate prints for a byte that is no hex digit,
/// from the byte read as a character and its position.
pub uninterp spec fn invalid_character_text(c: char, index: usize) -> Seq<char>;

/// The sentence that describes a decoding error.
pub open spec fn hex_error_text(error: HexError) -> Seq<char> {
    match error {
        HexError::InvalidHexCharacter { c, index } => invalid_character_text(c, index),
        HexError::OddLength => "Odd number of digits"@,
        HexError::InvalidStringLength => "Invalid string length"@,
    }
}

/// The message of a failed decoding whose cause is described by
/// `description`.
pub open spec fn decode_failure_text(description: Seq<char>) -> Seq<char> {
    "Failed to decode hex: "@ + description
}

/// Calls `hex::decode` on the text and hands its answer on, with the crate's
/// `FromHexError` given as the `HexError` of the same variant and fields.
/// Trusted: the crate decodes the UTF-8 bytes of the text as
/// `hex_text_decoding` says. It refuses an odd number of bytes first, then
/// the first byte that is no hex digit, which it reports as the character of
/// the same number; it never reports `InvalidStringLength` here, and it does
/// not panic.
#[verifier::external_body]
fn hex_decode(text: &str) -> (r: Result<Vec<u8>, HexError>)
    ensures
        match r {
            Ok(bytes) => hex_text_decoding(text@) == Ok::<Seq<u8>, HexError>(bytes@),
            Err(error) => hex_text_decoding(text@) == Err::<Seq<u8>, HexError>(error),
        },
{
    match hex::decode(text) {
        Ok(bytes) => Ok(bytes),
        Err(hex::FromHexError::InvalidHexCharacter { c, index }) => Err(
            HexError::InvalidHexCharacter { c, index },
        ),
        Err(hex::FromHexError::OddLength) => Err(HexError::OddLength),
        Err(hex::FromHexError::InvalidStringLength) => Err(HexError::InvalidStringLength),
    }
}

/// Calls `hex::encode` on the bytes. Trusted: the crate writes each byte as
/// two lowercase hex digits, upper half first, in the order of the bytes,
/// and nothing else.
#[verifier::external_body]
fn hex_encode(bytes: &[u8]) -> (text: String)
    ensures
        text@ == hex_encoding(bytes@),
{
    hex::encode(bytes)
}

/// Prints the error as the `hex` crate prints its `FromHexError` of the same
/// variant and fields, through that type's `Display`. Trusted: for the two
/// variants without fields the crate prints the fixed sentence given here,
/// and for an invalid character a sentence that depends on the character and
/// the position alone.
#[verifier::external_body]
fn hex_error_to_string(error: &HexError) -> (text: String)
    ensures
        match *error {
            HexError::InvalidHexCharacter { c, index } => text@ == invalid_character_text(
                c,
                index,
            ),
            HexError::OddLength => text@ == "Odd number of digits"@,
            HexError::InvalidStringLength => text@ == "Invalid string length"@,
        },
{
    let outside = match *error {
        HexError::InvalidHexCharacter { c, index } => hex::FromHexError::InvalidHexCharacter {
            c,
            index,
        },
        HexError::OddLength => hex::FromHexError::OddLength,
        HexError::InvalidStringLength => hex::FromHexError::InvalidStringLength,
    };
    outside.to_string()
}

impl HexError {
    /// Describes the error in words, as the `hex` crate does.
    pub fn message(&self) -> (text: String)
        ensures
            text@ == hex_error_text(*self),
    {
        hex_error_to_string(self)
    }
}

/// Builds the message of a failed decoding from the description of its cause.
pub fn decode_failure_message(description: &str) -> (msg: String)
    ensures
        msg@ == decode_failure_text(description@),
{
    String::from_str("Failed to decode hex: ").concat(description)
}

/// Decodes hex text into bytes, and reports a failure with the error value
/// itself. Digits of either case are read; the text must hold an even number
/// of them and nothing else.
pub fn hex_to_bytes(hex: &str) -> (r: Result<Vec<u8>, HexError>)
    ensures
        r is Ok <==> is_hex_text(hex@),
        match r {
            Ok(bytes) => hex_text_decoding(hex@) == Ok::<Seq<u8>, HexError>(bytes@),
            Err(error) => hex_text_decoding(hex@) == Err::<Seq<u8>, HexError>(error),
        },
{
    proof {
        lemma_decodes_iff_hex_text(hex@);
    }
    hex_decode(hex)
}

/// Decodes hex text into bytes, and reports a failure as a message. It reads
/// what `hex_to_bytes` reads and fails where it fails; only the form of the
/// error differs.
pub fn decode_hex(hex_str: &str) -> (r: Result<Vec<u8>, String>)
    ensures
        r is Ok <==> is_hex_text(hex_str@),
        match r {
            Ok(bytes) => hex_text_decoding(hex_str@) == Ok::<Seq<u8>, HexError>(bytes@),
            Err(msg) => hex_text_decoding(hex_str@) matches Err(error) && msg@
                == decode_failure_text(hex_error_text(error)),
        },
{
    proof {
        lemma_decodes_iff_hex_text(hex_str@);
    }
    match hex_decode(hex_str) {
        Ok(bytes) => Ok(bytes),
        Err(error) => {
            let description = error.message();
            Err(decode_failure_message(description.as_str()))
        },
    }
}

/// Encodes bytes as lowercase hex text, two digits for each byte. Every input
/// has an encoding.
pub fn bytes_to_hex(bytes: &[u8]) -> (text: String)
    ensures
        text@ == hex_encoding(bytes@),
        text@.len() == 2 * bytes@.len(),
{
    hex_encode(bytes)
}

/// `first_non_hex` lies within the text, every byte before it is a hex digit,
/// and the byte at it, if there is one, is none.
pub proof fn lemma_first_non_hex(text: Seq<u8>)
    ensures
        0 <= first_non_hex(text) <= text.len(),
        forall|i: int| 0 <= i < first_non_hex(text) ==> is_hex_digit(#[trigger] text[i]),
        first_non_hex(text) < text.len() ==> !is_hex_digit(text[first_non_hex(text)]),
    decreases text.len(),
{
    if text.len() == 0 || !is_hex_digit(text[0]) {
    } else {
        let rest = text.drop_first();
        lemma_first_non_hex(rest);
        assert forall|i: int| 0 <= i < first_non_hex(text) implies is_hex_digit(
            #[trigger] text[i],
        ) by {
            if i > 0 {
                assert(text[i] == rest[i - 1]);
            }
        }
        if first_non_hex(text) < text.len() {
            assert(text[first_non_hex(text)] == rest[first_non_hex(rest)]);
        }
    }
}

/// A text decodes exactly when it has an even number of bytes and each is a
/// hex digit.
pub proof fn lemma_decodes_iff_hex_digits(text: Seq<u8>)
    ensures
        hex_decoding(text) is Ok <==> text.len() % 2 == 0 && forall|i: int|
            0 <= i < text.len() ==> is_hex_digit(#[trigger] text[i]),
{
    lemma_first_non_hex(text);
}

/// A character is ASCII exactly when its number is below 128.
proof fn lemma_ascii_char(c: char)
    ensures
        ('\0' <= c <= '\u{7f}') <==> c as u32 <= 0x7f,
{
}

/// A text whose UTF-8 bytes all lie in the ASCII range holds ASCII characters
/// only.
proof fn lemma_ascii_bytes_of_ascii_chars(text: Seq<char>)
    requires
        forall|i: int| 0 <= i < encode_utf8(text).len() ==> #[trigger] encode_utf8(text)[i] < 0x80,
    ensures
        is_ascii_chars(text),
    decreases text.len(),
{
    if text.len() > 0 {
        let first = text[0] as u32;
        let head = encode_scalar(first);
        let rest = text.drop_first();
        let bytes = encode_utf8(text);
        assert(bytes == head + encode_utf8(rest));
        assert(bytes[0] == head[0]);
        assert(forall|low: u8| #![auto] (0xC0u8 | low) >= 0x80) by (bit_vector);
        assert(forall|low: u8| #![auto] (0xE0u8 | low) >= 0x80) by (bit_vector);
        assert(forall|low: u8| #![auto] (0xF0u8 | low) >= 0x80) by (bit_vector);
        assert(has_width_1_encoding(first));
        assert forall|i: int| 0 <= i < encode_utf8(rest).len() implies #[trigger] encode_utf8(
            rest,
        )[i] < 0x80 by {
            assert(encode_utf8(rest)[i] == bytes[i + 1]);
        }
        lemma_ascii_bytes_of_ascii_chars(rest);
        assert forall|i: int| 0 <= i < text.len() implies '\0' <= #[trigger] text[i]
            <= '\u{7f}' by {
            if i > 0 {
                assert(text[i] == rest[i - 1]);
            } else {
                lemma_ascii_char(text[0]);
            }
        }
    }
}

/// Decoding a hex text and encoding the bytes again gives the text back in
/// lowercase.
pub proof fn lemma_decode_then_encode(text: Seq<char>)
    requires
        is_hex_text(text),
    ensures
        hex_text_decoding(text) is Ok,
        hex_encoding(hex_text_decoding(text)->Ok_0) == lowercase(text),
{
    let bytes = encode_utf8(text);
    assert(is_ascii_chars(text));
    is_ascii_chars_encode_utf8(text);
    assert forall|i: int| 0 <= i < bytes.len() implies is_hex_digit(#[trigger] bytes[i]) by {
        assert(is_hex_char(text[i]));
        assert(bytes[i] == text[i] as u8);
    }
    lemma_first_non_hex(bytes);
    let decoded = decoded_bytes(bytes);
    assert(hex_decoding(bytes) == Ok::<Seq<u8>, HexError>(decoded));
    assert forall|i: int| 0 <= i < text.len() implies #[trigger] hex_encoding(decoded)[i]
        == lowercase(text)[i] by {
        let k = i / 2;
        assert(is_hex_char(text[2 * k]));
        assert(is_hex_char(text[2 * k + 1]));
        assert(bytes[2 * k] == text[2 * k] as u8);
        assert(bytes[2 * k + 1] == text[2 * k + 1] as u8);
        assert(is_hex_digit(bytes[2 * k]));
        assert(is_hex_digit(bytes[2 * k + 1]));
        assert(decoded[k] == byte_of_digits(bytes[2 * k], bytes[2 * k + 1]));
    }
    assert(hex_encoding(decoded) =~= lowercase(text));
}

/// Encoding bytes and decoding the text again gives the bytes back.
pub proof fn lemma_encode_then_decode(bytes: Seq<u8>)
    ensures
        is_hex_text(hex_encoding(bytes)),
        hex_text_decoding(hex_encoding(bytes)) == Ok::<Seq<u8>, HexError>(bytes),
{
    let text = hex_encoding(bytes);
    assert forall|i: int| 0 <= i < text.len() implies is_hex_char(#[trigger] text[i]) by {
        let byte = bytes[i / 2];
        assert(byte / 16 < 16 && byte % 16 < 16);
    }
    assert(is_ascii_chars(text));
    is_ascii_chars_encode_utf8(text);
    let raw = encode_utf8(text);
    assert forall|i: int| 0 <= i < raw.len() implies is_hex_digit(#[trigger] raw[i]) by {
        assert(is_hex_char(text[i]));
        assert(raw[i] == text[i] as u8);
    }
    lemma_first_non_hex(raw);
    assert forall|k: int| 0 <= k < bytes.len() implies #[trigger] decoded_bytes(raw)[k]
        == bytes[k] by {
        assert(raw[2 * k] == text[2 * k] as u8);
        assert(raw[2 * k + 1] == text[2 * k + 1] as u8);
        let byte = bytes[k];
        assert(byte / 16 < 16 && byte % 16 < 16);
        assert(byte == 16 * (byte / 16) + byte % 16);
    }
    assert(decoded_bytes(raw) =~= bytes);
}

/// A text decodes exactly when it is hex text: an even number of hex digits
/// and nothing else.
pub proof fn lemma_decodes_iff_hex_text(text: Seq<char>)
    ensures
        hex_text_decoding(text) is Ok <==> is_hex_text(text),
{
    let bytes = encode_utf8(text);
    if is_hex_text(text) {
        lemma_decode_then_encode(text);
    }
    if hex_decoding(bytes) is Ok {
        lemma_decodes_iff_hex_digits(bytes);
        assert forall|i: int| 0 <= i < bytes.len() implies #[trigger] bytes[i] < 0x80 by {
            assert(is_hex_digit(bytes[i]));
        }
        lemma_ascii_bytes_of_ascii_chars(text);
        is_ascii_chars_encode_utf8(text);
        assert forall|i: int| 0 <= i < text.len() implies is_hex_char(#[trigger] text[i]) by {
            assert(is_hex_digit(bytes[i]));
            assert(bytes[i] == text[i] as u8);
        }
    }
}

} // verus!
