//! Hexadecimal text and the bytes it stands for.
//!
//! The conversion itself is done by the `hex` crate. This module says what
//! hexadecimal text is, states the conversions over that description, and
//! proves the laws that tie encoding and decoding together.

use crate::ascii::{all_ascii_bytes, lemma_ascii_char_code, lemma_ascii_text_bytes};
use vstd::prelude::*;
use vstd::string::*;
use vstd::utf8::*;

verus! {

/// The value of the hex digit with the given character code, in either case.
pub open spec fn digit_value(code: int) -> Option<int> {
    if 0x30 <= code <= 0x39 {
        Some(code - 0x30)
    } else if 0x61 <= code <= 0x66 {
        Some(code - 0x61 + 10)
    } else if 0x41 <= code <= 0x46 {
        Some(code - 0x41 + 10)
    } else {
        None
    }
}

/// Whether a character is one of `0`-`9`, `a`-`f`, `A`-`F`.
pub open spec fn is_hex_char(c: char) -> bool {
    digit_value(c as int) is Some
}

/// The byte that a pair of hex digits stands for, the high digit first.
pub open spec fn pair_value(hi: int, lo: int) -> u8 {
    (digit_value(hi).unwrap() * 16 + digit_value(lo).unwrap()) as u8
}

/// Hex text: an even number of characters, each of them a hex digit.
pub open spec fn is_hex_text(text: Seq<char>) -> bool {
    &&& text.len() % 2 == 0
    &&& forall|i: int| 0 <= i < text.len() ==> is_hex_char(#[trigger] text[i])
}

/// The bytes that hex text stands for: one byte for each pair of digits.
pub open spec fn decoded(text: Seq<char>) -> Seq<u8> {
    Seq::new((text.len() / 2) as nat, |i: int| pair_value(text[2 * i] as int, text[2 * i + 1] as int))
}

/// The sixteen digits of lowercase hex text, by value.
pub open spec fn lower_hex_digits() -> Seq<char> {
    seq!['0', '1', '2', '3', '4', '5', '6', '7', '8', '9', 'a', 'b', 'c', 'd', 'e', 'f']
}

/// The sixteen digits of uppercase hex text, by value.
pub open spec fn upper_hex_digits() -> Seq<char> {
    seq!['0', '1', '2', '3', '4', '5', '6', '7', '8', '9', 'A', 'B', 'C', 'D', 'E', 'F']
}

/// The lowercase hex text of a byte sequence: two digits for each byte, the
/// high half of the byte first.
pub open spec fn encoded(bytes: Seq<u8>) -> Seq<char> {
    Seq::new(
        2 * bytes.len(),
        |i: int|
            if i % 2 == 0 {
                lower_hex_digits()[bytes[i / 2] as int / 16]
            } else {
                lower_hex_digits()[bytes[i / 2] as int % 16]
            },
    )
}

/// Each lowercase digit reads back as the value it was written for.
pub proof fn lemma_lower_digit_value(n: int)
    requires
        0 <= n < 16,
    ensures
        digit_value(lower_hex_digits()[n] as int) == Some(n),
        is_hex_char(lower_hex_digits()[n]),
{
}

/// Encoding gives hex text, and decoding that text gives the bytes back.
pub proof fn lemma_decode_encode(bytes: Seq<u8>)
    ensures
        is_hex_text(encoded(bytes)),
        encoded(bytes).len() == 2 * bytes.len(),
        decoded(encoded(bytes)) == bytes,
{
    let text = encoded(bytes);
    assert forall|i: int| 0 <= i < text.len() implies is_hex_char(#[trigger] text[i]) by {
        lemma_lower_digit_value(bytes[i / 2] as int / 16);
        lemma_lower_digit_value(bytes[i / 2] as int % 16);
    }
    assert forall|k: int| 0 <= k < bytes.len() implies decoded(text)[k] == bytes[k] by {
        lemma_lower_digit_value(bytes[k] as int / 16);
        lemma_lower_digit_value(bytes[k] as int % 16);
    }
    assert(decoded(text) =~= bytes);
}

/// The lowercase digit that has the value of a hex digit of either case.
pub open spec fn lowercase_digit(c: char) -> char {
    lower_hex_digits()[digit_value(c as int).unwrap()]
}

/// Decoding hex text and encoding the bytes again gives the text back with
/// every digit in lowercase: the case is normalised, the digits stay.
pub proof fn lemma_encode_decode(text: Seq<char>)
    requires
        is_hex_text(text),
    ensures
        encoded(decoded(text)) == Seq::new(text.len(), |i: int| lowercase_digit(text[i])),
{
    let bytes = decoded(text);
    let back = encoded(bytes);
    assert forall|i: int| 0 <= i < text.len() implies back[i] == lowercase_digit(text[i]) by {
        let k = i / 2;
        assert(is_hex_char(text[2 * k]) && is_hex_char(text[2 * k + 1]));
    }
    assert(back =~= Seq::new(text.len(), |i: int| lowercase_digit(text[i])));
}

/// Whether a byte is the ASCII code of a hex digit.
pub open spec fn is_hex_byte(b: u8) -> bool {
    digit_value(b as int) is Some
}

/// Hex text as bytes: an even number of bytes, each the code of a hex digit.
pub open spec fn is_hex_bytes(data: Seq<u8>) -> bool {
    &&& data.len() % 2 == 0
    &&& forall|i: int| 0 <= i < data.len() ==> is_hex_byte(#[trigger] data[i])
}

/// The bytes that hex text, given as bytes, stands for.
pub open spec fn decoded_bytes(data: Seq<u8>) -> Seq<u8> {
    Seq::new((data.len() / 2) as nat, |i: int| pair_value(data[2 * i] as int, data[2 * i + 1] as int))
}

/// Text is hex text exactly when its UTF-8 bytes are, and then both stand
/// for the same bytes.
pub proof fn lemma_hex_text_utf8(text: Seq<char>)
    ensures
        is_hex_text(text) <==> is_hex_bytes(encode_utf8(text)),
        is_hex_text(text) ==> encode_utf8(text).len() == text.len(),
        is_hex_text(text) ==> decoded_bytes(encode_utf8(text)) == decoded(text),
{
    let data = encode_utf8(text);
    lemma_ascii_text_bytes(text);
    if is_hex_bytes(data) {
        // Hex digits are ASCII, so the text is, and its characters are the bytes.
        assert forall|i: int| 0 <= i < data.len() implies #[trigger] data[i] < 0x80 by {
            assert(is_hex_byte(data[i]));
        }
        assert forall|i: int| 0 <= i < text.len() implies is_hex_char(#[trigger] text[i]) by {
            lemma_ascii_char_code(text[i]);
            assert(is_hex_byte(data[i]));
        }
    }
    if is_hex_text(text) {
        assert forall|i: int| 0 <= i < text.len() implies '\0' <= #[trigger] text[i] <= '\u{7f}' by {
            assert(is_hex_char(text[i]));
            lemma_ascii_char_code(text[i]);
        }
        assert forall|i: int| 0 <= i < data.len() implies is_hex_byte(#[trigger] data[i]) by {
            assert(is_hex_char(text[i]));
        }
        assert(decoded_bytes(data) =~= decoded(text));
    }
}

/// Why text could not be decoded.
#[derive(Debug, Clone, Copy, PartialEq, Eq)]
pub enum DecodeError {
    /// The text has an odd number of bytes, so its digits do not pair up.
    OddLength,
    /// A byte of the text is no hex digit. `index` is the position of the
    /// first such byte and `c` the character with that byte's value.
    InvalidHexCharacter { c: char, index: usize },
}

/// Whether `index` is the position of the first byte that is no hex digit.
pub open spec fn is_first_invalid(data: Seq<u8>, index: int) -> bool {
    &&& 0 <= index < data.len()
    &&& !is_hex_byte(data[index])
    &&& forall|j: int| 0 <= j < index ==> is_hex_byte(#[trigger] data[j])
}

/// Whether `error` is the fault of `data`: an odd length comes before any
/// look at the digits, and of the invalid bytes the first is reported.
pub open spec fn is_fault_of(data: Seq<u8>, error: DecodeError) -> bool {
    match error {
        DecodeError::OddLength => data.len() % 2 == 1,
        DecodeError::InvalidHexCharacter { c, index } => {
            &&& data.len() % 2 == 0
            &&& is_first_invalid(data, index as int)
            &&& c == data[index as int] as char
        },
    }
}

/// The error type of the `hex` crate, carried through as an opaque value.
#[verifier::external_type_specification]
#[verifier::external_body]
pub struct ExFromHexError(hex::FromHexError);

/// Decodes hex digits given as bytes.
///
/// Trusted: calls `hex::decode`, which fails on an odd number of bytes and
/// on any byte that is not one of `0`-`9`, `a`-`f`, `A`-`F`, and otherwise
/// returns one byte for each pair of digits, the first digit of a pair
/// being the high half of the byte.
#[verifier::external_body]
fn hex_decode(data: &[u8]) -> (res: Result<Vec<u8>, hex::FromHexError>)
    ensures
        res is Ok <==> is_hex_bytes(data@),
        res is Ok ==> res.unwrap()@ == decoded_bytes(data@),
{
    hex::decode(data)
}

/// Encodes bytes as lowercase hex text.
///
/// Trusted: calls `hex::encode`, which writes each byte as two digits taken
/// from `0123456789abcdef`, the high half of the byte first.
#[verifier::external_body]
fn hex_encode(data: &[u8]) -> (text: String)
    ensures
        text@ == encoded(data@),
{
    hex::encode(data)
}

/// Whether a byte is the code of a hex digit.
fn is_hex_digit(b: u8) -> (yes: bool)
    ensures
        yes == is_hex_byte(b),
{
    (0x30 <= b && b <= 0x39) || (0x61 <= b && b <= 0x66) || (0x41 <= b && b <= 0x46)
}

/// Names the fault of bytes that are not hex text.
fn fault_of(data: &[u8]) -> (error: DecodeError)
    requires
        !is_hex_bytes(data@),
    ensures
        is_fault_of(data@, error),
{
    let n: usize = data.len();
    if n % 2 != 0 {
        return DecodeError::OddLength;
    }
    let mut i: usize = 0;
    while i < n && is_hex_digit(data[i])
        invariant
            n == data@.len(),
            i <= n,
            forall|j: int| 0 <= j < i ==> is_hex_byte(#[trigger] data@[j]),
        decreases n - i,
    {
        i += 1;
    }
    DecodeError::InvalidHexCharacter { c: data[i] as char, index: i }
}

/// Converts bytes to lowercase hex text, two digits for each byte.
pub fn bytes_to_hex(bytes: &[u8]) -> (text: String)
    ensures
        text@ == encoded(bytes@),
        text@.len() == 2 * bytes@.len(),
        is_hex_text(text@),
        decoded(text@) == bytes@,
{
    proof {
        lemma_decode_encode(bytes@);
    }
    hex_encode(bytes)
}

/// Converts hex text to the bytes it stands for.
///
/// Succeeds exactly on hex text: an even number of characters, each a hex
/// digit of either case. On any other text the error names the fault, as
/// found in the text's UTF-8 bytes.
pub fn hex_to_bytes(hex: &str) -> (res: Result<Vec<u8>, DecodeError>)
    ensures
        res is Ok <==> is_hex_text(hex@),
        res is Ok ==> res.unwrap()@ == decoded(hex@) && res.unwrap()@.len() == hex@.len() / 2,
        res is Err ==> is_fault_of(encode_utf8(hex@), res.unwrap_err()),
{
    let data = hex.as_bytes();
    proof {
        lemma_hex_text_utf8(hex@);
    }
    match hex_decode(data) {
        Ok(bytes) => Ok(bytes),
        Err(_) => Err(fault_of(data)),
    }
}

/// Decodes hex text, reporting any fault as a message.
pub fn decode_hex(hex_str: &str) -> (res: Result<Vec<u8>, String>)
    ensures
        res is Ok <==> is_hex_text(hex_str@),
        res is Ok ==> res.unwrap()@ == decoded(hex_str@) && res.unwrap()@.len() == hex_str@.len()
            / 2,
        res is Err ==> res.unwrap_err()@ == "Could not decode hex string"@,
{
    let data = hex_str.as_bytes();
    proof {
        lemma_hex_text_utf8(hex_str@);
    }
    match hex_decode(data) {
        Ok(raw_bytes) => Ok(raw_bytes),
        Err(_) => Err(String::from_str("Could not decode hex string")),
    }
}

} // verus!
