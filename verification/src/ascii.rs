//! ASCII text and its UTF-8 bytes.
//!
//! The codecs of this crate read text byte by byte. For text made of ASCII
//! characters alone the bytes are the characters, and text with any other
//! character shows it by a byte outside the ASCII range; these lemmas let a
//! contract over bytes be restated over characters.

use vstd::prelude::*;
use vstd::utf8::*;

verus! {

/// Whether every byte is below 0x80.
pub open spec fn all_ascii_bytes(bytes: Seq<u8>) -> bool {
    forall|i: int| 0 <= i < bytes.len() ==> #[trigger] bytes[i] < 0x80
}

/// A character is ASCII exactly when its code is below 0x80.
pub proof fn lemma_ascii_char_code(c: char)
    ensures
        ('\0' <= c <= '\u{7f}') <==> (c as u32) < 0x80,
        (c as u32) < 0x80 ==> (c as u8) as u32 == c as u32,
{
}

/// Characters are ordered as their codes are.
pub proof fn lemma_char_order(a: char, b: char)
    ensures
        a <= b <==> a as u32 <= b as u32,
        a == b <==> a as u32 == b as u32,
{
}

/// The leading byte of a character that needs more than one byte in UTF-8
/// lies outside the ASCII range.
proof fn lemma_wide_scalar_leading_byte(c: u32)
    requires
        is_scalar(c),
        !has_width_1_encoding(c),
    ensures
        encode_scalar(c).len() > 0,
        encode_scalar(c)[0] >= 0x80,
{
    if has_width_2_encoding(c) {
        assert(0xC0u8 | ((c >> 6) & 0x1F) as u8 >= 0x80) by (bit_vector);
    } else if has_width_3_encoding(c) {
        assert(0xE0u8 | ((c >> 12) & 0x0F) as u8 >= 0x80) by (bit_vector);
    } else {
        assert(0xF0u8 | ((c >> 18) & 0x7) as u8 >= 0x80) by (bit_vector);
    }
}

/// Text whose UTF-8 bytes are all ASCII holds ASCII characters only.
pub proof fn lemma_ascii_bytes_ascii_text(text: Seq<char>)
    requires
        all_ascii_bytes(encode_utf8(text)),
    ensures
        is_ascii_chars(text),
    decreases text.len(),
{
    if text.len() > 0 {
        let c0 = text[0] as u32;
        let head = encode_scalar(c0);
        let tail = encode_utf8(text.drop_first());
        let bytes = encode_utf8(text);
        assert(bytes == head + tail);
        char_is_scalar(text[0]);
        if !has_width_1_encoding(c0) {
            lemma_wide_scalar_leading_byte(c0);
            assert(bytes[0] == head[0]);
            assert(false);
        }
        assert(head.len() == 1);
        assert forall|i: int| 0 <= i < tail.len() implies #[trigger] tail[i] < 0x80 by {
            assert(bytes[i + 1] == tail[i]);
        }
        lemma_ascii_bytes_ascii_text(text.drop_first());
        assert forall|i: int| 0 <= i < text.len() implies '\0' <= #[trigger] text[i] <= '\u{7f}' by {
            if i > 0 {
                assert(text[i] == text.drop_first()[i - 1]);
            } else {
                lemma_ascii_char_code(text[0]);
            }
        }
    }
}

/// Text is ASCII exactly when its UTF-8 bytes are, and the bytes of ASCII
/// text are its characters, one for one.
pub proof fn lemma_ascii_text_bytes(text: Seq<char>)
    ensures
        is_ascii_chars(text) <==> all_ascii_bytes(encode_utf8(text)),
        is_ascii_chars(text) ==> encode_utf8(text).len() == text.len(),
        is_ascii_chars(text) ==> forall|i: int|
            0 <= i < text.len() ==> #[trigger] encode_utf8(text)[i] == text[i] as u8,
{
    if is_ascii_chars(text) {
        is_ascii_chars_encode_utf8(text);
        assert forall|i: int| 0 <= i < encode_utf8(text).len() implies #[trigger] encode_utf8(
            text,
        )[i] < 0x80 by {
            assert('\0' <= text[i] <= '\u{7f}');
            assert(encode_utf8(text)[i] == text[i] as u8);
        }
    }
    if all_ascii_bytes(encode_utf8(text)) {
        lemma_ascii_bytes_ascii_text(text);
    }
}

} // verus!
