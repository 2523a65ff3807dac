//! Which strings may stand as the value of an HTTP header.
//!
//! The test itself is the `http` crate's, reached through `reqwest`. What it
//! accepts is stated here over the bytes of the string, as that crate tests
//! them, and then proved to be the same as a condition on its characters.

use reqwest::header::{HeaderValue, InvalidHeaderValue};
use vstd::prelude::*;
use vstd::utf8::*;

verus! {

/// `reqwest::header::HeaderValue`: a header value that passed the test. The
/// library hands it on and never looks inside.
#[verifier::external_type_specification]
#[verifier::external_body]
pub struct ExHeaderValue(HeaderValue);

/// `reqwest::header::InvalidHeaderValue`: the error of a string that failed
/// the test. It holds nothing.
#[verifier::external_type_specification]
#[verifier::external_body]
pub struct ExInvalidHeaderValue(InvalidHeaderValue);

/// A byte that a header value may hold: the tab, or anything from the space
/// upwards but the delete character.
pub open spec fn header_byte_allowed(byte: u8) -> bool {
    (byte >= 32 && byte != 127) || byte == 9
}

/// Every byte of `bytes` may stand in a header value.
pub open spec fn header_bytes_allowed(bytes: Seq<u8>) -> bool {
    forall|i: int| 0 <= i < bytes.len() ==> header_byte_allowed(#[trigger] bytes[i])
}

/// A character that a header value may hold: any but the control characters
/// of ASCII, of which only the tab is let through.
pub open spec fn header_char_allowed(c: char) -> bool {
    (c as u32 >= 32 && c as u32 != 127) || c as u32 == 9
}

/// Every character of `text` may stand in a header value.
pub open spec fn header_text_allowed(text: Seq<char>) -> bool {
    forall|i: int| 0 <= i < text.len() ==> header_char_allowed(#[trigger] text[i])
}

/// Calls `reqwest::header::HeaderValue::from_str` (the `http` crate's
/// `HeaderValue`). That function walks the bytes of the string and fails
/// where one of them is below 32 and no tab, or is 127; otherwise it returns
/// a header value that holds those bytes. The contract claims exactly this of
/// when it succeeds, and nothing of the value that it hands back.
#[verifier::external_body]
pub(crate) fn header_value_from_str(text: &str) -> (parsed: Result<
    HeaderValue,
    InvalidHeaderValue,
>)
    ensures
        parsed is Ok <==> header_bytes_allowed(encode_utf8(text@)),
{
    HeaderValue::from_str(text)
}

proof fn lemma_one_byte_scalar(scalar: u32)
    by (bit_vector)
    requires
        scalar <= 0x7f,
    ensures
        (scalar & 0x7F) as u8 as u32 == scalar,
{
}

proof fn lemma_long_encoding_bytes(scalar: u32)
    by (bit_vector)
    ensures
        0xC0 | ((scalar >> 6) & 0x1F) as u8 >= 0x80,
        0xE0 | ((scalar >> 12) & 0x0F) as u8 >= 0x80,
        0xF0 | ((scalar >> 18) & 0x7) as u8 >= 0x80,
        0x80 | (scalar & 0x3F) as u8 >= 0x80,
        0x80 | ((scalar >> 6) & 0x3F) as u8 >= 0x80,
        0x80 | ((scalar >> 12) & 0x3F) as u8 >= 0x80,
{
}

/// The bytes that encode one character are allowed exactly if the character
/// is.
proof fn lemma_scalar_bytes_allowed(c: char)
    ensures
        header_bytes_allowed(encode_scalar(c as u32)) <==> header_char_allowed(c),
{
    let scalar = c as u32;
    let bytes = encode_scalar(scalar);
    if has_width_1_encoding(scalar) {
        lemma_one_byte_scalar(scalar);
        assert(bytes =~= seq![(scalar & 0x7F) as u8]);
        assert(bytes[0] as u32 == scalar);
    } else {
        lemma_long_encoding_bytes(scalar);
        assert(scalar > 0x7f);
        assert forall|i: int| 0 <= i < bytes.len() implies header_byte_allowed(
            #[trigger] bytes[i],
        ) by {}
    }
}

/// A string passes the byte test of the header value exactly if each of its
/// characters is allowed.
pub proof fn lemma_header_bytes_are_text(text: Seq<char>)
    ensures
        header_bytes_allowed(encode_utf8(text)) <==> header_text_allowed(text),
    decreases text.len(),
{
    if text.len() > 0 {
        let head = encode_scalar(text[0] as u32);
        let rest = text.drop_first();
        let tail = encode_utf8(rest);
        lemma_scalar_bytes_allowed(text[0]);
        lemma_header_bytes_are_text(rest);
        assert(encode_utf8(text) == head + tail);
        if header_bytes_allowed(head + tail) {
            assert forall|i: int| 0 <= i < head.len() implies header_byte_allowed(
                #[trigger] head[i],
            ) by {
                assert(head[i] == (head + tail)[i]);
            }
            assert forall|i: int| 0 <= i < tail.len() implies header_byte_allowed(
                #[trigger] tail[i],
            ) by {
                assert(tail[i] == (head + tail)[head.len() + i]);
            }
            assert forall|i: int| 0 <= i < text.len() implies header_char_allowed(
                #[trigger] text[i],
            ) by {
                if i > 0 {
                    assert(text[i] == rest[i - 1]);
                }
            }
        }
        if header_text_allowed(text) {
            assert(header_char_allowed(text[0]));
            assert forall|i: int| 0 <= i < rest.len() implies header_char_allowed(
                #[trigger] rest[i],
            ) by {
                assert(rest[i] == text[i + 1]);
            }
            assert forall|i: int| 0 <= i < (head + tail).len() implies header_byte_allowed(
                #[trigger] (head + tail)[i],
            ) by {
                if i < head.len() {
                    assert((head + tail)[i] == head[i]);
                } else {
                    assert((head + tail)[i] == tail[i - head.len()]);
                }
            }
        }
    }
}

/// No text with a line break in it may stand in a header.
pub proof fn lemma_line_break_is_refused(text: Seq<char>, at: int)
    requires
        0 <= at < text.len(),
        text[at] == '\n' || text[at] == '\r',
    ensures
        !header_text_allowed(text),
{
    assert(!header_char_allowed(text[at]));
}

} // verus!
