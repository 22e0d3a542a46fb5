//! The values of HTTP headers: which texts can be sent as one, and which
//! bytes that arrive in one are text.

use vstd::prelude::*;
use vstd::utf8::{
    char_is_scalar, char_u32_cast, encode_scalar, encode_utf8, has_width_1_encoding,
    leading_byte_width_1,
};

verus! {

/// A character that the value of a header may hold: a tab, or anything from
/// the space upwards but for the delete character.
pub open spec fn header_char(c: char) -> bool {
    c == '\t' || (c >= ' ' && c != '\x7f')
}

/// A text that can be sent as the value of a header.
pub open spec fn header_value(text: Seq<char>) -> bool {
    forall|i: int| 0 <= i < text.len() ==> header_char(#[trigger] text[i])
}

/// A byte that the value of a header may hold: a tab, or anything from 32
/// upwards but for 127.
pub open spec fn header_byte(b: u8) -> bool {
    (b >= 32 && b != 127) || b == 9
}

/// Only bytes that the value of a header may hold.
pub open spec fn header_bytes(bytes: Seq<u8>) -> bool {
    forall|i: int| 0 <= i < bytes.len() ==> header_byte(#[trigger] bytes[i])
}

/// A byte of visible ASCII, or a tab.
pub open spec fn visible_ascii(b: u8) -> bool {
    (32 <= b < 127) || b == 9
}

/// Only bytes of visible ASCII, and tabs.
pub open spec fn visible_text(bytes: Seq<u8>) -> bool {
    forall|i: int| 0 <= i < bytes.len() ==> visible_ascii(#[trigger] bytes[i])
}

/// The bytes that encode one character may all stand in the value of a
/// header exactly when the character may: a character of ASCII is its own
/// byte, and any other is encoded in bytes of 128 and more.
pub proof fn encoded_char_is_header_char(c: char)
    ensures
        header_bytes(encode_scalar(c as u32)) == header_char(c),
{
    let v = c as u32;
    let bytes = encode_scalar(v);
    char_is_scalar(c);
    if has_width_1_encoding(v) {
        assert(leading_byte_width_1(v) == v) by (bit_vector)
            requires
                0 <= v <= 0x7F,
        ;
        assert(bytes[0] == v);
        if header_char(c) {
            assert forall|i: int| 0 <= i < bytes.len() implies header_byte(#[trigger] bytes[i]) by {
                assert(bytes[i] == bytes[0]);
            }
        }
    } else {
        assert(forall|x: u8| #![auto] (0x80u8 | x) >= 0x80) by (bit_vector);
        assert(forall|x: u8| #![auto] (0xC0u8 | x) >= 0x80) by (bit_vector);
        assert(forall|x: u8| #![auto] (0xE0u8 | x) >= 0x80) by (bit_vector);
        assert(forall|x: u8| #![auto] (0xF0u8 | x) >= 0x80) by (bit_vector);
        assert(v >= 0x80);
        assert forall|i: int| 0 <= i < bytes.len() implies header_byte(#[trigger] bytes[i]) by {
            assert(bytes[i] >= 0x80);
        }
    }
}

/// A text can be the value of a header exactly when every byte of its
/// encoding can stand in one.
pub proof fn encoded_text_is_header_value(text: Seq<char>)
    ensures
        header_bytes(encode_utf8(text)) == header_value(text),
    decreases text.len(),
{
    if text.len() > 0 {
        let head = encode_scalar(text[0] as u32);
        let tail = encode_utf8(text.drop_first());
        encoded_char_is_header_char(text[0]);
        encoded_text_is_header_value(text.drop_first());
        assert(encode_utf8(text) == head + tail);
        if header_bytes(head) && header_bytes(tail) {
            assert forall|i: int| 0 <= i < (head + tail).len() implies header_byte(
                #[trigger] (head + tail)[i],
            ) by {
                if i < head.len() {
                    assert((head + tail)[i] == head[i]);
                } else {
                    assert((head + tail)[i] == tail[i - head.len()]);
                }
            }
        }
        if header_bytes(head + tail) {
            assert forall|i: int| 0 <= i < head.len() implies header_byte(#[trigger] head[i]) by {
                assert(head[i] == (head + tail)[i]);
            }
            assert forall|i: int| 0 <= i < tail.len() implies header_byte(#[trigger] tail[i]) by {
                assert(tail[i] == (head + tail)[i + head.len()]);
            }
        }
        if header_value(text) {
            assert(header_char(text[0]));
            assert forall|i: int| 0 <= i < text.drop_first().len() implies header_char(
                #[trigger] text.drop_first()[i],
            ) by {
                assert(text.drop_first()[i] == text[i + 1]);
            }
        }
        if header_char(text[0]) && header_value(text.drop_first()) {
            assert forall|i: int| 0 <= i < text.len() implies header_char(#[trigger] text[i]) by {
                if i > 0 {
                    assert(text[i] == text.drop_first()[i - 1]);
                }
            }
        }
    }
}

#[verifier::external_type_specification]
#[verifier::external_body]
pub struct ExInvalidHeaderValue(reqwest::header::InvalidHeaderValue);

/// Checks with `reqwest::header::HeaderValue::from_str` that a text can be
/// the value of a header.
///
/// Trusted: the call succeeds exactly when every byte of the text, as it is
/// encoded, is a tab or at least 32 and not 127.
#[verifier::external_body]
pub(crate) fn check_header_value(text: &str) -> (checked: Result<(), reqwest::header::InvalidHeaderValue>)
    ensures
        checked.is_ok() == header_bytes(encode_utf8(text@)),
{
    reqwest::header::HeaderValue::from_str(text).map(|_| ())
}

/// Reads the bytes of a header's value as text, with
/// `reqwest::header::HeaderValue::to_str`.
///
/// Trusted: there is a text exactly when every byte is visible ASCII or a
/// tab, and the text is then the given bytes, left as they are.
#[verifier::external_body]
pub(crate) fn header_text(bytes: &[u8]) -> (text: Option<String>)
    ensures
        text.is_some() == visible_text(bytes@),
        text matches Some(t) ==> encode_utf8(t@) == bytes@,
{
    match reqwest::header::HeaderValue::from_bytes(bytes) {
        Ok(value) => value.to_str().ok().map(|text| text.to_owned()),
        Err(_) => None,
    }
}

/// The characters that bytes of ASCII stand for, one per byte.
pub open spec fn ascii_text(bytes: Seq<u8>) -> Seq<char> {
    bytes.map_values(|b: u8| b as char)
}

/// A text whose encoding holds bytes below 128 only has one character per
/// byte, the character that the byte stands for.
pub proof fn ascii_encoding_is_its_text(text: Seq<char>)
    requires
        forall|i: int| 0 <= i < encode_utf8(text).len() ==> (#[trigger] encode_utf8(text)[i]) < 0x80,
    ensures
        text == ascii_text(encode_utf8(text)),
    decreases text.len(),
{
    if text.len() == 0 {
        assert(text =~= ascii_text(encode_utf8(text)));
    } else {
        let c = text[0];
        let v = c as u32;
        let head = encode_scalar(v);
        let tail = encode_utf8(text.drop_first());
        let bytes = encode_utf8(text);
        assert(bytes == head + tail);
        char_is_scalar(c);
        assert(bytes[0] == head[0]);
        if !has_width_1_encoding(v) {
            assert(forall|x: u8| #![auto] (0xC0u8 | x) >= 0x80) by (bit_vector);
            assert(forall|x: u8| #![auto] (0xE0u8 | x) >= 0x80) by (bit_vector);
            assert(forall|x: u8| #![auto] (0xF0u8 | x) >= 0x80) by (bit_vector);
            assert(head[0] >= 0x80);
        }
        assert(leading_byte_width_1(v) == v) by (bit_vector)
            requires
                0 <= v <= 0x7F,
        ;
        assert(head =~= seq![v as u8]);
        assert forall|i: int| 0 <= i < tail.len() implies (#[trigger] tail[i]) < 0x80 by {
            assert(tail[i] == bytes[i + 1]);
        }
        ascii_encoding_is_its_text(text.drop_first());
        assert forall|i: int| 0 <= i < text.len() implies text[i] == ascii_text(bytes)[i] by {
            if i == 0 {
                char_u32_cast(c, v);
                assert(bytes[0] as u32 == v);
            } else {
                assert(text[i] == text.drop_first()[i - 1]);
                assert(bytes[i] == tail[i - 1]);
            }
        }
        assert(text =~= ascii_text(bytes));
    }
}

} // verus!
