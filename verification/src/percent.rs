//! Percent-decoding of URL text.

use vstd::prelude::*;
use vstd::utf8::*;

verus! {

/// The value of an ASCII hexadecimal digit, of either letter case.
pub open spec fn hex_digit_value(b: u8) -> Option<u8> {
    if 0x30 <= b <= 0x39 {
        Some((b - 0x30) as u8)
    } else if 0x41 <= b <= 0x46 {
        Some((b - 0x41 + 10) as u8)
    } else if 0x61 <= b <= 0x66 {
        Some((b - 0x61 + 10) as u8)
    } else {
        None
    }
}

/// Whether `bytes` starts with `%` and two hexadecimal digits.
pub open spec fn starts_with_escape(bytes: Seq<u8>) -> bool {
    &&& bytes.len() >= 3
    &&& bytes[0] == 0x25
    &&& hex_digit_value(bytes[1]) is Some
    &&& hex_digit_value(bytes[2]) is Some
}

/// The percent-decoding of `bytes`: each `%` that two hexadecimal digits
/// follow stands for the byte that they write; every other byte, a `%`
/// without two such digits too, stands for itself.
pub open spec fn percent_decoded(bytes: Seq<u8>) -> Seq<u8>
    decreases bytes.len(),
{
    if bytes.len() == 0 {
        Seq::empty()
    } else if starts_with_escape(bytes) {
        seq![(hex_digit_value(bytes[1])->0 * 16 + hex_digit_value(bytes[2])->0) as u8]
            + percent_decoded(bytes.skip(3))
    } else {
        seq![bytes[0]] + percent_decoded(bytes.skip(1))
    }
}

/// The text that the percent-decoding of `s` writes in UTF-8, or `s` itself
/// where the decoded bytes are not UTF-8.
pub open spec fn decoded_text(s: Seq<char>) -> Seq<char> {
    let bytes = percent_decoded(encode_utf8(s));
    if valid_utf8(bytes) {
        decode_utf8(bytes)
    } else {
        s
    }
}

/// Bytes that hold no `%` stand for themselves.
pub proof fn lemma_percent_decoded_without_escape(bytes: Seq<u8>)
    requires
        !bytes.contains(0x25),
    ensures
        percent_decoded(bytes) == bytes,
    decreases bytes.len(),
{
    if bytes.len() > 0 {
        let rest = bytes.skip(1);
        assert(bytes[0] != 0x25);
        if rest.contains(0x25) {
            let i = choose|i: int| 0 <= i < rest.len() && rest[i] == 0x25;
            assert(bytes[i + 1] == 0x25);
        }
        lemma_percent_decoded_without_escape(rest);
        assert(seq![bytes[0]] + rest =~= bytes);
    } else {
        assert(percent_decoded(bytes) =~= bytes);
    }
}

/// A text whose bytes hold no `%` decodes to itself: decoding changes a
/// text only through its escapes.
pub proof fn lemma_decoded_text_without_escape(s: Seq<char>)
    requires
        !encode_utf8(s).contains(0x25),
    ensures
        decoded_text(s) == s,
{
    lemma_percent_decoded_without_escape(encode_utf8(s));
    encode_utf8_valid_utf8(s);
    encode_utf8_decode_utf8(s);
}

/// Calls `percent_encoding::percent_decode_str`, then `decode_utf8` on what
/// it returns. Believed: the first decodes the UTF-8 bytes of `input` as
/// `percent_decoded` says; the second gives the text that these bytes write
/// in UTF-8, and fails exactly when they are not UTF-8.
#[verifier::external_body]
pub(crate) fn percent_decode_utf8(input: &str) -> (r: Option<String>)
    ensures
        r is Some <==> valid_utf8(percent_decoded(encode_utf8(input@))),
        r matches Some(s) ==> s@ == decode_utf8(percent_decoded(encode_utf8(input@))),
{
    match percent_encoding::percent_decode_str(input).decode_utf8() {
        Ok(text) => Some(text.into_owned()),
        Err(_) => None,
    }
}

/// Percent-decodes `input`; where the decoded bytes are not UTF-8, the
/// result is `input` unchanged.
pub fn decode_if_encoded(input: &str) -> (r: String)
    ensures
        r@ == decoded_text(input@),
{
    match percent_decode_utf8(input) {
        Some(text) => text,
        None => input.to_owned(),
    }
}

} // verus!
