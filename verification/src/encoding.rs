//! The `application/x-www-form-urlencoded` encoding of query parameters.

use vstd::prelude::*;
use vstd::utf8::{
    decode_utf8, encode_utf8, encode_utf8_decode_utf8, is_ascii_chars, is_ascii_chars_encode_utf8,
};

verus! {

/// The bytes that the encoding leaves as they are: ASCII letters and digits
/// and the four marks `*`, `-`, `.` and `_`.
pub open spec fn is_plain_byte(b: u8) -> bool {
    ||| 0x30 <= b <= 0x39
    ||| 0x41 <= b <= 0x5a
    ||| 0x61 <= b <= 0x7a
    ||| b == 0x2a
    ||| b == 0x2d
    ||| b == 0x2e
    ||| b == 0x5f
}

/// The upper-case hexadecimal digit for a value below sixteen.
pub open spec fn hex_digit(n: int) -> char {
    seq!['0', '1', '2', '3', '4', '5', '6', '7', '8', '9', 'A', 'B', 'C', 'D', 'E', 'F'][n]
}

/// What one byte becomes: itself where it is plain, `+` for a space, and
/// otherwise `%` followed by its two hexadecimal digits.
pub open spec fn encoded_byte(b: u8) -> Seq<char> {
    if is_plain_byte(b) {
        seq![b as char]
    } else if b == 0x20 {
        seq!['+']
    } else {
        seq!['%', hex_digit(b as int / 16), hex_digit(b as int % 16)]
    }
}

/// The encoding of a byte string: the encodings of its bytes, in order.
pub open spec fn encoded_bytes(bytes: Seq<u8>) -> Seq<char>
    decreases bytes.len(),
{
    if bytes.len() == 0 {
        Seq::empty()
    } else {
        encoded_bytes(bytes.drop_last()) + encoded_byte(bytes.last())
    }
}

/// The encoding of a text: that of its UTF-8 bytes.
pub open spec fn form_encoded(text: Seq<char>) -> Seq<char> {
    encoded_bytes(encode_utf8(text))
}

/// The characters that stand for themselves in an encoded text.
pub open spec fn is_plain_char(c: char) -> bool {
    '\0' <= c <= '\u{7f}' && is_plain_byte(c as u8)
}

/// A text made of plain characters only.
pub open spec fn is_plain_text(text: Seq<char>) -> bool {
    forall|i: int| 0 <= i < text.len() ==> is_plain_char(#[trigger] text[i])
}

/// The encoding works byte by byte: that of two byte strings joined is the
/// two encodings joined.
pub proof fn lemma_encoded_bytes_concat(a: Seq<u8>, b: Seq<u8>)
    ensures
        encoded_bytes(a + b) == encoded_bytes(a) + encoded_bytes(b),
    decreases b.len(),
{
    if b.len() == 0 {
        assert(a + b == a);
    } else {
        lemma_encoded_bytes_concat(a, b.drop_last());
        assert((a + b).drop_last() == a + b.drop_last());
        assert((a + b).last() == b.last());
    }
}

/// Plain bytes encode to the characters with the same codes.
proof fn lemma_plain_bytes_unchanged(bytes: Seq<u8>)
    requires
        forall|i: int| 0 <= i < bytes.len() ==> is_plain_byte(#[trigger] bytes[i]),
    ensures
        encoded_bytes(bytes) == Seq::new(bytes.len(), |i: int| bytes[i] as char),
    decreases bytes.len(),
{
    if bytes.len() > 0 {
        lemma_plain_bytes_unchanged(bytes.drop_last());
    }
}

/// A text of letters, digits and the marks `*`, `-`, `.`, `_` is its own
/// encoding.
pub proof fn lemma_plain_text_unchanged(text: Seq<char>)
    requires
        is_plain_text(text),
    ensures
        form_encoded(text) == text,
{
    assert(is_ascii_chars(text)) by {
        assert forall|i: int| 0 <= i < text.len() implies '\0' <= #[trigger] text[i] <= '\u{7f}' by {
            assert(is_plain_char(text[i]));
        }
    }
    is_ascii_chars_encode_utf8(text);
    let bytes = encode_utf8(text);
    assert forall|i: int| 0 <= i < bytes.len() implies is_plain_byte(#[trigger] bytes[i]) by {
        assert(is_plain_char(text[i]));
    }
    lemma_plain_bytes_unchanged(bytes);
    assert forall|i: int| 0 <= i < text.len() implies bytes[i] as char == text[i] by {
        assert(is_plain_char(text[i]));
    }
}

/// The characters that an encoded text can hold: the plain ones, `+` and
/// `%`.
pub open spec fn is_encoded_char(c: char) -> bool {
    is_plain_char(c) || c == '+' || c == '%'
}

/// An encoded text holds nothing but plain characters, `+` and `%`; so it
/// holds none of `&`, `=`, `?` and `#`, which frame a query string.
pub proof fn lemma_encoded_is_safe(bytes: Seq<u8>)
    ensures
        forall|i: int|
            0 <= i < encoded_bytes(bytes).len() ==> is_encoded_char(
                #[trigger] encoded_bytes(bytes)[i],
            ),
    decreases bytes.len(),
{
    if bytes.len() > 0 {
        lemma_encoded_is_safe(bytes.drop_last());
        let head = encoded_bytes(bytes.drop_last());
        let b = bytes.last();
        let tail = encoded_byte(b);
        assert forall|k: int| 0 <= k < tail.len() implies is_encoded_char(#[trigger] tail[k]) by {
            if is_plain_byte(b) {
                assert(tail[k] == b as char);
            } else if b == 0x20 {
            } else {
                lemma_hex_digit_is_plain(b as int / 16);
                lemma_hex_digit_is_plain(b as int % 16);
            }
        }
        assert forall|i: int| 0 <= i < encoded_bytes(bytes).len() implies is_encoded_char(
            #[trigger] encoded_bytes(bytes)[i],
        ) by {
            if i < head.len() {
                assert(encoded_bytes(bytes)[i] == head[i]);
            } else {
                assert(encoded_bytes(bytes)[i] == tail[i - head.len()]);
            }
        }
    }
}

/// A hexadecimal digit is a plain character.
proof fn lemma_hex_digit_is_plain(n: int)
    requires
        0 <= n < 16,
    ensures
        is_plain_char(hex_digit(n)),
{
}

/// The value of a hexadecimal digit; zero for any other character.
pub open spec fn hex_value(c: char) -> int {
    if '0' <= c <= '9' {
        c as u32 - 0x30
    } else if 'A' <= c <= 'F' {
        c as u32 - 0x41 + 10
    } else if 'a' <= c <= 'f' {
        c as u32 - 0x61 + 10
    } else {
        0
    }
}

/// The bytes that a reader of the encoding recovers from a text: `+` gives
/// a space, `%` and two digits give the byte they spell, and every other
/// character gives its own code.
pub open spec fn decoded_bytes(text: Seq<char>) -> Seq<u8>
    decreases text.len(),
{
    if text.len() == 0 {
        Seq::empty()
    } else if text[0] == '%' && text.len() >= 3 {
        seq![(hex_value(text[1]) * 16 + hex_value(text[2])) as u8] + decoded_bytes(text.skip(3))
    } else if text[0] == '+' {
        seq![0x20u8] + decoded_bytes(text.skip(1))
    } else {
        seq![text[0] as u8] + decoded_bytes(text.skip(1))
    }
}

/// The text that a reader of the encoding recovers.
pub open spec fn form_decoded(text: Seq<char>) -> Seq<char> {
    decode_utf8(decoded_bytes(text))
}

/// A digit spells its own value.
proof fn lemma_hex_value_of_digit(n: int)
    requires
        0 <= n < 16,
    ensures
        hex_value(hex_digit(n)) == n,
{
}

/// Reading one encoded byte in front of a text gives the byte, followed by
/// what the rest of the text gives.
proof fn lemma_decode_one(b: u8, rest: Seq<char>)
    ensures
        decoded_bytes(encoded_byte(b) + rest) == seq![b] + decoded_bytes(rest),
{
    let text = encoded_byte(b) + rest;
    if is_plain_byte(b) {
        assert(text[0] == b as char);
        assert(text.skip(1) == rest);
        assert(text[0] as u8 == b);
    } else if b == 0x20 {
        assert(text[0] == '+');
        assert(text.skip(1) == rest);
    } else {
        lemma_hex_value_of_digit(b as int / 16);
        lemma_hex_value_of_digit(b as int % 16);
        assert(text[0] == '%');
        assert(text[1] == hex_digit(b as int / 16));
        assert(text[2] == hex_digit(b as int % 16));
        assert(text.skip(3) == rest);
    }
}

/// Reading an encoded byte string gives back the bytes.
pub proof fn lemma_decoding_recovers_bytes(bytes: Seq<u8>)
    ensures
        decoded_bytes(encoded_bytes(bytes)) == bytes,
    decreases bytes.len(),
{
    if bytes.len() > 0 {
        let first = seq![bytes[0]];
        let rest = bytes.skip(1);
        assert(bytes == first + rest);
        lemma_encoded_bytes_concat(first, rest);
        assert(first.drop_last() == Seq::<u8>::empty());
        assert(encoded_bytes(first) == encoded_byte(bytes[0])) by {
            assert(encoded_bytes(first.drop_last()) == Seq::<char>::empty());
            assert(Seq::<char>::empty() + encoded_byte(bytes[0]) == encoded_byte(bytes[0]));
        }
        lemma_decode_one(bytes[0], encoded_bytes(rest));
        lemma_decoding_recovers_bytes(rest);
    }
}

/// Reading an encoded text gives back the text: the value that arrives is
/// the value that was sent.
pub proof fn lemma_decoding_recovers_text(text: Seq<char>)
    ensures
        form_decoded(form_encoded(text)) == text,
{
    lemma_decoding_recovers_bytes(encode_utf8(text));
    encode_utf8_decode_utf8(text);
}

/// Two texts with the same encoding are the same text.
pub proof fn lemma_encoding_is_injective(a: Seq<char>, b: Seq<char>)
    requires
        form_encoded(a) == form_encoded(b),
    ensures
        a == b,
{
    lemma_decoding_recovers_text(a);
    lemma_decoding_recovers_text(b);
}

/// Encodes `text` with `form_urlencoded::byte_serialize` and joins the
/// pieces that its iterator yields.
///
/// Trusted: that crate walks the UTF-8 bytes of its input from left to
/// right, hands runs of plain bytes through unchanged, yields `+` for a
/// space and the three characters of `percent_encode_byte` for any other
/// byte. The contract says exactly that, byte by byte.
#[verifier::external_body]
pub(crate) fn form_encode(text: &str) -> (out: String)
    ensures
        out@ == form_encoded(text@),
{
    form_urlencoded::byte_serialize(text.as_bytes()).collect()
}

} // verus!
