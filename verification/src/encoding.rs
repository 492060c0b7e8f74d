//! The `application/x-www-form-urlencoded` byte serializer, as used for the
//! values of a URL's query parameters.

use vstd::prelude::*;
use vstd::string::*;
use vstd::utf8::*;
use crate::text::push_char;

verus! {

/// Bytes that the serializer copies through: `*`, `-`, `.`, `_`, the ASCII
/// digits and the ASCII letters.
pub open spec fn is_unreserved(b: u8) -> bool {
    b == 0x2a || b == 0x2d || b == 0x2e || b == 0x5f || (0x30 <= b <= 0x39) || (0x41 <= b
        <= 0x5a) || (0x61 <= b <= 0x7a)
}

/// The upper-case hexadecimal digit for a value below sixteen.
pub open spec fn hex_char(n: u8) -> char
    recommends
        n < 16,
{
    if n < 10 {
        ((0x30 + n) as u8) as char
    } else {
        ((0x37 + n) as u8) as char
    }
}

/// What one byte becomes: itself, `+` for a space, or `%` and two
/// hexadecimal digits.
pub open spec fn encoded_byte(b: u8) -> Seq<char> {
    if is_unreserved(b) {
        seq![b as char]
    } else if b == 0x20 {
        seq!['+']
    } else {
        seq!['%', hex_char(b / 16), hex_char(b % 16)]
    }
}

/// The encodings of the bytes, one after the other.
pub open spec fn encoded_bytes(bytes: Seq<u8>) -> Seq<char>
    decreases bytes.len(),
{
    if bytes.len() == 0 {
        Seq::empty()
    } else {
        encoded_bytes(bytes.drop_last()) + encoded_byte(bytes.last())
    }
}

/// The form encoding of a text: that of its UTF-8 bytes.
pub open spec fn form_encoded(text: Seq<char>) -> Seq<char> {
    encoded_bytes(encode_utf8(text))
}

/// Characters that can occur in encoded text: `+`, `%` and the characters
/// of the bytes that are copied through.
pub open spec fn is_form_char(c: char) -> bool {
    c == '+' || c == '%' || c == '*' || c == '-' || c == '.' || c == '_' || ('0' <= c <= '9')
        || ('A' <= c <= 'Z') || ('a' <= c <= 'z')
}

/// A character that the encoding leaves as it is.
pub open spec fn is_plain_char(c: char) -> bool {
    is_form_char(c) && c != '+' && c != '%'
}

/// The value of a hexadecimal digit as `hex_char` writes it.
pub open spec fn hex_value(c: char) -> int {
    if '0' <= c <= '9' {
        c as int - 0x30
    } else {
        c as int - 0x37
    }
}

/// The bytes that an encoded text stands for: `%` and two digits are one
/// byte, `+` is a space, any other character is its own byte.
pub open spec fn form_decoded(text: Seq<char>) -> Seq<u8>
    decreases text.len(),
{
    if text.len() == 0 {
        Seq::empty()
    } else if text[0] == '%' && text.len() >= 3 {
        seq![(hex_value(text[1]) * 16 + hex_value(text[2])) as u8] + form_decoded(text.skip(3))
    } else if text[0] == '+' {
        seq![0x20u8] + form_decoded(text.skip(1))
    } else {
        seq![text[0] as u8] + form_decoded(text.skip(1))
    }
}

fn unreserved(b: u8) -> (r: bool)
    ensures
        r == is_unreserved(b),
{
    b == 0x2a || b == 0x2d || b == 0x2e || b == 0x5f || (0x30 <= b && b <= 0x39) || (0x41 <= b
        && b <= 0x5a) || (0x61 <= b && b <= 0x7a)
}

fn hex_digit(n: u8) -> (c: char)
    requires
        n < 16,
    ensures
        c == hex_char(n),
{
    if n < 10 {
        (0x30 + n) as char
    } else {
        (0x37 + n) as char
    }
}

/// Encodes `text` for use as a name or value in a query string.
pub fn form_encode(text: &str) -> (out: String)
    ensures
        out@ == form_encoded(text@),
{
    let bytes = text.as_bytes();
    let mut out = String::new();
    let mut i: usize = 0;
    while i < bytes.len()
        invariant
            i <= bytes.len(),
            bytes@ == encode_utf8(text@),
            out@ == encoded_bytes(bytes@.take(i as int)),
        decreases bytes.len() - i,
    {
        let b = bytes[i];
        proof {
            assert(bytes@.take(i + 1).drop_last() =~= bytes@.take(i as int));
            assert(bytes@.take(i + 1).last() == b);
        }
        if unreserved(b) {
            push_char(&mut out, b as char);
        } else if b == 0x20 {
            push_char(&mut out, '+');
        } else {
            push_char(&mut out, '%');
            push_char(&mut out, hex_digit(b / 16));
            push_char(&mut out, hex_digit(b % 16));
        }
        assert(out@ =~= encoded_bytes(bytes@.take(i as int)) + encoded_byte(b));
        i = i + 1;
    }
    proof {
        assert(bytes@.take(bytes@.len() as int) =~= bytes@);
    }
    out
}

/// Encoding a concatenation gives the concatenation of the encodings.
pub proof fn lemma_encoded_concat(front: Seq<u8>, back: Seq<u8>)
    ensures
        encoded_bytes(front + back) == encoded_bytes(front) + encoded_bytes(back),
    decreases back.len(),
{
    if back.len() == 0 {
        assert(front + back =~= front);
        assert(encoded_bytes(front) + encoded_bytes(back) =~= encoded_bytes(front));
    } else {
        assert((front + back).drop_last() =~= front + back.drop_last());
        assert((front + back).last() == back.last());
        lemma_encoded_concat(front, back.drop_last());
        assert(encoded_bytes(front + back) =~= encoded_bytes(front) + encoded_bytes(back));
    }
}

/// Encoded text holds nothing but `+`, `%` and unreserved characters, so
/// none of the characters that structure a URL.
pub proof fn lemma_encoded_chars(bytes: Seq<u8>)
    ensures
        forall|i: int|
            0 <= i < encoded_bytes(bytes).len() ==> is_form_char(#[trigger] encoded_bytes(bytes)[i]),
    decreases bytes.len(),
{
    if bytes.len() > 0 {
        lemma_encoded_chars(bytes.drop_last());
        let front = encoded_bytes(bytes.drop_last());
        let back = encoded_byte(bytes.last());
        assert forall|i: int| 0 <= i < encoded_bytes(bytes).len() implies is_form_char(
            #[trigger] encoded_bytes(bytes)[i],
        ) by {
            if i < front.len() {
                assert(encoded_bytes(bytes)[i] == front[i]);
            } else {
                assert(encoded_bytes(bytes)[i] == back[i - front.len()]);
            }
        }
    }
}

/// Decoding gives back the bytes that were encoded.
pub proof fn lemma_decode_inverts_encode(bytes: Seq<u8>)
    ensures
        form_decoded(encoded_bytes(bytes)) == bytes,
    decreases bytes.len(),
{
    if bytes.len() > 0 {
        let b = bytes[0];
        let rest = bytes.drop_first();
        assert(bytes =~= seq![b] + rest);
        lemma_encoded_concat(seq![b], rest);
        assert(seq![b].drop_last() =~= Seq::<u8>::empty());
        assert(encoded_bytes(seq![b].drop_last()) =~= Seq::<char>::empty());
        assert(seq![b].last() == b);
        assert(encoded_bytes(seq![b]) =~= encoded_byte(b));
        lemma_decode_inverts_encode(rest);
        let text = encoded_byte(b) + encoded_bytes(rest);
        assert(encoded_bytes(bytes) == text);
        if is_unreserved(b) {
            assert(text.skip(1) =~= encoded_bytes(rest));
            assert(text[0] == b as char);
        } else if b == 0x20 {
            assert(text.skip(1) =~= encoded_bytes(rest));
        } else {
            assert(text.skip(3) =~= encoded_bytes(rest));
            assert(hex_value(hex_char(b / 16)) == b / 16);
            assert(hex_value(hex_char(b % 16)) == b % 16);
            assert(text[1] == hex_char(b / 16));
            assert(text[2] == hex_char(b % 16));
        }
        assert(form_decoded(text) =~= seq![b] + rest);
    } else {
        assert(encoded_bytes(bytes) =~= Seq::<char>::empty());
    }
}

/// The encoding loses nothing: two texts with the same encoding are the
/// same text.
pub proof fn lemma_form_encoding_is_injective(left: Seq<char>, right: Seq<char>)
    requires
        form_encoded(left) == form_encoded(right),
    ensures
        left == right,
{
    lemma_decode_inverts_encode(encode_utf8(left));
    lemma_decode_inverts_encode(encode_utf8(right));
    encode_utf8_decode_utf8(left);
    encode_utf8_decode_utf8(right);
}

/// A text of unreserved characters is its own encoding.
pub proof fn lemma_plain_text_unchanged(text: Seq<char>)
    requires
        forall|i: int| 0 <= i < text.len() ==> is_plain_char(#[trigger] text[i]),
    ensures
        form_encoded(text) == text,
{
    assert(is_ascii_chars(text));
    is_ascii_chars_encode_utf8(text);
    let bytes = encode_utf8(text);
    lemma_plain_bytes(bytes, text);
}

proof fn lemma_plain_bytes(bytes: Seq<u8>, text: Seq<char>)
    requires
        bytes.len() == text.len(),
        forall|i: int| 0 <= i < text.len() ==> is_plain_char(#[trigger] text[i]) && text[i] as u8 == bytes[i],
    ensures
        encoded_bytes(bytes) == text,
    decreases bytes.len(),
{
    if bytes.len() > 0 {
        lemma_plain_bytes(bytes.drop_last(), text.drop_last());
        let n = bytes.len() - 1;
        assert(is_plain_char(text[n]));
        assert(is_unreserved(bytes[n]));
        assert(bytes[n] as char == text[n]);
        assert(encoded_bytes(bytes) =~= text);
    } else {
        assert(encoded_bytes(bytes) =~= text);
    }
}

} // verus!
