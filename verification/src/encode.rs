//! Percent-encoding of URL path segments.

use vstd::prelude::*;
use vstd::string::*;
use vstd::utf8::*;

verus! {

/// `String::push` appends one character to the end of the string.
pub assume_specification[ String::push ](s: &mut String, c: char)
    ensures
        final(s)@ == old(s)@.push(c),
;

/// The bytes that stand for themselves in an encoded path segment: ASCII
/// letters, digits, and `-`, `.`, `_`, `~`.
pub open spec fn is_unreserved(b: u8) -> bool {
    ||| 0x41 <= b <= 0x5A
    ||| 0x61 <= b <= 0x7A
    ||| 0x30 <= b <= 0x39
    ||| b == 0x2D
    ||| b == 0x2E
    ||| b == 0x5F
    ||| b == 0x7E
}

/// The upper-case hexadecimal digit for a value below sixteen.
pub open spec fn hex_upper(n: int) -> char {
    if n < 10 {
        (0x30 + n) as u8 as char
    } else {
        (0x37 + n) as u8 as char
    }
}

/// The escape for one byte: `%` and the byte's two hexadecimal digits.
pub open spec fn escaped_byte(b: u8) -> Seq<char> {
    seq!['%', hex_upper(b as int / 16), hex_upper(b as int % 16)]
}

/// What one byte of a path segment becomes.
pub open spec fn path_byte(b: u8) -> Seq<char> {
    if is_unreserved(b) {
        seq![b as char]
    } else {
        escaped_byte(b)
    }
}

/// The encoding of a byte string, byte by byte.
pub open spec fn path_bytes(bytes: Seq<u8>) -> Seq<char>
    decreases bytes.len(),
{
    if bytes.len() == 0 {
        Seq::empty()
    } else {
        path_bytes(bytes.drop_last()) + path_byte(bytes.last())
    }
}

/// The encoded form of a path segment: the encoding of its UTF-8 bytes.
pub open spec fn path_encoded(segment: Seq<char>) -> Seq<char> {
    path_bytes(encode_utf8(segment))
}

fn unreserved(b: u8) -> (r: bool)
    ensures
        r == is_unreserved(b),
{
    (0x41 <= b && b <= 0x5A) || (0x61 <= b && b <= 0x7A) || (0x30 <= b && b <= 0x39) || b == 0x2D
        || b == 0x2E || b == 0x5F || b == 0x7E
}

fn hex_digit(n: u8) -> (c: char)
    requires
        n < 16,
    ensures
        c == hex_upper(n as int),
{
    if n < 10 {
        (0x30 + n) as char
    } else {
        (0x37 + n) as char
    }
}

/// Appends `%` and the two hexadecimal digits of `b` to `out`.
pub fn push_escaped(out: &mut String, b: u8)
    ensures
        final(out)@ == old(out)@ + escaped_byte(b),
{
    out.push('%');
    out.push(hex_digit(b / 16));
    out.push(hex_digit(b % 16));
}

/// Percent-encodes one path segment, so that it can be embedded between two
/// `/` of a URL path whatever it holds.
pub fn encode_path(segment: &str) -> (out: String)
    ensures
        out@ == path_encoded(segment@),
{
    let bytes = segment.as_bytes();
    let mut out = String::new();
    let mut i: usize = 0;
    while i < bytes.len()
        invariant
            i <= bytes.len(),
            out@ == path_bytes(bytes@.subrange(0, i as int)),
        decreases bytes.len() - i,
    {
        let b = bytes[i];
        assert(bytes@.subrange(0, i + 1).drop_last() == bytes@.subrange(0, i as int));
        if unreserved(b) {
            out.push(b as char);
        } else {
            push_escaped(&mut out, b);
        }
        i += 1;
    }
    assert(bytes@.subrange(0, i as int) == bytes@);
    out
}

/// Whether a character is one of the unreserved ASCII characters.
pub open spec fn is_unreserved_char(c: char) -> bool {
    (c as u32) < 128 && is_unreserved(c as u8)
}

/// Whether a character is an upper-case hexadecimal digit.
pub open spec fn is_hex_upper(c: char) -> bool {
    0x30 <= (c as u32) <= 0x39 || 0x41 <= (c as u32) <= 0x46
}

/// A text that can stand in a URL path as one segment: each of its
/// characters is unreserved, or is a `%` with two hexadecimal digits behind
/// it.
pub open spec fn is_escaped_text(text: Seq<char>) -> bool {
    forall|i: int|
        0 <= i < text.len() ==> is_unreserved_char(#[trigger] text[i]) || (text[i] == '%' && i + 2
            < text.len() && is_hex_upper(text[i + 1]) && is_hex_upper(text[i + 2]))
}

/// The value of a hexadecimal digit.
pub open spec fn hex_value(c: char) -> int {
    if (c as u32) <= 0x39 {
        (c as u32) - 0x30
    } else {
        (c as u32) - 0x37
    }
}

/// The bytes that an encoded text stands for: an escape gives the byte it
/// names, any other character its own code.
pub open spec fn percent_decoded(text: Seq<char>) -> Seq<u8>
    decreases text.len(),
{
    if text.len() == 0 {
        Seq::empty()
    } else if text[0] == '%' && text.len() >= 3 {
        seq![(hex_value(text[1]) * 16 + hex_value(text[2])) as u8] + percent_decoded(text.skip(3))
    } else {
        seq![text[0] as u8] + percent_decoded(text.skip(1))
    }
}

/// The encoding of a byte string is the encoding of its parts, one after the
/// other.
pub proof fn lemma_path_bytes_concat(front: Seq<u8>, back: Seq<u8>)
    ensures
        path_bytes(front + back) == path_bytes(front) + path_bytes(back),
    decreases back.len(),
{
    if back.len() == 0 {
        assert(front + back == front);
    } else {
        assert((front + back).drop_last() == front + back.drop_last());
        lemma_path_bytes_concat(front, back.drop_last());
    }
}

/// The encoding of a byte string contains nothing but unreserved characters
/// and complete escapes.
pub proof fn lemma_path_bytes_escaped(bytes: Seq<u8>)
    ensures
        is_escaped_text(path_bytes(bytes)),
    decreases bytes.len(),
{
    if bytes.len() > 0 {
        let front = path_bytes(bytes.drop_last());
        let text = path_bytes(bytes);
        lemma_path_bytes_escaped(bytes.drop_last());
        assert forall|i: int| 0 <= i < text.len() implies is_unreserved_char(#[trigger] text[i])
            || (text[i] == '%' && i + 2 < text.len() && is_hex_upper(text[i + 1]) && is_hex_upper(
            text[i + 2],
        )) by {
            if i < front.len() {
                assert(text[i] == front[i]);
                if !is_unreserved_char(front[i]) {
                    assert(text[i + 1] == front[i + 1]);
                    assert(text[i + 2] == front[i + 2]);
                }
            }
        }
    }
}

/// Decoding the encoding of one byte, with anything behind it, gives the
/// byte back and goes on behind it.
pub proof fn lemma_decode_path_byte(b: u8, rest: Seq<char>)
    ensures
        percent_decoded(path_byte(b) + rest) == seq![b] + percent_decoded(rest),
{
    let text = path_byte(b) + rest;
    if is_unreserved(b) {
        assert(text.skip(1) == rest);
    } else {
        assert(text.skip(3) == rest);
    }
}

/// Decoding the encoding of a byte string gives the byte string back.
pub proof fn lemma_decode_path_bytes(bytes: Seq<u8>)
    ensures
        percent_decoded(path_bytes(bytes)) == bytes,
    decreases bytes.len(),
{
    if bytes.len() > 0 {
        let rest = bytes.skip(1);
        assert(bytes == seq![bytes[0]] + rest);
                let first = seq![bytes[0]];
        assert(path_bytes(first) == path_byte(bytes[0])) by {
            assert(first.drop_last() == Seq::<u8>::empty());
            assert(path_bytes(first.drop_last()) == Seq::<char>::empty());
            assert(path_bytes(first) == path_bytes(first.drop_last()) + path_byte(first.last()));
        }
        lemma_path_bytes_concat(first, rest);
        lemma_decode_path_byte(bytes[0], path_bytes(rest));
        lemma_decode_path_bytes(rest);
    }
}

/// An encoded path segment holds no reserved character and no space: each
/// of its characters is an ASCII letter, a digit, one of `-._~`, or the `%`
/// of an escape with its two hexadecimal digits. So no `/`, `?` or `#` of the
/// segment can be taken for a delimiter of the URL.
pub proof fn lemma_encoded_path_has_no_reserved(segment: Seq<char>)
    ensures
        is_escaped_text(path_encoded(segment)),
{
    lemma_path_bytes_escaped(encode_utf8(segment));
}

/// Nothing is lost in encoding: the escapes of an encoded segment, read back
/// as bytes and as UTF-8, give the segment.
pub proof fn lemma_encoded_path_decodes(segment: Seq<char>)
    ensures
        percent_decoded(path_encoded(segment)) == encode_utf8(segment),
        decode_utf8(percent_decoded(path_encoded(segment))) == segment,
{
    lemma_decode_path_bytes(encode_utf8(segment));
    encode_utf8_decode_utf8(segment);
}

/// Two segments with the same encoding are the same segment.
pub proof fn lemma_encoded_path_is_injective(a: Seq<char>, b: Seq<char>)
    requires
        path_encoded(a) == path_encoded(b),
    ensures
        a == b,
{
    lemma_encoded_path_decodes(a);
    lemma_encoded_path_decodes(b);
}

} // verus!
