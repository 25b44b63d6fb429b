//! Percent-encoding of query and path components.

use vstd::prelude::*;
use vstd::utf8::*;

verus! {

/// Whether a byte stands for itself in an encoded component.
pub open spec fn is_unreserved(b: u8) -> bool {
    ||| 0x41 <= b <= 0x5a
    ||| 0x61 <= b <= 0x7a
    ||| 0x30 <= b <= 0x39
    ||| b == 0x2d
    ||| b == 0x5f
    ||| b == 0x2e
    ||| b == 0x7e
}

/// The upper-case hexadecimal digit with value `d`.
pub open spec fn hex_digit(d: int) -> char {
    if d < 10 {
        (0x30 + d) as char
    } else {
        (0x41 + d - 10) as char
    }
}

/// How one byte is written: itself, a plus sign for a space, or a percent escape.
pub open spec fn encoded_byte(b: u8) -> Seq<char> {
    if is_unreserved(b) {
        seq![b as char]
    } else if b == 0x20 {
        seq!['+']
    } else {
        seq!['%', hex_digit(b as int / 16), hex_digit(b as int % 16)]
    }
}

/// The bytes, each written as `encoded_byte` says.
pub open spec fn encoded_bytes(bytes: Seq<u8>) -> Seq<char>
    decreases bytes.len(),
{
    if bytes.len() == 0 {
        Seq::empty()
    } else {
        encoded_bytes(bytes.drop_last()) + encoded_byte(bytes.last())
    }
}

/// The percent-encoding of a text: that of its UTF-8 bytes.
pub open spec fn urlencoded(s: Seq<char>) -> Seq<char> {
    encoded_bytes(encode_utf8(s))
}

/// Whether `c` may stand in an encoded component.
pub open spec fn is_url_safe(c: char) -> bool {
    c == '+' || c == '%' || ((c as u32) < 0x80 && is_unreserved(c as u8))
}

/// An encoded component holds unreserved characters, plus signs and percent signs only: nothing
/// in it can end a query parameter, a path segment or the address.
pub proof fn urlencoded_is_safe(s: Seq<char>)
    ensures
        forall|i: int| 0 <= i < urlencoded(s).len() ==> is_url_safe(#[trigger] urlencoded(s)[i]),
{
    encoded_bytes_are_safe(encode_utf8(s));
}

proof fn encoded_bytes_are_safe(bytes: Seq<u8>)
    ensures
        forall|i: int|
            0 <= i < encoded_bytes(bytes).len() ==> is_url_safe(#[trigger] encoded_bytes(bytes)[i]),
    decreases bytes.len(),
{
    if bytes.len() > 0 {
        encoded_bytes_are_safe(bytes.drop_last());
        let b = bytes.last();
        assert forall|i: int| 0 <= i < encoded_byte(b).len() implies is_url_safe(
            #[trigger] encoded_byte(b)[i],
        ) by {
            if is_unreserved(b) {
                assert((b as char) as u32 == b as u32);
                assert((b as char) as u8 == b);
            }
        }
        let head = encoded_bytes(bytes.drop_last());
        assert forall|i: int| 0 <= i < encoded_bytes(bytes).len() implies is_url_safe(
            #[trigger] encoded_bytes(bytes)[i],
        ) by {
            if i < head.len() {
                assert(encoded_bytes(bytes)[i] == head[i]);
            } else {
                assert(encoded_bytes(bytes)[i] == encoded_byte(b)[i - head.len()]);
            }
        }
    }
}

/// The value of a hexadecimal digit.
pub open spec fn hex_value(c: char) -> Option<int> {
    let u = c as int;
    if 0x30 <= u <= 0x39 {
        Some(u - 0x30)
    } else if 0x41 <= u <= 0x46 {
        Some(u - 0x41 + 10)
    } else if 0x61 <= u <= 0x66 {
        Some(u - 0x61 + 10)
    } else {
        None
    }
}

/// The bytes that a component of a form stands for: a plus sign for a space, a percent escape for
/// its byte, every other character for itself.
pub open spec fn form_decoded(s: Seq<char>) -> Seq<u8>
    decreases s.len(),
{
    if s.len() == 0 {
        Seq::empty()
    } else if s[0] == '+' {
        seq![0x20u8] + form_decoded(s.skip(1))
    } else if s[0] == '%' && s.len() >= 3 && hex_value(s[1]) is Some && hex_value(s[2]) is Some {
        seq![(16 * hex_value(s[1])->0 + hex_value(s[2])->0) as u8] + form_decoded(s.skip(3))
    } else {
        encode_utf8(seq![s[0]]) + form_decoded(s.skip(1))
    }
}

/// Decoding an encoded text gives the text back: its UTF-8 bytes, and so its characters.
pub proof fn urlencoded_is_decoded_back(s: Seq<char>)
    ensures
        form_decoded(urlencoded(s)) == encode_utf8(s),
        decode_utf8(form_decoded(urlencoded(s))) == s,
{
    bytes_are_decoded_back(encode_utf8(s));
    encode_utf8_decode_utf8(s);
}

proof fn bytes_are_decoded_back(bytes: Seq<u8>)
    ensures
        form_decoded(encoded_bytes(bytes)) == bytes,
    decreases bytes.len(),
{
    if bytes.len() > 0 {
        let first = seq![bytes[0]];
        let rest = bytes.drop_first();
        assert(first + rest =~= bytes);
        encoded_bytes_concat(first, rest);
        assert(encoded_bytes(first) =~= encoded_byte(bytes[0])) by {
            reveal_with_fuel(encoded_bytes, 2);
        }
        byte_is_decoded_back(bytes[0], encoded_bytes(rest));
        bytes_are_decoded_back(rest);
    }
}

proof fn byte_is_decoded_back(b: u8, rest: Seq<char>)
    ensures
        form_decoded(encoded_byte(b) + rest) == seq![b] + form_decoded(rest),
{
    let s = encoded_byte(b) + rest;
    if is_unreserved(b) {
        let c = b as char;
        assert(c as int == b);
        assert(s.skip(1) =~= rest);
        assert(s[0] == c);
        assert(is_ascii_chars(seq![c]));
        is_ascii_chars_encode_utf8(seq![c]);
        assert(encode_utf8(seq![c]) =~= seq![b]);
    } else if b == 0x20 {
        assert(s.skip(1) =~= rest);
    } else {
        let (high, low) = (b as int / 16, b as int % 16);
        assert(hex_value(hex_digit(high)) == Some(high));
        assert(hex_value(hex_digit(low)) == Some(low));
        assert(s[1] == hex_digit(high));
        assert(s[2] == hex_digit(low));
        assert(s.skip(3) =~= rest);
    }
}

/// The encoding of two texts in a row is that of the one followed by that of the other.
pub proof fn urlencoded_concat(s: Seq<char>, t: Seq<char>)
    ensures
        urlencoded(s + t) == urlencoded(s) + urlencoded(t),
{
    encode_utf8_concat(s, t);
    encoded_bytes_concat(encode_utf8(s), encode_utf8(t));
}

proof fn encoded_bytes_concat(a: Seq<u8>, b: Seq<u8>)
    ensures
        encoded_bytes(a + b) == encoded_bytes(a) + encoded_bytes(b),
    decreases b.len(),
{
    if b.len() == 0 {
        assert(a + b =~= a);
        assert(encoded_bytes(a) + encoded_bytes(b) =~= encoded_bytes(a));
    } else {
        encoded_bytes_concat(a, b.drop_last());
        assert((a + b).drop_last() =~= a + b.drop_last());
        assert(encoded_bytes(a + b) =~= encoded_bytes(a) + encoded_bytes(b));
    }
}

proof fn encode_utf8_concat(s: Seq<char>, t: Seq<char>)
    ensures
        encode_utf8(s + t) == encode_utf8(s) + encode_utf8(t),
    decreases s.len(),
{
    if s.len() == 0 {
        assert(s + t =~= t);
        assert(encode_utf8(s) + encode_utf8(t) =~= encode_utf8(t));
    } else {
        encode_utf8_concat(s.drop_first(), t);
        assert((s + t).drop_first() =~= s.drop_first() + t);
        assert(encode_utf8(s + t) =~= encode_utf8(s) + encode_utf8(t));
    }
}

/// The upper-case hexadecimal digit with value `d`.
fn hex_char(d: u8) -> (c: char)
    requires
        d < 16,
    ensures
        c == hex_digit(d as int),
{
    if d < 10 {
        (0x30 + d) as char
    } else {
        (0x41 + (d - 10)) as char
    }
}

/// Percent-encodes `s` for use as a query or path component.
pub fn urlencode(s: &str) -> (r: String)
    ensures
        r@ == urlencoded(s@),
{
    let bytes = s.as_bytes();
    let mut out = String::new();
    let mut i: usize = 0;
    while i < bytes.len()
        invariant
            i <= bytes@.len(),
            out@ == encoded_bytes(bytes@.take(i as int)),
        decreases bytes@.len() - i,
    {
        let b: u8 = bytes[i];
        let ghost before = out@;
        assert(bytes@.take(i + 1).drop_last() =~= bytes@.take(i as int));
        if (0x41 <= b && b <= 0x5a) || (0x61 <= b && b <= 0x7a) || (0x30 <= b && b <= 0x39) || b
            == 0x2d || b == 0x5f || b == 0x2e || b == 0x7e {
            out.push(b as char);
        } else if b == 0x20 {
            out.push('+');
        } else {
            out.push('%');
            out.push(hex_char(b / 16));
            out.push(hex_char(b % 16));
        }
        assert(out@ =~= before + encoded_byte(b));
        i += 1;
    }
    assert(bytes@.take(bytes@.len() as int) =~= bytes@);
    out
}

} // verus!
