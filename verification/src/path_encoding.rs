//! Percent-encoding of a single URL path segment, with the character set of
//! JavaScript's `encodeURIComponent`, so that document ids interpolate into
//! `/v1/documents/{id}` byte-for-byte as the API expects.

use vstd::prelude::*;
use vstd::string::*;
use vstd::utf8::*;

use crate::text::push_char;

verus! {

/// Bytes that pass through unchanged: `A-Z a-z 0-9 - _ . ~ ! * ' ( )`.
pub open spec fn is_unreserved_byte(b: u8) -> bool {
    ||| (65 <= b && b <= 90)
    ||| (97 <= b && b <= 122)
    ||| (48 <= b && b <= 57)
    ||| b == 45 || b == 95 || b == 46 || b == 126
    ||| b == 33 || b == 42 || b == 39 || b == 40 || b == 41
}

/// Upper-case hexadecimal digit for a value below sixteen.
pub open spec fn hex_digit_upper(d: nat) -> char
    recommends
        d < 16,
{
    if d < 10 {
        ((48 + d) as u8) as char
    } else {
        ((55 + d) as u8) as char
    }
}

/// The encoding of one byte: the byte itself as a character when it is
/// unreserved, otherwise `%` followed by its two upper-case hex digits.
pub open spec fn encode_byte(b: u8) -> Seq<char> {
    if is_unreserved_byte(b) {
        seq![b as char]
    } else {
        seq!['%', hex_digit_upper((b / 16) as nat), hex_digit_upper((b % 16) as nat)]
    }
}

/// The encoding of a byte string: the encodings of its bytes, in order.
pub open spec fn encode_bytes(bytes: Seq<u8>) -> Seq<char>
    decreases bytes.len(),
{
    if bytes.len() == 0 {
        seq![]
    } else {
        encode_bytes(bytes.drop_last()) + encode_byte(bytes.last())
    }
}

/// Whether `b` is one of the bytes that pass through unchanged (see
/// [`is_unreserved_byte`]).
pub fn is_safe_for_encode_uri_component(b: u8) -> (r: bool)
    ensures
        r == is_unreserved_byte(b),
{
    (b >= 65 && b <= 90) || (b >= 97 && b <= 122) || (b >= 48 && b <= 57) || b == 45 || b == 95
        || b == 46 || b == 126 || b == 33 || b == 42 || b == 39 || b == 40 || b == 41
}

/// The upper-case hex digit for `d < 16`.
fn hex_upper(d: u8) -> (c: char)
    requires
        d < 16,
    ensures
        c == hex_digit_upper(d as nat),
{
    if d < 10 {
        (48u8 + d) as char
    } else {
        (55u8 + d) as char
    }
}

/// Percent-encode `s` for use as a single URL path segment: every UTF-8 byte
/// of `s` outside `A-Z a-z 0-9 - _ . ~ ! * ' ( )` (including `/`, which would
/// otherwise split the segment) becomes `%XX`.
pub fn encode_path_segment(s: &str) -> (out: String)
    ensures
        out@ == encode_bytes(s.spec_bytes()),
        is_escaped_text(out@),
        (forall|i: int| 0 <= i < s.spec_bytes().len() ==> is_unreserved_byte(#[trigger] s.spec_bytes()[i])) ==> out@ == s@,
{
    let bytes = s.as_bytes();
    let mut out = String::new();
    let mut i: usize = 0;
    while i < bytes.len()
        invariant
            i <= bytes@.len(),
            bytes@ == s.spec_bytes(),
            out@ == encode_bytes(bytes@.take(i as int)),
        decreases bytes@.len() - i,
    {
        let b = bytes[i];
        assert(bytes@.take(i + 1).drop_last() == bytes@.take(i as int));
        if is_safe_for_encode_uri_component(b) {
            push_char(&mut out, b as char);
        } else {
            push_char(&mut out, '%');
            push_char(&mut out, hex_upper(b / 16));
            push_char(&mut out, hex_upper(b % 16));
        }
        i = i + 1;
        assert(out@ == encode_bytes(bytes@.take(i as int)));
    }
    assert(bytes@.take(bytes@.len() as int) == bytes@);
    proof {
        lemma_encoding_is_escaped_text(bytes@);
        if forall|i: int| 0 <= i < s.spec_bytes().len() ==> is_unreserved_byte(#[trigger] s.spec_bytes()[i]) {
            lemma_safe_text_passes_through(s@);
        }
    }
    out
}

/// Value of a hexadecimal digit (either case); zero for anything else.
pub open spec fn hex_value(c: char) -> nat {
    if '0' <= c && c <= '9' {
        (c as nat - 48) as nat
    } else if 'A' <= c && c <= 'F' {
        (c as nat - 55) as nat
    } else if 'a' <= c && c <= 'f' {
        (c as nat - 87) as nat
    } else {
        0
    }
}

/// Percent-decoding: `%XX` becomes the byte with hex value `XX`, any other
/// character becomes its (truncated) code as a byte.
pub open spec fn percent_decode(cs: Seq<char>) -> Seq<u8>
    decreases cs.len(),
{
    if cs.len() == 0 {
        seq![]
    } else if cs[0] == '%' && cs.len() >= 3 {
        seq![(hex_value(cs[1]) * 16 + hex_value(cs[2])) as u8] + percent_decode(cs.skip(3))
    } else {
        seq![cs[0] as u8] + percent_decode(cs.skip(1))
    }
}

/// Whether `c` is an upper-case hexadecimal digit.
pub open spec fn is_upper_hex(c: char) -> bool {
    ('0' <= c && c <= '9') || ('A' <= c && c <= 'F')
}

/// Whether `c` is one of the characters that pass through unchanged.
pub open spec fn is_unreserved_char(c: char) -> bool {
    (c as nat) < 128 && is_unreserved_byte(c as u8)
}

/// Whether `o` is made, from left to right, of unreserved characters and
/// `%XX` escapes with two upper-case hex digits, and nothing else.
pub open spec fn is_escaped_text(o: Seq<char>) -> bool
    decreases o.len(),
{
    if o.len() == 0 {
        true
    } else if is_unreserved_char(o[0]) {
        is_escaped_text(o.skip(1))
    } else {
        &&& o.len() >= 3
        &&& o[0] == '%'
        &&& is_upper_hex(o[1])
        &&& is_upper_hex(o[2])
        &&& is_escaped_text(o.skip(3))
    }
}

/// Characters an encoded segment is made of: unreserved characters, `%`,
/// and upper-case hex digits. None of them is `/`, `?` or `#`.
pub open spec fn is_segment_char(c: char) -> bool {
    ||| (c as nat) < 256 && is_unreserved_byte(c as u8)
    ||| c == '%'
    ||| ('0' <= c && c <= '9')
    ||| ('A' <= c && c <= 'F')
}

proof fn lemma_hex_digit_roundtrip(d: nat)
    requires
        d < 16,
    ensures
        hex_value(hex_digit_upper(d)) == d,
        is_segment_char(hex_digit_upper(d)),
        hex_digit_upper(d) != '%',
{
}

proof fn lemma_byte_char_roundtrip(b: u8)
    ensures
        (b as char) as u8 == b,
        (b as char) as nat == b as nat,
{
}

/// Encoding distributes over a leading byte.
proof fn lemma_encode_bytes_cons(bytes: Seq<u8>)
    requires
        bytes.len() > 0,
    ensures
        encode_bytes(bytes) == encode_byte(bytes[0]) + encode_bytes(bytes.skip(1)),
    decreases bytes.len(),
{
    if bytes.len() == 1 {
        assert(bytes.drop_last().len() == 0);
        assert(bytes.skip(1).len() == 0);
        assert(encode_bytes(bytes.skip(1)) == Seq::<char>::empty());
        assert(encode_bytes(bytes.drop_last()) == Seq::<char>::empty());
        assert(bytes.last() == bytes[0]);
    } else {
        let init = bytes.drop_last();
        lemma_encode_bytes_cons(init);
        assert(init.skip(1) == bytes.skip(1).drop_last());
        assert(bytes.skip(1).last() == bytes.last());
        assert(init[0] == bytes[0]);
    }
}

/// Decoding what one byte encodes to, followed by anything, yields that byte
/// followed by the decoding of the rest.
proof fn lemma_decode_encoded_byte(b: u8, rest: Seq<char>)
    ensures
        percent_decode(encode_byte(b) + rest) == seq![b] + percent_decode(rest),
{
    let e = encode_byte(b);
    lemma_byte_char_roundtrip(b);
    if is_unreserved_byte(b) {
        assert((e + rest)[0] == b as char);
        assert((e + rest).skip(1) == rest);
        assert(b != 37);
    } else {
        lemma_hex_digit_roundtrip((b / 16) as nat);
        lemma_hex_digit_roundtrip((b % 16) as nat);
        assert((e + rest)[0] == '%');
        assert((e + rest)[1] == hex_digit_upper((b / 16) as nat));
        assert((e + rest)[2] == hex_digit_upper((b % 16) as nat));
        assert((e + rest).skip(3) == rest);
        assert(((b / 16) as nat) * 16 + (b % 16) as nat == b as nat);
    }
}

/// Percent-decoding an encoded segment gives back exactly the bytes that
/// were encoded: the encoding loses nothing.
pub proof fn lemma_decode_inverts_encode(bytes: Seq<u8>)
    ensures
        percent_decode(encode_bytes(bytes)) == bytes,
    decreases bytes.len(),
{
    if bytes.len() == 0 {
        assert(encode_bytes(bytes) == Seq::<char>::empty());
    } else {
        lemma_encode_bytes_cons(bytes);
        lemma_decode_encoded_byte(bytes[0], encode_bytes(bytes.skip(1)));
        lemma_decode_inverts_encode(bytes.skip(1));
        assert(seq![bytes[0]] + bytes.skip(1) == bytes);
    }
}

/// An encoded segment consists of segment characters only, so it never
/// contains `/`, `?` or `#` and always stays a single path segment.
pub proof fn lemma_encoding_stays_one_segment(bytes: Seq<u8>)
    ensures
        forall|i: int| 0 <= i < encode_bytes(bytes).len() ==> is_segment_char(#[trigger] encode_bytes(bytes)[i]),
        !encode_bytes(bytes).contains('/'),
        !encode_bytes(bytes).contains('?'),
        !encode_bytes(bytes).contains('#'),
        !encode_bytes(bytes).contains('&'),
        !encode_bytes(bytes).contains(' '),
    decreases bytes.len(),
{
    if bytes.len() > 0 {
        let init = bytes.drop_last();
        let b = bytes.last();
        lemma_encoding_stays_one_segment(init);
        lemma_byte_char_roundtrip(b);
        if !is_unreserved_byte(b) {
            lemma_hex_digit_roundtrip((b / 16) as nat);
            lemma_hex_digit_roundtrip((b % 16) as nat);
        }
        let e = encode_bytes(bytes);
        assert(e == encode_bytes(init) + encode_byte(b));
        assert forall|i: int| 0 <= i < e.len() implies is_segment_char(#[trigger] e[i]) by {
            if i < encode_bytes(init).len() {
                assert(e[i] == encode_bytes(init)[i]);
            } else {
                assert(e[i] == encode_byte(b)[i - encode_bytes(init).len()]);
            }
        }
    }
    let e = encode_bytes(bytes);
    assert(!is_segment_char('/'));
    assert(!is_segment_char('?'));
    assert(!is_segment_char('#'));
    if e.contains('/') {
        let k = choose|k: int| 0 <= k < e.len() && e[k] == '/';
        assert(is_segment_char(e[k]));
    }
    if e.contains('?') {
        let k = choose|k: int| 0 <= k < e.len() && e[k] == '?';
        assert(is_segment_char(e[k]));
    }
    if e.contains('#') {
        let k = choose|k: int| 0 <= k < e.len() && e[k] == '#';
        assert(is_segment_char(e[k]));
    }
    assert(!is_segment_char('&'));
    assert(!is_segment_char(' '));
    if e.contains('&') {
        let k = choose|k: int| 0 <= k < e.len() && e[k] == '&';
        assert(is_segment_char(e[k]));
    }
    if e.contains(' ') {
        let k = choose|k: int| 0 <= k < e.len() && e[k] == ' ';
        assert(is_segment_char(e[k]));
    }
}

/// An encoded segment is, from left to right, unreserved characters and
/// `%XX` escapes with upper-case hex digits, and nothing else.
pub proof fn lemma_encoding_is_escaped_text(bytes: Seq<u8>)
    ensures
        is_escaped_text(encode_bytes(bytes)),
    decreases bytes.len(),
{
    if bytes.len() == 0 {
        assert(encode_bytes(bytes) == Seq::<char>::empty());
    } else {
        lemma_encode_bytes_cons(bytes);
        lemma_encoding_is_escaped_text(bytes.skip(1));
        let b = bytes[0];
        let r = encode_bytes(bytes.skip(1));
        let o = encode_byte(b) + r;
        lemma_byte_char_roundtrip(b);
        if is_unreserved_byte(b) {
            assert(o[0] == b as char);
            assert(o.skip(1) == r);
            assert(is_unreserved_char(o[0]));
        } else {
            lemma_hex_digit_roundtrip((b / 16) as nat);
            lemma_hex_digit_roundtrip((b % 16) as nat);
            assert(o[0] == '%');
            assert(o[1] == hex_digit_upper((b / 16) as nat));
            assert(o[2] == hex_digit_upper((b % 16) as nat));
            assert(o.skip(3) == r);
            assert(!is_unreserved_char('%'));
        }
    }
}

/// A character's code is the same read as a `u32` or as an integer.
proof fn lemma_char_code(c: char)
    ensures
        (c as u32) as int == c as int,
{
}

/// Text whose UTF-8 bytes are all below 128 is ASCII.
proof fn lemma_ascii_bytes_mean_ascii_text(chars: Seq<char>)
    requires
        forall|i: int| 0 <= i < encode_utf8(chars).len() ==> #[trigger] encode_utf8(chars)[i] < 128,
    ensures
        is_ascii_chars(chars),
    decreases chars.len(),
{
    if chars.len() > 0 {
        let v = chars[0] as u32;
        let h = encode_scalar(v);
        let t = encode_utf8(chars.drop_first());
        let e = encode_utf8(chars);
        assert(e == h + t);
        assert(h.len() >= 1);
        assert(e[0] == h[0]);
        if !has_width_1_encoding(v) {
            if has_width_2_encoding(v) {
                assert(leading_byte_width_2(v) >= 0xC0) by (bit_vector);
            } else if has_width_3_encoding(v) {
                assert(leading_byte_width_3(v) >= 0xE0) by (bit_vector);
            } else {
                assert(leading_byte_width_4(v) >= 0xF0) by (bit_vector);
            }
            assert(false);
        }
        assert forall|i: int| 0 <= i < t.len() implies #[trigger] t[i] < 128 by {
            assert(t[i] == e[i + h.len()]);
        }
        lemma_ascii_bytes_mean_ascii_text(chars.drop_first());
        assert forall|i: int| 0 <= i < chars.len() implies '\0' <= #[trigger] chars[i] <= '\u{7f}' by {
            if i > 0 {
                assert(chars[i] == chars.drop_first()[i - 1]);
            } else {
                let c = chars[0];
                lemma_char_code(c);
                assert(c <= '\u{7f}');
            }
        }
    }
}

/// Text whose UTF-8 bytes all pass through unchanged encodes to itself: the
/// segment is the input string, character for character.
pub proof fn lemma_safe_text_passes_through(s: Seq<char>)
    requires
        forall|i: int| 0 <= i < encode_utf8(s).len() ==> is_unreserved_byte(#[trigger] encode_utf8(s)[i]),
    ensures
        encode_bytes(encode_utf8(s)) == s,
{
    let bytes = encode_utf8(s);
    assert forall|i: int| 0 <= i < bytes.len() implies #[trigger] bytes[i] < 128 by {
        assert(is_unreserved_byte(bytes[i]));
    }
    lemma_ascii_bytes_mean_ascii_text(s);
    is_ascii_chars_encode_utf8(s);
    lemma_unreserved_bytes_pass_through(bytes);
    let m = bytes.map_values(|b: u8| b as char);
    assert forall|i: int| 0 <= i < s.len() implies m[i] == s[i] by {
        assert(s[i] as u8 == bytes[i]);
        assert('\0' <= s[i] <= '\u{7f}');
        let c = s[i];
        assert(c as nat <= 127);
        assert((c as u8) as nat == c as nat);
        assert((c as u8) as char == c);
    }
    assert(m =~= s);
}

/// Bytes that are all unreserved pass through unchanged, one character per
/// byte.
pub proof fn lemma_unreserved_bytes_pass_through(bytes: Seq<u8>)
    requires
        forall|i: int| 0 <= i < bytes.len() ==> is_unreserved_byte(#[trigger] bytes[i]),
    ensures
        encode_bytes(bytes) == bytes.map_values(|b: u8| b as char),
    decreases bytes.len(),
{
    if bytes.len() > 0 {
        let init = bytes.drop_last();
        assert forall|i: int| 0 <= i < init.len() implies is_unreserved_byte(#[trigger] init[i]) by {
            assert(init[i] == bytes[i]);
        }
        lemma_unreserved_bytes_pass_through(init);
        assert(is_unreserved_byte(bytes.last()));
        assert(bytes.map_values(|b: u8| b as char) == init.map_values(|b: u8| b as char).push(bytes.last() as char));
    } else {
        assert(bytes.map_values(|b: u8| b as char) == Seq::<char>::empty());
    }
}

} // verus!
