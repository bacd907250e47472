//! Percent-encoding of URL path segments.
//!
//! Bytes of the RFC 3986 unreserved set and a subset of sub-delims pass
//! unchanged; every other byte becomes `%XX` with upper-case hex digits.

use vstd::prelude::*;

verus! {

/// A byte that may stand unencoded in a path segment.
pub open spec fn is_safe_byte(b: u8) -> bool {
    ||| 0x30 <= b <= 0x39
    ||| 0x41 <= b <= 0x5a
    ||| 0x61 <= b <= 0x7a
    ||| b == 0x2d || b == 0x2e || b == 0x5f || b == 0x7e
    ||| b == 0x21 || b == 0x24 || b == 0x26 || b == 0x27
    ||| b == 0x28 || b == 0x29 || b == 0x2a || b == 0x2b
    ||| b == 0x2c || b == 0x3b || b == 0x3d || b == 0x3a || b == 0x40
}

/// Upper-case hexadecimal digit for a nibble.
pub open spec fn hex_upper(n: int) -> char {
    if n < 10 {
        (n + 0x30) as char
    } else {
        (n - 10 + 0x41) as char
    }
}

/// The encoding of one byte.
pub open spec fn encode_byte(b: u8) -> Seq<char> {
    if is_safe_byte(b) {
        seq![b as char]
    } else {
        seq!['%', hex_upper((b / 16) as int), hex_upper((b % 16) as int)]
    }
}

/// The encoding of a byte sequence: each byte encoded in turn.
pub open spec fn encode_bytes(bs: Seq<u8>) -> Seq<char>
    decreases bs.len(),
{
    if bs.len() == 0 {
        seq![]
    } else {
        encode_byte(bs[0]) + encode_bytes(bs.drop_first())
    }
}

/// Encodes the UTF-8 bytes of `value` as a path segment.
pub open spec fn spec_encode_path_segment(value: Seq<char>) -> Seq<char> {
    encode_bytes(vstd::utf8::encode_utf8(value))
}

/// Whether `byte` may stand unencoded in a path segment.
pub fn is_path_segment_safe(byte: u8) -> (r: bool)
    ensures
        r == is_safe_byte(byte),
{
    (0x30 <= byte && byte <= 0x39) || (0x41 <= byte && byte <= 0x5a) || (0x61 <= byte && byte
        <= 0x7a) || byte == 0x2d || byte == 0x2e || byte == 0x5f || byte == 0x7e || byte == 0x21
        || byte == 0x24 || byte == 0x26 || byte == 0x27 || byte == 0x28 || byte == 0x29 || byte
        == 0x2a || byte == 0x2b || byte == 0x2c || byte == 0x3b || byte == 0x3d || byte == 0x3a
        || byte == 0x40
}

fn hex_upper_digit(n: u8) -> (c: char)
    requires
        n < 16,
    ensures
        c == hex_upper(n as int),
{
    if n < 10 {
        (n + 0x30) as char
    } else {
        (n - 10 + 0x41) as char
    }
}

proof fn lemma_encode_bytes_push(bs: Seq<u8>, b: u8)
    ensures
        encode_bytes(bs.push(b)) == encode_bytes(bs) + encode_byte(b),
    decreases bs.len(),
{
    if bs.len() == 0 {
        assert(bs.push(b).drop_first() =~= Seq::<u8>::empty());
        assert(encode_bytes(Seq::<u8>::empty()) =~= Seq::<char>::empty());
        assert(encode_bytes(bs.push(b)) =~= encode_byte(b));
    } else {
        lemma_encode_bytes_push(bs.drop_first(), b);
        assert(bs.push(b).drop_first() =~= bs.drop_first().push(b));
        assert(encode_bytes(bs.push(b)) =~= encode_bytes(bs) + encode_byte(b));
    }
}

/// Percent-encodes `value` for use as one URL path segment.
pub fn encode_path_segment(value: &str) -> (encoded: String)
    ensures
        encoded@ == spec_encode_path_segment(value@),
{
    let bytes = value.as_bytes();
    let mut out: Vec<char> = Vec::new();
    let mut i: usize = 0;
    while i < bytes.len()
        invariant
            i <= bytes@.len(),
            bytes@ == vstd::utf8::encode_utf8(value@),
            out@ == encode_bytes(bytes@.take(i as int)),
        decreases bytes@.len() - i,
    {
        let byte = bytes[i];
        proof {
            lemma_encode_bytes_push(bytes@.take(i as int), byte);
            assert(bytes@.take(i as int).push(byte) =~= bytes@.take(i + 1));
        }
        if is_path_segment_safe(byte) {
            out.push(byte as char);
        } else {
            out.push('%');
            out.push(hex_upper_digit(byte / 16));
            out.push(hex_upper_digit(byte % 16));
        }
        assert(out@ =~= encode_bytes(bytes@.take(i as int)) + encode_byte(byte));
        i = i + 1;
    }
    assert(bytes@.take(i as int) =~= bytes@);
    crate::text::string_from_chars(&out)
}

/// The value of an upper-case hexadecimal digit.
pub open spec fn hex_value(c: char) -> int {
    if '0' <= c && c <= '9' {
        (c as int) - 0x30
    } else {
        (c as int) - 0x41 + 10
    }
}

/// Percent-decoding: `%XY` stands for the byte with hex digits `X` and `Y`;
/// any other character stands for its own code as a byte.
pub open spec fn decode_percent(cs: Seq<char>) -> Seq<u8>
    decreases cs.len(),
{
    if cs.len() == 0 {
        Seq::empty()
    } else if cs[0] == '%' && cs.len() >= 3 {
        seq![(hex_value(cs[1]) * 16 + hex_value(cs[2])) as u8] + decode_percent(cs.skip(3))
    } else {
        seq![(cs[0] as u32) as u8] + decode_percent(cs.skip(1))
    }
}

proof fn lemma_hex_roundtrip(n: int)
    requires
        0 <= n < 16,
    ensures
        hex_value(hex_upper(n)) == n,
        hex_upper(n) != '%',
{
}

proof fn lemma_decode_encode_bytes(bs: Seq<u8>)
    ensures
        decode_percent(encode_bytes(bs)) == bs,
    decreases bs.len(),
{
    if bs.len() > 0 {
        let b = bs[0];
        let rest = bs.drop_first();
        lemma_decode_encode_bytes(rest);
        let e = encode_byte(b);
        let tail = encode_bytes(rest);
        assert(encode_bytes(bs) == e + tail);
        if is_safe_byte(b) {
            assert((e + tail)[0] == b as char);
            assert((e + tail).skip(1) =~= tail);
            assert(((b as char) as u32) as u8 == b);
        } else {
            lemma_hex_roundtrip((b / 16) as int);
            lemma_hex_roundtrip((b % 16) as int);
            assert((e + tail)[0] == '%');
            assert((e + tail)[1] == hex_upper((b / 16) as int));
            assert((e + tail)[2] == hex_upper((b % 16) as int));
            assert((e + tail).skip(3) =~= tail);
            assert((b / 16) * 16 + b % 16 == b) by (nonlinear_arith);
        }
        assert(decode_percent(e + tail) =~= seq![b] + rest);
        assert(seq![b] + rest =~= bs);
    }
}

/// Encoding is undone by percent-decoding the segment and reading the bytes
/// as UTF-8: no two values share an encoding.
pub proof fn law_path_segment_roundtrip(value: Seq<char>)
    ensures
        vstd::utf8::decode_utf8(decode_percent(spec_encode_path_segment(value))) == value,
{
    lemma_decode_encode_bytes(vstd::utf8::encode_utf8(value));
    vstd::utf8::encode_utf8_decode_utf8(value);
}

/// Distinct values have distinct encodings.
pub proof fn law_path_segment_injective(a: Seq<char>, b: Seq<char>)
    requires
        spec_encode_path_segment(a) == spec_encode_path_segment(b),
    ensures
        a == b,
{
    law_path_segment_roundtrip(a);
    law_path_segment_roundtrip(b);
}

/// A character that may appear in an encoded segment: a safe byte's
/// character, `%`, or an upper-case hex digit.
pub open spec fn is_segment_char(c: char) -> bool {
    ||| (c as u32) < 256 && is_safe_byte((c as u32) as u8)
    ||| c == '%'
    ||| ('0' <= c && c <= '9') || ('A' <= c && c <= 'F')
}

proof fn lemma_encode_bytes_chars(bs: Seq<u8>)
    ensures
        forall|i: int| 0 <= i < encode_bytes(bs).len() ==> is_segment_char(#[trigger] encode_bytes(bs)[i]),
    decreases bs.len(),
{
    if bs.len() > 0 {
        let b = bs[0];
        lemma_encode_bytes_chars(bs.drop_first());
        let e = encode_byte(b);
        let tail = encode_bytes(bs.drop_first());
        assert(encode_bytes(bs) == e + tail);
        assert forall|i: int| 0 <= i < (e + tail).len() implies is_segment_char(#[trigger] (e + tail)[i]) by {
            if i >= e.len() {
                assert((e + tail)[i] == tail[i - e.len()]);
            } else if is_safe_byte(b) {
                assert(((b as char) as u32) as u8 == b);
            }
        }
    }
}

/// An encoded segment holds only safe characters, `%` and hex digits; in
/// particular no `/`, `?`, `#` or space, so it never splits a path or starts
/// a query or fragment.
pub proof fn law_path_segment_is_one_segment(value: Seq<char>)
    ensures
        forall|i: int|
            0 <= i < spec_encode_path_segment(value).len() ==> is_segment_char(
                #[trigger] spec_encode_path_segment(value)[i],
            ),
        forall|i: int|
            0 <= i < spec_encode_path_segment(value).len() ==> {
                let c = #[trigger] spec_encode_path_segment(value)[i];
                c != '/' && c != '?' && c != '#' && c != ' '
            },
{
    lemma_encode_bytes_chars(vstd::utf8::encode_utf8(value));
    assert forall|i: int| 0 <= i < spec_encode_path_segment(value).len() implies ({
        let c = #[trigger] spec_encode_path_segment(value)[i];
        c != '/' && c != '?' && c != '#' && c != ' '
    }) by {
        let c = spec_encode_path_segment(value)[i];
        assert(is_segment_char(c));
    }
}

/// Whether every byte of `bs` may stand unencoded in a path segment.
pub open spec fn all_safe(bs: Seq<u8>) -> bool {
    forall|i: int| 0 <= i < bs.len() ==> is_safe_byte(#[trigger] bs[i])
}

proof fn lemma_encode_bytes_concat(a: Seq<u8>, b: Seq<u8>)
    ensures
        encode_bytes(a + b) == encode_bytes(a) + encode_bytes(b),
    decreases a.len(),
{
    if a.len() == 0 {
        assert(a + b =~= b);
        assert(encode_bytes(a) + encode_bytes(b) =~= encode_bytes(b));
    } else {
        lemma_encode_bytes_concat(a.drop_first(), b);
        assert((a + b).drop_first() =~= a.drop_first() + b);
        assert((a + b)[0] == a[0]);
        assert(encode_bytes(a + b) =~= encode_bytes(a) + encode_bytes(b));
    }
}

proof fn lemma_encode_bytes_len(bs: Seq<u8>)
    ensures
        encode_bytes(bs).len() >= bs.len(),
    decreases bs.len(),
{
    if bs.len() > 0 {
        lemma_encode_bytes_len(bs.drop_first());
    }
}

proof fn lemma_encode_utf8_len(v: Seq<char>)
    ensures
        vstd::utf8::encode_utf8(v).len() >= v.len(),
    decreases v.len(),
{
    if v.len() > 0 {
        lemma_encode_utf8_len(v.drop_first());
    }
}

proof fn lemma_width_1_byte(s: u32)
    requires
        s <= 0x7f,
    ensures
        vstd::utf8::leading_byte_width_1(s) == s,
{
    assert((s & 0x7f) as u8 == s) by (bit_vector)
        requires
            s <= 0x7f,
    ;
}

proof fn lemma_leading_byte_high(s: u32)
    ensures
        vstd::utf8::leading_byte_width_2(s) >= 0x80,
        vstd::utf8::leading_byte_width_3(s) >= 0x80,
        vstd::utf8::leading_byte_width_4(s) >= 0x80,
{
    assert((0xC0u8 | ((s >> 6) & 0x1F) as u8) >= 0x80) by (bit_vector);
    assert((0xE0u8 | ((s >> 12) & 0x0F) as u8) >= 0x80) by (bit_vector);
    assert((0xF0u8 | ((s >> 18) & 0x7) as u8) >= 0x80) by (bit_vector);
}

/// A value is its own encoding exactly when every byte of its UTF-8 form is
/// a safe byte; otherwise encoding changes it.
pub proof fn law_path_segment_unchanged_iff_safe(value: Seq<char>)
    ensures
        spec_encode_path_segment(value) == value <==> all_safe(vstd::utf8::encode_utf8(value)),
    decreases value.len(),
{
    let bytes = vstd::utf8::encode_utf8(value);
    if value.len() == 0 {
        assert(bytes =~= Seq::<u8>::empty());
        assert(spec_encode_path_segment(value) =~= value);
    } else {
        let c = value[0];
        let s = c as u32;
        let rest = value.drop_first();
        let head = vstd::utf8::encode_scalar(s);
        let tail = vstd::utf8::encode_utf8(rest);
        vstd::utf8::char_is_scalar(c);
        assert(bytes == head + tail);
        lemma_encode_bytes_concat(head, tail);
        law_path_segment_unchanged_iff_safe(rest);
        lemma_encode_bytes_len(tail);
        lemma_encode_utf8_len(rest);
        lemma_leading_byte_high(s);
        let enc = spec_encode_path_segment(value);
        assert(enc == encode_bytes(head) + spec_encode_path_segment(rest));
        assert(all_safe(bytes) <==> all_safe(head) && all_safe(tail)) by {
            if all_safe(bytes) {
                assert forall|i: int| 0 <= i < tail.len() implies is_safe_byte(#[trigger] tail[i]) by {
                    assert(bytes[head.len() + i] == tail[i]);
                }
                assert forall|i: int| 0 <= i < head.len() implies is_safe_byte(#[trigger] head[i]) by {
                    assert(bytes[i] == head[i]);
                }
            }
            if all_safe(head) && all_safe(tail) {
                assert forall|i: int| 0 <= i < bytes.len() implies is_safe_byte(#[trigger] bytes[i]) by {
                    if i < head.len() {
                        assert(bytes[i] == head[i]);
                    } else {
                        assert(bytes[i] == tail[i - head.len()]);
                    }
                }
            }
        }
        assert(value =~= seq![c] + rest);
        assert(head.len() >= 1);
        assert(encode_bytes(head) == encode_byte(head[0]) + encode_bytes(head.drop_first()));
        if vstd::utf8::has_width_1_encoding(s) {
            lemma_width_1_byte(s);
            let b = head[0];
            assert(head =~= seq![b]);
            assert(head.drop_first() =~= Seq::<u8>::empty());
            assert(encode_bytes(head.drop_first()) =~= Seq::<char>::empty());
            if is_safe_byte(b) {
                vstd::utf8::char_u32_cast(c, s);
                assert(b as char == c);
                assert(encode_bytes(head) =~= seq![c]);
                assert(all_safe(head));
                if enc == value {
                    assert(spec_encode_path_segment(rest) =~= enc.drop_first());
                    assert(value.drop_first() =~= rest);
                }
                if spec_encode_path_segment(rest) == rest {
                    assert(enc =~= value);
                }
            } else {
                assert(!all_safe(head));
                assert(enc.len() > value.len());
            }
        } else {
            assert(head[0] >= 0x80);
            assert(!is_safe_byte(head[0]));
            assert(!all_safe(head));
            assert(encode_byte(head[0]).len() == 3);
            assert(enc.len() > value.len());
        }
    }
}

/// Letters, digits and `-`, `.`, `_`, `~` stand for themselves in a path
/// segment; `/`, `?`, `#`, `%` and space are always percent-encoded, as
/// `%` and the two upper-case hex digits of the byte.
pub proof fn law_path_segment_bytes(b: u8)
    ensures
        (0x30 <= b <= 0x39 || 0x41 <= b <= 0x5a || 0x61 <= b <= 0x7a || b == 0x2d || b == 0x2e || b == 0x5f
            || b == 0x7e) ==> encode_byte(b) == seq![b as char],
        (b == 0x2f || b == 0x3f || b == 0x23 || b == 0x25 || b == 0x20) ==> encode_byte(b).len() == 3
            && encode_byte(b)[0] == '%' && encode_byte(b)[1] == "0123456789ABCDEF"@[(b / 16) as int]
            && encode_byte(b)[2] == "0123456789ABCDEF"@[(b % 16) as int],
{
    reveal_strlit("0123456789ABCDEF");
}

} // verus!
