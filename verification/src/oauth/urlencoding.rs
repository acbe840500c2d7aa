//! Percent-encoding of query components (RFC 3986 unreserved set kept as is).
use vstd::prelude::*;
use crate::text::push_char;
use vstd::string::StringSliceAdditionalSpecFns;

verus! {

/// Bytes that pass through unencoded: ASCII letters, digits and `-_.~`.
pub open spec fn is_unreserved(b: u8) -> bool {
    (65 <= b <= 90) || (97 <= b <= 122) || (48 <= b <= 57) || b == 45 || b == 95 || b == 46 || b == 126
}

/// Upper-case hexadecimal digit for `n < 16`.
pub open spec fn hex_upper(n: u8) -> char {
    if n < 10 { (48 + n) as char } else { (55 + n) as char }
}

/// The encoding of one byte: itself, or `%XX` with upper-case hex digits.
pub open spec fn encode_byte(b: u8) -> Seq<char> {
    if is_unreserved(b) {
        seq![b as char]
    } else {
        seq!['%', hex_upper(b / 16), hex_upper(b % 16)]
    }
}

/// The percent-encoding of a byte sequence, byte by byte.
pub open spec fn spec_encode(bytes: Seq<u8>) -> Seq<char>
    decreases bytes.len(),
{
    if bytes.len() == 0 {
        Seq::empty()
    } else {
        spec_encode(bytes.drop_last()) + encode_byte(bytes.last())
    }
}

/// The value of a hexadecimal digit (`0`-`9`, `A`-`F`).
pub open spec fn hex_value(c: char) -> int {
    if '0' <= c <= '9' { c as int - 48 } else { c as int - 55 }
}

/// Percent-decoding: a `%` two places from the end starts an escape `%XY` that stands
/// for the byte `0xXY`; any other character stands for itself.
pub open spec fn spec_decode(s: Seq<char>) -> Seq<u8>
    decreases s.len(),
{
    if s.len() == 0 {
        Seq::empty()
    } else if s.len() >= 3 && s[s.len() - 3] == '%' {
        spec_decode(s.subrange(0, s.len() - 3)).push(
            (hex_value(s[s.len() - 2]) * 16 + hex_value(s[s.len() - 1])) as u8,
        )
    } else {
        spec_decode(s.drop_last()).push(s.last() as u8)
    }
}

/// In an encoding, every `%` is followed by two hexadecimal digits, and the encoding
/// has at most three characters per byte.
pub proof fn lemma_encode_shape(bytes: Seq<u8>)
    ensures
        forall|i: int| 0 <= i < spec_encode(bytes).len() && #[trigger] spec_encode(bytes)[i] == '%'
            ==> i + 2 < spec_encode(bytes).len(),
        spec_encode(bytes).len() <= 3 * bytes.len(),
    decreases bytes.len(),
{
    if bytes.len() > 0 {
        let p = spec_encode(bytes.drop_last());
        let e = spec_encode(bytes);
        lemma_encode_shape(bytes.drop_last());
        let b = bytes.last();
        assert(e == p + encode_byte(b));
        assert forall|i: int| 0 <= i < e.len() && #[trigger] e[i] == '%' implies i + 2 < e.len() by {
            if i < p.len() {
                assert(e[i] == p[i]);
            } else if is_unreserved(b) {
                assert(e[i] == b as char);
            } else {
                assert(e[i] == encode_byte(b)[i - p.len()]);
                if i > p.len() {
                    let h = encode_byte(b)[i - p.len()];
                    assert(h == hex_upper(b / 16) || h == hex_upper(b % 16));
                }
            }
        }
    }
}

/// Percent-decoding gives back the bytes that were encoded.
pub proof fn lemma_percent_decode_encode(bytes: Seq<u8>)
    ensures
        spec_decode(spec_encode(bytes)) == bytes,
    decreases bytes.len(),
{
    if bytes.len() > 0 {
        let rest = bytes.drop_last();
        let p = spec_encode(rest);
        let e = spec_encode(bytes);
        let b = bytes.last();
        lemma_percent_decode_encode(rest);
        lemma_encode_shape(rest);
        assert(e == p + encode_byte(b));
        if is_unreserved(b) {
            assert(e.drop_last() =~= p);
            if e.len() >= 3 {
                assert(e[e.len() - 3] == p[p.len() - 2]);
                if p[p.len() - 2] == '%' {
                    assert(p.len() - 2 + 2 < p.len());
                }
            }
            assert((b as char) as u8 == b);
        } else {
            assert(e.subrange(0, e.len() - 3) =~= p);
            assert(e[e.len() - 3] == '%');
            let hi = b / 16;
            let lo = b % 16;
            assert(hex_value(hex_upper(hi)) == hi as int);
            assert(hex_value(hex_upper(lo)) == lo as int);
            assert((hi as int) * 16 + lo as int == b as int);
        }
        assert(bytes =~= rest.push(b));
    }
}

fn hex_digit(n: u8) -> (c: char)
    requires
        n < 16,
    ensures
        c == hex_upper(n),
{
    if n < 10 { (48 + n) as char } else { (55 + n) as char }
}

/// Percent-encodes the UTF-8 bytes of `input`.
pub fn encode(input: &str) -> (r: String)
    ensures
        r@ == spec_encode(input.spec_bytes()),
{
    let bytes = input.as_bytes();
    let n = bytes.len();
    let mut result = String::new();
    let mut i: usize = 0;
    while i < n
        invariant
            n == bytes@.len(),
            bytes@ == input.spec_bytes(),
            i <= n,
            result@ == spec_encode(bytes@.take(i as int)),
        decreases n - i,
    {
        let b = bytes[i];
        assert(bytes@.take(i as int + 1).drop_last() == bytes@.take(i as int));
        if (65 <= b && b <= 90) || (97 <= b && b <= 122) || (48 <= b && b <= 57) || b == 45 || b == 95
            || b == 46 || b == 126 {
            push_char(&mut result, b as char);
        } else {
            push_char(&mut result, '%');
            push_char(&mut result, hex_digit(b / 16));
            push_char(&mut result, hex_digit(b % 16));
        }
        i = i + 1;
    }
    assert(bytes@.take(n as int) == bytes@);
    result
}

} // verus!
