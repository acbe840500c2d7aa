//! The unpadded base64url encoding (RFC 4648, section 5), as used by PKCE and JWTs.
use vstd::prelude::*;

verus! {

/// Symbol `n` (`0 <= n < 64`) of the base64url alphabet: `A`-`Z`, `a`-`z`, `0`-`9`, `-`, `_`.
pub open spec fn b64_symbol(n: int) -> char {
    if n < 26 {
        (65 + n) as char
    } else if n < 52 {
        (97 + (n - 26)) as char
    } else if n < 62 {
        (48 + (n - 52)) as char
    } else if n == 62 {
        '-'
    } else {
        '_'
    }
}

/// Characters of the base64url alphabet.
pub open spec fn is_b64_symbol(c: char) -> bool {
    ('A' <= c <= 'Z') || ('a' <= c <= 'z') || ('0' <= c <= '9') || c == '-' || c == '_'
}

/// The unpadded base64url encoding of `data`: each group of three bytes becomes four
/// symbols of six bits each; a final group of one or two bytes becomes two or three
/// symbols, the unused low bits being zero.
pub open spec fn base64url_encode(data: Seq<u8>) -> Seq<char>
    decreases data.len(),
{
    if data.len() == 0 {
        Seq::empty()
    } else if data.len() == 1 {
        let b0 = data[0] as int;
        seq![b64_symbol(b0 / 4), b64_symbol((b0 % 4) * 16)]
    } else if data.len() == 2 {
        let b0 = data[0] as int;
        let b1 = data[1] as int;
        seq![b64_symbol(b0 / 4), b64_symbol((b0 % 4) * 16 + b1 / 16), b64_symbol((b1 % 16) * 4)]
    } else {
        let b0 = data[0] as int;
        let b1 = data[1] as int;
        let b2 = data[2] as int;
        seq![
            b64_symbol(b0 / 4),
            b64_symbol((b0 % 4) * 16 + b1 / 16),
            b64_symbol((b1 % 16) * 4 + b2 / 64),
            b64_symbol(b2 % 64),
        ] + base64url_encode(data.subrange(3, data.len() as int))
    }
}

/// The bytes whose unpadded base64url encoding is `text`, if there are any (there is
/// at most one such sequence: see [`lemma_encode_injective`]).
pub open spec fn base64url_decode(text: Seq<char>) -> Option<Seq<u8>> {
    if exists|b: Seq<u8>| base64url_encode(b) == text {
        Some(choose|b: Seq<u8>| base64url_encode(b) == text)
    } else {
        None
    }
}

/// Length of an encoding: four symbols per full group, plus two or three for a rest.
pub open spec fn encoded_len(n: nat) -> nat {
    4 * (n / 3) + if n % 3 == 0 { 0 } else { n % 3 + 1 }
}

proof fn lemma_symbol(n: int)
    requires
        0 <= n < 64,
    ensures
        is_b64_symbol(b64_symbol(n)),
        n < 26 ==> b64_symbol(n) as int == 65 + n,
        26 <= n < 52 ==> b64_symbol(n) as int == 97 + (n - 26),
        52 <= n < 62 ==> b64_symbol(n) as int == 48 + (n - 52),
{
}

proof fn lemma_symbol_injective(m: int, n: int)
    requires
        0 <= m < 64,
        0 <= n < 64,
        b64_symbol(m) == b64_symbol(n),
    ensures
        m == n,
{
    lemma_symbol(m);
    lemma_symbol(n);
}

pub proof fn lemma_encode_len(data: Seq<u8>)
    ensures
        base64url_encode(data).len() == encoded_len(data.len()),
    decreases data.len(),
{
    if data.len() >= 3 {
        lemma_encode_len(data.subrange(3, data.len() as int));
    }
}

/// Every character of an encoding is a base64url symbol (so never `.` nor `=`).
pub proof fn lemma_encode_symbols(data: Seq<u8>)
    ensures
        forall|i: int| 0 <= i < base64url_encode(data).len() ==> is_b64_symbol(#[trigger] base64url_encode(data)[i]),
    decreases data.len(),
{
    let e = base64url_encode(data);
    if data.len() == 0 {
    } else if data.len() == 1 {
        let b0 = data[0] as int;
        lemma_symbol(b0 / 4);
        lemma_symbol((b0 % 4) * 16);
    } else if data.len() == 2 {
        let b0 = data[0] as int;
        let b1 = data[1] as int;
        lemma_symbol(b0 / 4);
        lemma_symbol((b0 % 4) * 16 + b1 / 16);
        lemma_symbol((b1 % 16) * 4);
    } else {
        let b0 = data[0] as int;
        let b1 = data[1] as int;
        let b2 = data[2] as int;
        let rest = data.subrange(3, data.len() as int);
        lemma_symbol(b0 / 4);
        lemma_symbol((b0 % 4) * 16 + b1 / 16);
        lemma_symbol((b1 % 16) * 4 + b2 / 64);
        lemma_symbol(b2 % 64);
        lemma_encode_symbols(rest);
        assert forall|i: int| 0 <= i < e.len() implies is_b64_symbol(#[trigger] e[i]) by {
            if i >= 4 {
                assert(e[i] == base64url_encode(rest)[i - 4]);
            }
        }
    }
}

proof fn lemma_encoded_len_injective(m: nat, n: nat)
    requires
        encoded_len(m) == encoded_len(n),
    ensures
        m == n,
{
}

proof fn lemma_group(b0: int, b1: int, b2: int, c0: int, c1: int, c2: int)
    requires
        0 <= b0 < 256 && 0 <= b1 < 256 && 0 <= b2 < 256,
        0 <= c0 < 256 && 0 <= c1 < 256 && 0 <= c2 < 256,
        b0 / 4 == c0 / 4,
        (b0 % 4) * 16 + b1 / 16 == (c0 % 4) * 16 + c1 / 16,
        (b1 % 16) * 4 + b2 / 64 == (c1 % 16) * 4 + c2 / 64,
        b2 % 64 == c2 % 64,
    ensures
        b0 == c0 && b1 == c1 && b2 == c2,
{
}

/// Two byte sequences with the same encoding are equal.
pub proof fn lemma_encode_injective(a: Seq<u8>, b: Seq<u8>)
    requires
        base64url_encode(a) == base64url_encode(b),
    ensures
        a == b,
    decreases a.len(),
{
    lemma_encode_len(a);
    lemma_encode_len(b);
    lemma_encoded_len_injective(a.len(), b.len());
    let ea = base64url_encode(a);
    let eb = base64url_encode(b);
    if a.len() == 0 {
        assert(a =~= b);
    } else if a.len() == 1 {
        let (a0, b0) = (a[0] as int, b[0] as int);
        assert(ea[0] == b64_symbol(a0 / 4) && eb[0] == b64_symbol(b0 / 4));
        assert(ea[1] == b64_symbol((a0 % 4) * 16) && eb[1] == b64_symbol((b0 % 4) * 16));
        lemma_symbol_injective(a0 / 4, b0 / 4);
        lemma_symbol_injective((a0 % 4) * 16, (b0 % 4) * 16);
        lemma_group(a0, 0, 0, b0, 0, 0);
        assert(a =~= b);
    } else if a.len() == 2 {
        let (a0, b0) = (a[0] as int, b[0] as int);
        let (a1, b1) = (a[1] as int, b[1] as int);
        assert(ea[0] == b64_symbol(a0 / 4) && eb[0] == b64_symbol(b0 / 4));
        assert(ea[1] == b64_symbol((a0 % 4) * 16 + a1 / 16) && eb[1] == b64_symbol((b0 % 4) * 16 + b1 / 16));
        assert(ea[2] == b64_symbol((a1 % 16) * 4) && eb[2] == b64_symbol((b1 % 16) * 4));
        lemma_symbol_injective(a0 / 4, b0 / 4);
        lemma_symbol_injective((a0 % 4) * 16 + a1 / 16, (b0 % 4) * 16 + b1 / 16);
        lemma_symbol_injective((a1 % 16) * 4, (b1 % 16) * 4);
        lemma_group(a0, a1, 0, b0, b1, 0);
        assert(a =~= b);
    } else {
        let (a0, b0) = (a[0] as int, b[0] as int);
        let (a1, b1) = (a[1] as int, b[1] as int);
        let (a2, b2) = (a[2] as int, b[2] as int);
        let ra = a.subrange(3, a.len() as int);
        let rb = b.subrange(3, b.len() as int);
        assert(ea[0] == b64_symbol(a0 / 4) && eb[0] == b64_symbol(b0 / 4));
        assert(ea[1] == b64_symbol((a0 % 4) * 16 + a1 / 16) && eb[1] == b64_symbol((b0 % 4) * 16 + b1 / 16));
        assert(ea[2] == b64_symbol((a1 % 16) * 4 + a2 / 64) && eb[2] == b64_symbol((b1 % 16) * 4 + b2 / 64));
        assert(ea[3] == b64_symbol(a2 % 64) && eb[3] == b64_symbol(b2 % 64));
        lemma_symbol_injective(a0 / 4, b0 / 4);
        lemma_symbol_injective((a0 % 4) * 16 + a1 / 16, (b0 % 4) * 16 + b1 / 16);
        lemma_symbol_injective((a1 % 16) * 4 + a2 / 64, (b1 % 16) * 4 + b2 / 64);
        lemma_symbol_injective(a2 % 64, b2 % 64);
        lemma_group(a0, a1, a2, b0, b1, b2);
        assert(base64url_encode(ra) =~= ea.subrange(4, ea.len() as int));
        assert(base64url_encode(rb) =~= eb.subrange(4, eb.len() as int));
        lemma_encode_injective(ra, rb);
        assert(a =~= seq![a[0], a[1], a[2]] + ra);
        assert(b =~= seq![b[0], b[1], b[2]] + rb);
    }
}

/// Decoding gives back what was encoded.
pub proof fn lemma_decode_encode(data: Seq<u8>)
    ensures
        base64url_decode(base64url_encode(data)) == Some(data),
{
    let t = base64url_encode(data);
    assert(exists|b: Seq<u8>| base64url_encode(b) == t);
    let c = choose|b: Seq<u8>| base64url_encode(b) == t;
    lemma_encode_injective(c, data);
}

} // verus!
