//! A verified hexadecimal codec over ASCII bytes.
//!
//! Secret files may hold a secret key as a 64-character hex encoding;
//! command-line secrets are always given in hex. The decoder accepts
//! both upper- and lower-case digits; the encoder emits lower case.

use vstd::prelude::*;

verus! {

/// True of the ASCII code of a hexadecimal digit (`0-9`, `a-f`, `A-F`).
pub open spec fn is_hex_digit(b: u8) -> bool {
    (48 <= b && b <= 57) || (97 <= b && b <= 102) || (65 <= b && b <= 70)
}

/// The numeric value denoted by the ASCII code of a hexadecimal digit.
pub open spec fn hex_digit_value(b: u8) -> u8
    recommends
        is_hex_digit(b),
{
    if 48 <= b && b <= 57 {
        (b - 48) as u8
    } else if 97 <= b && b <= 102 {
        (b - 87) as u8
    } else {
        (b - 55) as u8
    }
}

/// The lower-case ASCII hexadecimal digit denoting a value below 16.
pub open spec fn hex_digit_of(v: u8) -> u8
    recommends
        v < 16,
{
    if v < 10 {
        (48 + v) as u8
    } else {
        (87 + v) as u8
    }
}

/// True when every byte of `s` is the ASCII code of a hexadecimal digit.
pub open spec fn is_hex_seq(s: Seq<u8>) -> bool {
    forall|i: int| 0 <= i < s.len() ==> is_hex_digit(#[trigger] s[i])
}

/// The byte denoted by a pair of hexadecimal digits, high digit first.
pub open spec fn hex_pair_value(hi: u8, lo: u8) -> u8
    recommends
        is_hex_digit(hi),
        is_hex_digit(lo),
{
    (hex_digit_value(hi) * 16 + hex_digit_value(lo)) as u8
}

/// The bytes denoted by a sequence of hexadecimal digit pairs.
pub open spec fn hex_decode_seq(s: Seq<u8>) -> Seq<u8>
    recommends
        s.len() % 2 == 0,
        is_hex_seq(s),
{
    Seq::new(s.len() / 2, |i: int| hex_pair_value(s[2 * i], s[2 * i + 1]))
}

/// The lower-case hexadecimal encoding of a sequence of bytes.
pub open spec fn hex_encode_seq(b: Seq<u8>) -> Seq<u8> {
    Seq::new(
        b.len() * 2,
        |i: int|
            if i % 2 == 0 {
                hex_digit_of((b[i / 2] / 16) as u8)
            } else {
                hex_digit_of((b[i / 2] % 16) as u8)
            },
    )
}

/// The numeric value of one hexadecimal digit, or `None` when the byte
/// is not the ASCII code of a hexadecimal digit.
fn hex_value(b: u8) -> (r: Option<u8>)
    ensures
        r is Some <==> is_hex_digit(b),
        r matches Some(v) ==> v == hex_digit_value(b),
{
    if 48 <= b && b <= 57 {
        Some(b - 48)
    } else if 97 <= b && b <= 102 {
        Some(b - 87)
    } else if 65 <= b && b <= 70 {
        Some(b - 55)
    } else {
        None
    }
}

/// Decode a hexadecimal byte string into the bytes it denotes.
/// Succeeds exactly when the input has even length and holds only
/// hexadecimal digits.
pub fn hex_decode(s: &[u8]) -> (r: Option<Vec<u8>>)
    ensures
        r is Some <==> s@.len() % 2 == 0 && is_hex_seq(s@),
        r matches Some(v) ==> v@ == hex_decode_seq(s@),
{
    let n = s.len();
    if n % 2 != 0 {
        return None;
    }
    let mut out: Vec<u8> = Vec::new();
    let mut i: usize = 0;
    while i < n
        invariant
            n == s@.len(),
            n % 2 == 0,
            i % 2 == 0,
            i <= n,
            out@.len() == i / 2,
            forall|j: int| 0 <= j < i ==> is_hex_digit(#[trigger] s@[j]),
            forall|j: int| 0 <= j < i / 2 ==> out@[j] == hex_pair_value(s@[2 * j], s@[2 * j + 1]),
        decreases n - i,
    {
        let hi = match hex_value(s[i]) {
            Some(v) => v,
            None => {
                return None;
            },
        };
        let lo = match hex_value(s[i + 1]) {
            Some(v) => v,
            None => {
                return None;
            },
        };
        out.push(hi * 16 + lo);
        i = i + 2;
    }
    proof {
        assert(out@ =~= hex_decode_seq(s@));
    }
    Some(out)
}

/// Encode bytes as their lower-case hexadecimal representation,
/// two digits per byte.
pub fn hex_encode(b: &[u8]) -> (r: Vec<u8>)
    ensures
        r@ == hex_encode_seq(b@),
{
    let n = b.len();
    let mut out: Vec<u8> = Vec::new();
    let mut i: usize = 0;
    while i < n
        invariant
            n == b@.len(),
            i <= n,
            out@.len() == 2 * i,
            forall|j: int| 0 <= j < 2 * i ==> out@[j] == hex_encode_seq(b@)[j],
        decreases n - i,
    {
        let byte = b[i];
        let hi = byte / 16;
        let lo = byte % 16;
        let hi_digit = if hi < 10 {
            48 + hi
        } else {
            87 + hi
        };
        let lo_digit = if lo < 10 {
            48 + lo
        } else {
            87 + lo
        };
        out.push(hi_digit);
        out.push(lo_digit);
        i = i + 1;
    }
    proof {
        assert(out@ =~= hex_encode_seq(b@));
    }
    out
}

/// Encoding a value below 16 as a hexadecimal digit and reading the
/// digit back yields the value.
proof fn lemma_digit_round_trip(v: u8)
    requires
        v < 16,
    ensures
        is_hex_digit(hex_digit_of(v)),
        hex_digit_value(hex_digit_of(v)) == v,
{
}

/// Hexadecimal encoding round-trips: the encoding of any byte sequence
/// is a valid even-length hexadecimal digit string, and decoding it
/// yields the original bytes.
pub proof fn lemma_hex_round_trip(b: Seq<u8>)
    ensures
        hex_encode_seq(b).len() == 2 * b.len(),
        hex_encode_seq(b).len() % 2 == 0,
        is_hex_seq(hex_encode_seq(b)),
        hex_decode_seq(hex_encode_seq(b)) == b,
{
    let e = hex_encode_seq(b);
    assert forall|i: int| 0 <= i < e.len() implies is_hex_digit(#[trigger] e[i]) by {
        if i % 2 == 0 {
            lemma_digit_round_trip((b[i / 2] / 16) as u8);
        } else {
            lemma_digit_round_trip((b[i / 2] % 16) as u8);
        }
    }
    let d = hex_decode_seq(e);
    assert forall|i: int| 0 <= i < d.len() implies d[i] == b[i] by {
        assert(e[2 * i] == hex_digit_of((b[i] / 16) as u8));
        assert(e[2 * i + 1] == hex_digit_of((b[i] % 16) as u8));
        lemma_digit_round_trip((b[i] / 16) as u8);
        lemma_digit_round_trip((b[i] % 16) as u8);
    }
    assert(d =~= b);
}

} // verus!
