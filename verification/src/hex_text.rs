//! Lowercase hexadecimal text, modelled over ASCII byte sequences.

use vstd::prelude::*;

verus! {

/// True iff `b` is the ASCII code of a hexadecimal digit (either case).
pub open spec fn is_hex_digit(b: u8) -> bool {
    (48 <= b && b <= 57) || (97 <= b && b <= 102) || (65 <= b && b <= 70)
}

/// Numeric value of the ASCII hex digit `b`.
pub open spec fn hex_digit_value(b: u8) -> u8
    recommends
        is_hex_digit(b),
{
    if 48 <= b && b <= 57 {
        (b - 48) as u8
    } else if 97 <= b && b <= 102 {
        (b - 87) as u8
    } else if 65 <= b && b <= 70 {
        (b - 55) as u8
    } else {
        0
    }
}

/// ASCII code of the lowercase hex digit denoting `n`, for `n` in `0..16`.
pub open spec fn hex_digit_of(n: u8) -> u8
    recommends
        n < 16,
{
    if n < 10 {
        (48 + n) as u8
    } else {
        (87 + n) as u8
    }
}

/// True iff every byte of `s` is an ASCII hex digit.
pub open spec fn all_hex_digits(s: Seq<u8>) -> bool {
    forall|i: int| 0 <= i < s.len() ==> is_hex_digit(#[trigger] s[i])
}

/// Lowercase hex encoding of `bytes`: two ASCII digits per byte, in order.
pub open spec fn hex_encode(bytes: Seq<u8>) -> Seq<u8> {
    Seq::new(
        bytes.len() * 2,
        |i: int|
            if i % 2 == 0 {
                hex_digit_of((bytes[i / 2] / 16) as u8)
            } else {
                hex_digit_of((bytes[i / 2] % 16) as u8)
            },
    )
}

/// Bytes denoted by an even-length sequence of hex digits.
pub open spec fn hex_decode(s: Seq<u8>) -> Seq<u8>
    recommends
        s.len() % 2 == 0,
        all_hex_digits(s),
{
    Seq::new(s.len() / 2, |i: int| (hex_digit_value(s[2 * i]) * 16 + hex_digit_value(s[2 * i + 1])) as u8)
}

/// Encoding a byte gives two digits that decode back to it, so hex text
/// round-trips through `hex_encode` and `hex_decode`.
pub proof fn lemma_hex_roundtrip(bytes: Seq<u8>)
    ensures
        hex_encode(bytes).len() == bytes.len() * 2,
        all_hex_digits(hex_encode(bytes)),
        hex_decode(hex_encode(bytes)) =~= bytes,
{
    let e = hex_encode(bytes);
    assert forall|i: int| 0 <= i < e.len() implies is_hex_digit(#[trigger] e[i]) by {
        if i % 2 == 0 {
            assert(bytes[i / 2] / 16 < 16);
        }
    }
    assert forall|i: int| 0 <= i < bytes.len() implies hex_decode(e)[i] == bytes[i] by {
        let b = bytes[i];
        assert(e[2 * i] == hex_digit_of((b / 16) as u8));
        assert(e[2 * i + 1] == hex_digit_of((b % 16) as u8));
        assert(hex_digit_value(hex_digit_of((b / 16) as u8)) == b / 16);
        assert(hex_digit_value(hex_digit_of((b % 16) as u8)) == b % 16);
    }
}

/// ASCII code of the lowercase hex digit denoting `n`.
pub fn hex_digit(n: u8) -> (r: u8)
    requires
        n < 16,
    ensures
        r == hex_digit_of(n),
{
    if n < 10 {
        48 + n
    } else {
        87 + n
    }
}

/// True iff `b` is an ASCII hex digit.
pub fn check_hex_digit(b: u8) -> (r: bool)
    ensures
        r == is_hex_digit(b),
{
    (48 <= b && b <= 57) || (97 <= b && b <= 102) || (65 <= b && b <= 70)
}

/// Numeric value of the ASCII hex digit `b`.
pub fn hex_value(b: u8) -> (r: u8)
    requires
        is_hex_digit(b),
    ensures
        r == hex_digit_value(b),
{
    if 48 <= b && b <= 57 {
        b - 48
    } else if 97 <= b && b <= 102 {
        b - 87
    } else {
        b - 55
    }
}

/// Lowercase hex encoding of `bytes`.
pub fn encode_hex(bytes: &[u8]) -> (out: Vec<u8>)
    ensures
        out@ == hex_encode(bytes@),
{
    let mut out: Vec<u8> = Vec::new();
    let mut i: usize = 0;
    while i < bytes.len()
        invariant
            i <= bytes@.len(),
            out@ == hex_encode(bytes@.take(i as int)),
        decreases bytes@.len() - i,
    {
        let b = bytes[i];
        let hi = hex_digit(b / 16);
        let lo = hex_digit(b % 16);
        out.push(hi);
        out.push(lo);
        i = i + 1;
        assert(out@ =~= hex_encode(bytes@.take(i as int)));
    }
    assert(bytes@.take(bytes@.len() as int) =~= bytes@);
    out
}

/// The characters with the code points of `s`, for ASCII byte sequences.
pub open spec fn chars_of_bytes(s: Seq<u8>) -> Seq<char> {
    s.map(|i: int, b: u8| b as char)
}

/// Hex digits are ASCII: every one is below 128.
pub proof fn lemma_all_hex_digits_ascii(s: Seq<u8>)
    requires
        all_hex_digits(s),
    ensures
        forall|i: int| 0 <= i < s.len() ==> #[trigger] s[i] < 128,
{
}

/// Relies on `String::from_utf8`: bytes below 128 decode to the characters
/// with the same code points, one character per byte.
#[verifier::external_body]
pub fn ascii_string(bytes: Vec<u8>) -> (r: String)
    requires
        forall|i: int| 0 <= i < bytes@.len() ==> bytes@[i] < 128,
    ensures
        r@ == chars_of_bytes(bytes@),
{
    match String::from_utf8(bytes) {
        Ok(s) => s,
        Err(_) => String::new(),
    }
}

/// Bytes denoted by the hex text `s`; `None` unless `s` is an even-length
/// string of hex digits.
pub fn decode_hex(s: &[u8]) -> (r: Option<Vec<u8>>)
    ensures
        r is Some <==> s@.len() % 2 == 0 && all_hex_digits(s@),
        r matches Some(v) ==> v@ == hex_decode(s@),
{
    if s.len() % 2 != 0 {
        return None;
    }
    let mut out: Vec<u8> = Vec::new();
    let mut i: usize = 0;
    while i < s.len()
        invariant
            s@.len() % 2 == 0,
            i % 2 == 0,
            i <= s@.len(),
            all_hex_digits(s@.take(i as int)),
            out@ == hex_decode(s@.take(i as int)),
        decreases s@.len() - i,
    {
        let hi = s[i];
        let lo = s[i + 1];
        if !check_hex_digit(hi) || !check_hex_digit(lo) {
            return None;
        }
        let b = hex_value(hi) * 16 + hex_value(lo);
        out.push(b);
        i = i + 2;
        assert(all_hex_digits(s@.take(i as int)));
        assert(out@ =~= hex_decode(s@.take(i as int)));
    }
    assert(s@.take(s@.len() as int) =~= s@);
    Some(out)
}

} // verus!
