//! Fixed-length account addresses with strict and relaxed textual codecs.
//!
//! An address is exactly 32 opaque bytes. Its text form is lowercase hex,
//! `0x`-prefixed in the canonical rendering: special addresses (those in
//! `0x0..=0xf`) render in short form, all others in the full 64-digit long
//! form.

use vstd::prelude::*;
use vstd::string::StringSliceAdditionalSpecFns;

use crate::hex_text::{
    all_hex_digits, ascii_string, chars_of_bytes, decode_hex, encode_hex, hex_decode, hex_encode,
    lemma_all_hex_digits_ascii, lemma_hex_roundtrip,
};

verus! {

/// Why an address failed to parse.
#[derive(Clone, Copy, Debug, PartialEq, Eq, Structural)]
pub enum AccountAddressParseError {
    /// A byte buffer of the wrong length was supplied.
    IncorrectNumberOfBytes,
    /// The hex payload was malformed: a non-digit character, or a length
    /// that does not denote exactly 32 bytes.
    InvalidHexChars,
    /// The string was empty, or bare `0x` with no digits.
    TooShort,
    /// The hex payload had more than 64 digits.
    TooLong,
    /// Strict parsing requires the leading `0x`.
    LeadingZeroXRequired,
    /// Strict parsing requires long form for non-special addresses.
    LongFormRequiredUnlessSpecial,
    /// Strict parsing forbids padding zeroes in the short form.
    InvalidPaddingZeroes,
}

/// An account address: exactly 32 bytes, compared bytewise.
#[derive(Clone, Copy, Debug)]
pub struct AccountAddress {
    bytes: [u8; 32],
}

impl View for AccountAddress {
    type V = Seq<u8>;

    closed spec fn view(&self) -> Seq<u8> {
        self.bytes@
    }
}

/// Every address views as exactly 32 bytes.
pub broadcast proof fn lemma_address_len(a: AccountAddress)
    ensures
        (#[trigger] a@).len() == 32,
{
}

impl PartialEq for AccountAddress {
    fn eq(&self, other: &Self) -> (r: bool) {
        let mut i: usize = 0;
        while i < 32
            invariant
                i <= 32,
                forall|j: int| 0 <= j < i ==> self@[j] == other@[j],
            decreases 32 - i,
        {
            if self.bytes[i] != other.bytes[i] {
                return false;
            }
            i = i + 1;
        }
        proof {
            assert(self@ =~= other@);
        }
        true
    }
}

impl vstd::std_specs::cmp::PartialEqSpecImpl for AccountAddress {
    open spec fn obeys_eq_spec() -> bool {
        true
    }

    open spec fn eq_spec(&self, other: &Self) -> bool {
        self@ == other@
    }
}

impl Eq for AccountAddress {

}

/// The 32-byte sequence that is all zero except for `v` in the last place.
pub open spec fn single_byte_address(v: u8) -> Seq<u8> {
    Seq::new(32, |i: int| if i == 31 { v } else { 0u8 })
}

/// True iff the address is special: the first 31 bytes are zero and the last
/// byte is below 16, i.e. the address lies in `0x0..=0xf`.
pub open spec fn is_special_bytes(a: Seq<u8>) -> bool {
    (forall|i: int| 0 <= i < 31 ==> a[i] == 0) && a[31] < 16
}

/// Count of leading ASCII `0` digits of `s`.
pub open spec fn leading_zero_digits(s: Seq<u8>) -> nat
    decreases s.len(),
{
    if s.len() == 0 || s[0] != 48u8 {
        0
    } else {
        1 + leading_zero_digits(s.drop_first())
    }
}

/// The hex digits of `a` with leading zeroes stripped; `0` if all are zero.
pub open spec fn trimmed_hex(a: Seq<u8>) -> Seq<u8> {
    let h = hex_encode(a);
    let k = leading_zero_digits(h);
    if k == h.len() {
        seq![48u8]
    } else {
        h.skip(k as int)
    }
}

/// The canonical rendering of `a`: `0x` followed by the short form for
/// special addresses and by the 64-digit long form otherwise.
pub open spec fn standard_string_bytes(a: Seq<u8>) -> Seq<u8> {
    seq![48u8, 120u8] + if is_special_bytes(a) {
        trimmed_hex(a)
    } else {
        hex_encode(a)
    }
}

/// True iff `s` starts with the two ASCII bytes `0x`.
pub open spec fn has_0x_prefix(s: Seq<u8>) -> bool {
    s.len() >= 2 && s[0] == 48u8 && s[1] == 120u8
}

/// Meaning of a 64-digit hex payload: the 32 bytes it denotes, or a hex
/// error on any other length or any non-digit.
pub open spec fn parse_hex_64(h: Seq<u8>) -> Result<Seq<u8>, AccountAddressParseError> {
    if h.len() == 64 && all_hex_digits(h) {
        Ok(hex_decode(h))
    } else {
        Err(AccountAddressParseError::InvalidHexChars)
    }
}

/// `h` left-padded with ASCII `0` digits to 64 places.
pub open spec fn zero_pad_64(h: Seq<u8>) -> Seq<u8>
    recommends
        h.len() < 64,
{
    Seq::new((64 - h.len()) as nat, |i: int| 48u8) + h
}

/// Meaning of a `0x`-prefixed hex literal: the payload, left-padded with
/// zeroes when shorter than 64 digits.
pub open spec fn parse_hex_literal(s: Seq<u8>) -> Result<Seq<u8>, AccountAddressParseError> {
    if !has_0x_prefix(s) {
        Err(AccountAddressParseError::LeadingZeroXRequired)
    } else {
        let h = s.skip(2);
        if h.len() < 64 {
            parse_hex_64(zero_pad_64(h))
        } else {
            parse_hex_64(h)
        }
    }
}

/// Relaxed parsing: the `0x` prefix is optional, and 1 to 64 hex digits are
/// accepted. Empty input and bare `0x` are too short.
pub open spec fn parse_relaxed(s: Seq<u8>) -> Result<Seq<u8>, AccountAddressParseError> {
    if !has_0x_prefix(s) {
        if s.len() == 0 {
            Err(AccountAddressParseError::TooShort)
        } else {
            parse_hex_literal(seq![48u8, 120u8] + s)
        }
    } else if s.len() == 2 {
        Err(AccountAddressParseError::TooShort)
    } else {
        parse_hex_literal(s)
    }
}

/// Strict parsing: the `0x` prefix is required, and only the 66-byte long
/// form is accepted, except that a special address may (and must) use the
/// unpadded 3-byte short form.
pub open spec fn parse_strict(s: Seq<u8>) -> Result<Seq<u8>, AccountAddressParseError> {
    if !has_0x_prefix(s) {
        Err(AccountAddressParseError::LeadingZeroXRequired)
    } else {
        match parse_relaxed(s) {
            Err(e) => Err(e),
            Ok(a) => if s.len() != 66 {
                if !is_special_bytes(a) {
                    Err(AccountAddressParseError::LongFormRequiredUnlessSpecial)
                } else if s.len() != 3 {
                    Err(AccountAddressParseError::InvalidPaddingZeroes)
                } else {
                    Ok(a)
                }
            } else {
                Ok(a)
            },
        }
    }
}

/// True iff the address result `r` carries the bytes or the error of the
/// parse result `s`.
pub open spec fn addr_result_matches(
    r: Result<AccountAddress, AccountAddressParseError>,
    s: Result<Seq<u8>, AccountAddressParseError>,
) -> bool {
    match (r, s) {
        (Ok(a), Ok(b)) => a@ == b,
        (Err(e), Err(f)) => e == f,
        _ => false,
    }
}

/// An address that is zero in all but its last byte is special exactly
/// when that byte is below 16: the addresses `0x0` through `0xf` are
/// special, and `0x10` and above are not.
pub proof fn lemma_special_addresses(v: u8)
    ensures
        is_special_bytes(single_byte_address(v)) == (v < 16),
{
    assert(forall|i: int| 0 <= i < 31 ==> single_byte_address(v)[i] == 0);
    assert(single_byte_address(v)[31] == v);
}

#[verifier::external_type_specification]
#[verifier::external_body]
pub struct ExBigUint(num::BigUint);

/// The two ASCII bytes `0x` followed by `suffix`.
fn with_0x_prefix(suffix: &[u8]) -> (out: Vec<u8>)
    ensures
        out@ == seq![48u8, 120u8] + suffix@,
{
    let mut out: Vec<u8> = Vec::new();
    out.push(48u8);
    out.push(120u8);
    let mut i: usize = 0;
    while i < suffix.len()
        invariant
            i <= suffix@.len(),
            out@ == seq![48u8, 120u8] + suffix@.take(i as int),
        decreases suffix@.len() - i,
    {
        out.push(suffix[i]);
        i = i + 1;
        assert(out@ =~= seq![48u8, 120u8] + suffix@.take(i as int));
    }
    proof {
        assert(suffix@.take(suffix@.len() as int) =~= suffix@);
    }
    out
}

impl AccountAddress {
    /// Wrap 32 raw bytes as an address.
    pub fn new(address: [u8; 32]) -> (r: Self)
        ensures
            r@ == address@,
    {
        AccountAddress { bytes: address }
    }

    /// The address `0x0`.
    pub fn zero() -> (r: Self)
        ensures
            r@ == single_byte_address(0),
    {
        Self::with_last_byte(0)
    }

    /// The address `0x1`.
    pub fn get_hex_address_one() -> (r: Self)
        ensures
            r@ == single_byte_address(1),
    {
        Self::with_last_byte(1)
    }

    /// The address `0x2`.
    pub fn get_hex_address_two() -> (r: Self)
        ensures
            r@ == single_byte_address(2),
    {
        Self::with_last_byte(2)
    }

    /// The address `0x3`.
    pub fn get_hex_address_three() -> (r: Self)
        ensures
            r@ == single_byte_address(3),
    {
        Self::with_last_byte(3)
    }

    /// The address `0x4`.
    pub fn get_hex_address_four() -> (r: Self)
        ensures
            r@ == single_byte_address(4),
    {
        Self::with_last_byte(4)
    }

    /// The address `0xa`.
    pub fn get_hex_address_ten() -> (r: Self)
        ensures
            r@ == single_byte_address(10),
    {
        Self::with_last_byte(10)
    }

    fn with_last_byte(v: u8) -> (r: Self)
        ensures
            r@ == single_byte_address(v),
    {
        let mut bytes: [u8; 32] = [0u8; 32];
        bytes[31] = v;
        proof {
            assert(bytes@ =~= single_byte_address(v));
        }
        AccountAddress { bytes }
    }

    /// True iff the address is special, i.e. lies in `0x0..=0xf`.
    pub fn is_special(&self) -> (r: bool)
        ensures
            r == is_special_bytes(self@),
    {
        let mut i: usize = 0;
        while i < 31
            invariant
                i <= 31,
                forall|j: int| 0 <= j < i ==> self@[j] == 0,
            decreases 31 - i,
        {
            if self.bytes[i] != 0 {
                return false;
            }
            i = i + 1;
        }
        self.bytes[31] < 16
    }

    /// The 32 bytes of the address as a fresh vector.
    pub fn to_vec(&self) -> (r: Vec<u8>)
        ensures
            r@ == self@,
    {
        vstd::slice::slice_to_vec(self.bytes.as_slice())
    }

    /// The 32 bytes of the address.
    pub fn into_bytes(self) -> (r: [u8; 32])
        ensures
            r@ == self@,
    {
        self.bytes
    }

    /// Relies on `num::BigUint::from_bytes_be`: the address's 32 bytes read
    /// as a big-endian unsigned integer.
    #[verifier::external_body]
    pub fn to_big_uint(self) -> num::BigUint {
        num::BigUint::from_bytes_be(&self.bytes)
    }

    /// Wrap a byte buffer as an address; it must hold exactly 32 bytes.
    pub fn from_bytes(bytes: &[u8]) -> (r: Result<Self, AccountAddressParseError>)
        ensures
            bytes@.len() == 32 ==> (r matches Ok(a) && a@ == bytes@),
            bytes@.len() != 32 ==> r == Err::<Self, _>(AccountAddressParseError::InvalidHexChars),
    {
        if bytes.len() != 32 {
            return Err(AccountAddressParseError::InvalidHexChars);
        }
        let mut out: [u8; 32] = [0u8; 32];
        let mut i: usize = 0;
        while i < 32
            invariant
                i <= 32,
                bytes@.len() == 32,
                forall|j: int| 0 <= j < i ==> out@[j] == bytes@[j],
            decreases 32 - i,
        {
            out[i] = bytes[i];
            i = i + 1;
        }
        proof {
            assert(out@ =~= bytes@);
        }
        Ok(AccountAddress { bytes: out })
    }

    /// The canonical 64-digit lowercase hex form, with no prefix.
    pub fn to_canonical_string(&self) -> (r: String)
        ensures
            r@ == chars_of_bytes(hex_encode(self@)),
    {
        let digits = encode_hex(self.bytes.as_slice());
        proof {
            lemma_hex_roundtrip(self@);
            lemma_all_hex_digits_ascii(digits@);
        }
        ascii_string(digits)
    }

    /// The lowercase hex form with no prefix, as in `to_canonical_string`.
    pub fn to_hex(&self) -> (r: String)
        ensures
            r@ == chars_of_bytes(hex_encode(self@)),
    {
        self.to_canonical_string()
    }

    /// The hex digits with leading zeroes stripped; `0` for the zero address.
    pub fn short_str_lossless(&self) -> (r: String)
        ensures
            r@ == chars_of_bytes(trimmed_hex(self@)),
    {
        let trimmed = self.trimmed_hex_digits();
        proof {
            lemma_trimmed_hex_is_hex(self@);
            lemma_all_hex_digits_ascii(trimmed@);
        }
        ascii_string(trimmed)
    }

    /// `0x` followed by the trimmed hex digits.
    pub fn to_hex_literal(&self) -> (r: String)
        ensures
            r@ == chars_of_bytes(seq![48u8, 120u8] + trimmed_hex(self@)),
    {
        let trimmed = self.trimmed_hex_digits();
        let out = with_0x_prefix(trimmed.as_slice());
        proof {
            lemma_trimmed_hex_is_hex(self@);
            lemma_all_hex_digits_ascii(trimmed@);
        }
        ascii_string(out)
    }

    /// The standard rendering: short form for special addresses, long form
    /// for all others, always `0x`-prefixed.
    #[verifier::rlimit(30)]
    pub fn to_standard_string(&self) -> (r: String)
        ensures
            r@ == chars_of_bytes(standard_string_bytes(self@)),
    {
        let special = self.is_special();
        let suffix = if special {
            self.trimmed_hex_digits()
        } else {
            encode_hex(self.bytes.as_slice())
        };
        proof {
            if special {
                lemma_trimmed_hex_is_hex(self@);
            } else {
                lemma_hex_roundtrip(self@);
            }
            assert(all_hex_digits(suffix@));
            lemma_all_hex_digits_ascii(suffix@);
        }
        let out = with_0x_prefix(suffix.as_slice());
        proof {
            assert(out@ =~= standard_string_bytes(self@));
        }
        ascii_string(out)
    }

    /// The trimmed hex digits of the address, as ASCII bytes.
    fn trimmed_hex_digits(&self) -> (r: Vec<u8>)
        ensures
            r@ == trimmed_hex(self@),
    {
        let digits = encode_hex(self.bytes.as_slice());
        proof {
            lemma_hex_roundtrip(self@);
        }
        let mut k: usize = 0;
        while k < digits.len() && digits[k] == 48u8
            invariant
                k <= digits@.len(),
                forall|j: int| 0 <= j < k ==> digits@[j] == 48u8,
            decreases digits@.len() - k,
        {
            k = k + 1;
        }
        proof {
            lemma_leading_zero_digits(digits@, k as int);
        }
        if k == digits.len() {
            let mut out: Vec<u8> = Vec::new();
            out.push(48u8);
            proof {
                assert(out@ =~= seq![48u8]);
            }
            out
        } else {
            let tail = vstd::slice::slice_subrange(digits.as_slice(), k, digits.len());
            vstd::slice::slice_to_vec(tail)
        }
    }

    /// Parse a hex payload of exactly 64 digits.
    pub fn from_hex(s: &str) -> (r: Result<Self, AccountAddressParseError>)
        ensures
            addr_result_matches(r, parse_hex_64(s.spec_bytes())),
    {
        Self::from_hex_64(s.as_bytes())
    }

    fn from_hex_64(h: &[u8]) -> (r: Result<Self, AccountAddressParseError>)
        ensures
            addr_result_matches(r, parse_hex_64(h@)),
    {
        if h.len() != 64 {
            return Err(AccountAddressParseError::InvalidHexChars);
        }
        match decode_hex(h) {
            None => Err(AccountAddressParseError::InvalidHexChars),
            Some(v) => {
                let mut out: [u8; 32] = [0u8; 32];
                let mut i: usize = 0;
                while i < 32
                    invariant
                        i <= 32,
                        v@.len() == 32,
                        v@ == hex_decode(h@),
                        forall|j: int| 0 <= j < i ==> out@[j] == v@[j],
                    decreases 32 - i,
                {
                    out[i] = v[i];
                    i = i + 1;
                }
                proof {
                    assert(out@ =~= hex_decode(h@));
                }
                Ok(AccountAddress { bytes: out })
            },
        }
    }

    /// Parse a `0x`-prefixed hex literal of 1 to 64 digits, left-padding
    /// short payloads with zeroes.
    pub fn from_hex_literal(literal: &str) -> (r: Result<Self, AccountAddressParseError>)
        ensures
            addr_result_matches(r, parse_hex_literal(literal.spec_bytes())),
    {
        Self::from_hex_literal_bytes(literal.as_bytes())
    }

    fn from_hex_literal_bytes(b: &[u8]) -> (r: Result<Self, AccountAddressParseError>)
        ensures
            addr_result_matches(r, parse_hex_literal(b@)),
    {
        if !(b.len() >= 2 && b[0] == 48u8 && b[1] == 120u8) {
            return Err(AccountAddressParseError::LeadingZeroXRequired);
        }
        let hex_len = b.len() - 2;
        if hex_len < 64 {
            let mut padded: Vec<u8> = Vec::new();
            let mut i: usize = 0;
            while i < 64 - hex_len
                invariant
                    hex_len < 64,
                    i <= 64 - hex_len,
                    padded@.len() == i,
                    forall|j: int| 0 <= j < i ==> padded@[j] == 48u8,
                decreases 64 - hex_len - i,
            {
                padded.push(48u8);
                i = i + 1;
            }
            let mut j: usize = 2;
            while j < b.len()
                invariant
                    b@.len() == hex_len + 2,
                    hex_len < 64,
                    2 <= j <= b@.len(),
                    padded@.len() == 64 - hex_len + j - 2,
                    forall|t: int| 0 <= t < 64 - hex_len ==> padded@[t] == 48u8,
                    forall|t: int| 64 - hex_len <= t < padded@.len()
                        ==> padded@[t] == b@[t - (64 - hex_len) + 2],
                decreases b@.len() - j,
            {
                padded.push(b[j]);
                j = j + 1;
            }
            proof {
                assert(padded@ =~= zero_pad_64(b@.skip(2)));
            }
            Self::from_hex_64(padded.as_slice())
        } else {
            let tail = vstd::slice::slice_subrange(b, 2, b.len());
            proof {
                assert(tail@ =~= b@.skip(2));
            }
            Self::from_hex_64(tail)
        }
    }

    /// Relaxed parsing: long or short form, with or without the `0x` prefix.
    pub fn from_str(s: &str) -> (r: Result<Self, AccountAddressParseError>)
        ensures
            addr_result_matches(r, parse_relaxed(s.spec_bytes())),
    {
        let b = s.as_bytes();
        if !(b.len() >= 2 && b[0] == 48u8 && b[1] == 120u8) {
            if b.len() == 0 {
                return Err(AccountAddressParseError::TooShort);
            }
            let prefixed = with_0x_prefix(b);
            Self::from_hex_literal_bytes(prefixed.as_slice())
        } else if b.len() == 2 {
            Err(AccountAddressParseError::TooShort)
        } else {
            Self::from_hex_literal_bytes(b)
        }
    }

    /// Strict parsing: only the canonical renderings are accepted.
    pub fn from_str_strict(s: &str) -> (r: Result<Self, AccountAddressParseError>)
        ensures
            addr_result_matches(r, parse_strict(s.spec_bytes())),
    {
        let b = s.as_bytes();
        if !(b.len() >= 2 && b[0] == 48u8 && b[1] == 120u8) {
            return Err(AccountAddressParseError::LeadingZeroXRequired);
        }
        let address = match Self::from_str(s) {
            Ok(a) => a,
            Err(e) => {
                return Err(e);
            },
        };
        if b.len() != 66 {
            if !address.is_special() {
                return Err(AccountAddressParseError::LongFormRequiredUnlessSpecial);
            } else if b.len() != 3 {
                return Err(AccountAddressParseError::InvalidPaddingZeroes);
            }
        }
        Ok(address)
    }
}

/// Parsing the canonical rendering of any 32-byte address yields exactly
/// that address back, under the relaxed and the strict parser alike; both
/// renderings of the parse result therefore repeat the original string, so
/// canonicalisation is idempotent.
pub proof fn lemma_standard_string_roundtrip(a: Seq<u8>)
    requires
        a.len() == 32,
    ensures
        parse_relaxed(standard_string_bytes(a)) == Ok::<Seq<u8>, AccountAddressParseError>(a),
        parse_strict(standard_string_bytes(a)) == Ok::<Seq<u8>, AccountAddressParseError>(a),
{
    lemma_hex_roundtrip(a);
    let h = hex_encode(a);
    let s = standard_string_bytes(a);
    if is_special_bytes(a) {
        assert forall|i: int| 0 <= i < 63 implies h[i] == 48u8 by {
            if i % 2 == 0 {
                if i < 62 {
                    assert(a[i / 2] == 0);
                } else {
                    assert(a[31] / 16 == 0);
                }
            } else {
                assert(a[i / 2] == 0);
            }
        }
        if a[31] == 0 {
            assert(h[63] == 48u8);
            lemma_leading_zero_digits(h, 64);
            assert(trimmed_hex(a) =~= seq![48u8]);
            assert(s.skip(2) =~= seq![48u8]);
            let p = zero_pad_64(s.skip(2));
            assert(p.len() == 64);
            assert(forall|i: int| 0 <= i < 64 ==> p[i] == 48u8);
            assert(all_hex_digits(p));
            assert(hex_decode(p) =~= a);
        } else {
            assert(h[63] != 48u8);
            lemma_leading_zero_digits(h, 63);
            assert(trimmed_hex(a) =~= seq![h[63]]);
            assert(s.skip(2) =~= seq![h[63]]);
            let p = zero_pad_64(s.skip(2));
            assert(p =~= h);
        }
    } else {
        assert(s.skip(2) =~= h);
    }
}

/// The canonical rendering is ASCII text: rendered as characters, its UTF-8
/// bytes are exactly `standard_string_bytes`, so the string produced by
/// `to_standard_string` carries those bytes through any `&str` boundary.
pub proof fn lemma_standard_string_chars(a: Seq<u8>)
    ensures
        vstd::utf8::encode_utf8(chars_of_bytes(standard_string_bytes(a)))
            == standard_string_bytes(a),
{
    lemma_hex_roundtrip(a);
    lemma_trimmed_hex_is_hex(a);
    let s = standard_string_bytes(a);
    assert forall|i: int| 0 <= i < s.len() implies #[trigger] s[i] < 128 by {
        if 2 <= i {
            if is_special_bytes(a) {
                assert(crate::hex_text::is_hex_digit(trimmed_hex(a)[i - 2]));
            } else {
                assert(crate::hex_text::is_hex_digit(hex_encode(a)[i - 2]));
            }
        }
    }
    let cs = chars_of_bytes(s);
    assert forall|i: int| 0 <= i < cs.len() implies '\0' <= #[trigger] cs[i] <= '\u{7f}' by {
        assert(cs[i] == s[i] as char);
    }
    assert(vstd::utf8::is_ascii_chars(cs));
    vstd::utf8::is_ascii_chars_encode_utf8(cs);
    assert(vstd::utf8::encode_utf8(cs) =~= s);
}

/// The trimmed hex digits of an address are themselves hex digits.
pub proof fn lemma_trimmed_hex_is_hex(a: Seq<u8>)
    ensures
        all_hex_digits(trimmed_hex(a)),
{
    lemma_hex_roundtrip(a);
    let h = hex_encode(a);
    let k = leading_zero_digits(h);
    lemma_leading_zero_digits_le_len(h);
    if k == h.len() {
        assert(trimmed_hex(a) =~= seq![48u8]);
    } else {
        assert forall|i: int| 0 <= i < trimmed_hex(a).len() implies crate::hex_text::is_hex_digit(
            #[trigger] trimmed_hex(a)[i],
        ) by {
            assert(trimmed_hex(a)[i] == h[i + k]);
        }
    }
}

/// `leading_zero_digits` never exceeds the length of the sequence.
pub proof fn lemma_leading_zero_digits_le_len(s: Seq<u8>)
    ensures
        leading_zero_digits(s) <= s.len(),
    decreases s.len(),
{
    if s.len() != 0 && s[0] == 48u8 {
        lemma_leading_zero_digits_le_len(s.drop_first());
    }
}

/// `leading_zero_digits` counts exactly the leading `0` digits: it equals
/// any position `k` whose predecessors are all `0` and which is itself the
/// end or a non-`0` digit.
pub proof fn lemma_leading_zero_digits(s: Seq<u8>, k: int)
    requires
        0 <= k <= s.len(),
        forall|j: int| 0 <= j < k ==> s[j] == 48u8,
        k < s.len() ==> s[k] != 48u8,
    ensures
        leading_zero_digits(s) == k,
    decreases s.len(),
{
    if k == 0 {
    } else {
        assert(s[0] == 48u8);
        let t = s.drop_first();
        assert forall|j: int| 0 <= j < k - 1 implies t[j] == 48u8 by {
            assert(t[j] == s[j + 1]);
        }
        if k - 1 < t.len() {
            assert(t[k - 1] == s[k]);
        }
        lemma_leading_zero_digits(t, k - 1);
    }
}

} // verus!
