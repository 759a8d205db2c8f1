use aptos_txn_core::account_address::{AccountAddress, AccountAddressParseError};

fn addr_with_last(v: u8) -> AccountAddress {
    let mut bytes = [0u8; 32];
    bytes[31] = v;
    AccountAddress::new(bytes)
}

#[test]
fn from_bytes_roundtrip() {
    let mut raw = [0u8; 32];
    for i in 0..32 {
        raw[i] = (i as u8) * 7 + 1;
    }
    let addr = AccountAddress::from_bytes(&raw).unwrap();
    assert_eq!(addr.to_vec(), raw.to_vec());
    assert_eq!(addr.into_bytes(), raw);
}

#[test]
fn from_bytes_wrong_length_is_rejected() {
    let raw = [1u8; 31];
    let err = AccountAddress::from_bytes(&raw).unwrap_err();
    assert_eq!(err, AccountAddressParseError::InvalidHexChars);
    let raw = [1u8; 33];
    let err = AccountAddress::from_bytes(&raw).unwrap_err();
    assert_eq!(err, AccountAddressParseError::InvalidHexChars);
}

#[test]
fn special_addresses_are_exactly_0x0_through_0xf() {
    for v in 0..=15u8 {
        assert!(addr_with_last(v).is_special(), "0x{:x} must be special", v);
    }
    for v in [16u8, 17, 100, 255] {
        assert!(!addr_with_last(v).is_special(), "0x{:x} must not be special", v);
    }
    let mut bytes = [0u8; 32];
    bytes[0] = 1;
    assert!(!AccountAddress::new(bytes).is_special());
}

#[test]
fn standard_string_short_and_long_forms() {
    assert_eq!(AccountAddress::zero().to_standard_string(), "0x0");
    assert_eq!(AccountAddress::get_hex_address_one().to_standard_string(), "0x1");
    assert_eq!(AccountAddress::get_hex_address_ten().to_standard_string(), "0xa");
    let a16 = addr_with_last(0x10);
    assert_eq!(
        a16.to_standard_string(),
        "0x0000000000000000000000000000000000000000000000000000000000000010"
    );
}

#[test]
fn standard_string_roundtrips_through_both_parsers() {
    let mut mixed = [0u8; 32];
    for i in 0..32 {
        mixed[i] = (i as u8) * 11 + 3;
    }
    for addr in [
        AccountAddress::zero(),
        AccountAddress::get_hex_address_one(),
        AccountAddress::get_hex_address_four(),
        addr_with_last(0x0f),
        addr_with_last(0x10),
        AccountAddress::new(mixed),
    ] {
        let text = addr.to_standard_string();
        let relaxed = AccountAddress::from_str(&text).unwrap();
        let strict = AccountAddress::from_str_strict(&text).unwrap();
        assert_eq!(relaxed, addr);
        assert_eq!(strict, addr);
        // Re-canonicalising is idempotent.
        assert_eq!(relaxed.to_standard_string(), text);
    }
}

#[test]
fn strict_parser_accepts_only_canonical_forms() {
    let one = AccountAddress::from_str_strict("0x1").unwrap();
    assert_eq!(one, AccountAddress::get_hex_address_one());

    let err = AccountAddress::from_str_strict("0x01").unwrap_err();
    assert_eq!(err, AccountAddressParseError::InvalidPaddingZeroes);

    let err = AccountAddress::from_str_strict("1").unwrap_err();
    assert_eq!(err, AccountAddressParseError::LeadingZeroXRequired);

    // A short form of a non-special address needs the long form.
    let err = AccountAddress::from_str_strict("0x10").unwrap_err();
    assert_eq!(err, AccountAddressParseError::LongFormRequiredUnlessSpecial);

    let long = "0x0000000000000000000000000000000000000000000000000000000000000010";
    assert_eq!(AccountAddress::from_str_strict(long).unwrap(), addr_with_last(0x10));
}

#[test]
fn relaxed_parser_error_variants() {
    assert_eq!(
        AccountAddress::from_str("").unwrap_err(),
        AccountAddressParseError::TooShort
    );
    assert_eq!(
        AccountAddress::from_str("0x").unwrap_err(),
        AccountAddressParseError::TooShort
    );
    assert_eq!(
        AccountAddress::from_str("xyz").unwrap_err(),
        AccountAddressParseError::InvalidHexChars
    );
    assert_eq!(
        AccountAddress::from_str("0xzz").unwrap_err(),
        AccountAddressParseError::InvalidHexChars
    );
    // 65 hex digits denote no 32-byte value.
    let long65 = format!("0x{}", "1".repeat(65));
    assert_eq!(
        AccountAddress::from_str(&long65).unwrap_err(),
        AccountAddressParseError::InvalidHexChars
    );
}

#[test]
fn relaxed_parser_pads_short_hex() {
    // Plain hex digits are accepted without a prefix and left-padded.
    let abc = AccountAddress::from_str("abc").unwrap();
    assert_eq!(
        abc.to_standard_string(),
        "0x0000000000000000000000000000000000000000000000000000000000000abc"
    );
    assert_eq!(AccountAddress::from_str("0xabc").unwrap(), abc);
    // Uppercase digits are accepted and canonicalised to lowercase.
    assert_eq!(AccountAddress::from_str("0xABC").unwrap(), abc);
}

#[test]
fn hex_literal_accepts_empty_payload() {
    // `0x` alone pads to the zero address under the literal parser, while
    // the relaxed parser rejects it as too short.
    let zero = AccountAddress::from_hex_literal("0x").unwrap();
    assert_eq!(zero, AccountAddress::zero());
    let err = AccountAddress::from_hex_literal("10").unwrap_err();
    assert_eq!(err, AccountAddressParseError::LeadingZeroXRequired);
}

#[test]
fn canonical_string_matches_hex_crate() {
    let mut raw = [0u8; 32];
    for i in 0..32 {
        raw[i] = 255 - (i as u8);
    }
    let addr = AccountAddress::new(raw);
    assert_eq!(addr.to_canonical_string(), hex::encode(raw));
    assert_eq!(addr.to_hex(), hex::encode(raw));
    let parsed = AccountAddress::from_hex(&hex::encode(raw)).unwrap();
    assert_eq!(parsed, addr);
}

#[test]
fn short_str_lossless_strips_leading_zeroes() {
    assert_eq!(AccountAddress::zero().short_str_lossless(), "0");
    assert_eq!(addr_with_last(0x10).short_str_lossless(), "10");
    let mut bytes = [0u8; 32];
    bytes[30] = 0x0a;
    bytes[31] = 0xbc;
    assert_eq!(AccountAddress::new(bytes).short_str_lossless(), "abc");
    assert_eq!(AccountAddress::new(bytes).to_hex_literal(), "0xabc");
}

#[test]
fn hex_address_constants() {
    assert_eq!(AccountAddress::get_hex_address_one().to_standard_string(), "0x1");
    assert_eq!(AccountAddress::get_hex_address_two().to_standard_string(), "0x2");
    assert_eq!(AccountAddress::get_hex_address_three().to_standard_string(), "0x3");
    assert_eq!(AccountAddress::get_hex_address_four().to_standard_string(), "0x4");
    assert_eq!(AccountAddress::get_hex_address_ten().to_standard_string(), "0xa");
}

#[test]
fn big_uint_conversion_reads_big_endian() {
    let addr = addr_with_last(0x10);
    assert_eq!(addr.to_big_uint(), num::BigUint::from(16u8));
    let one = AccountAddress::get_hex_address_one();
    assert_eq!(one.to_big_uint(), num::BigUint::from(1u8));
}
