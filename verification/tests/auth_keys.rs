use aptos_txn_core::authenticator::{
    AccountAuthenticator, AuthenticationKey, CryptoMaterialError, Scheme,
};
use aptos_txn_core::ed25519::{Ed25519PublicKey, Ed25519Signature};
use aptos_txn_core::hash::HashValue;

#[test]
fn scheme_discriminants_are_stable() {
    assert_eq!(Scheme::Ed25519.as_u8(), 0);
    assert_eq!(Scheme::MultiEd25519.as_u8(), 1);
    assert_eq!(Scheme::SingleKey.as_u8(), 2);
    assert_eq!(Scheme::MultiKey.as_u8(), 3);
    assert_eq!(Scheme::NoScheme.as_u8(), 250);
    assert_eq!(Scheme::DeriveAuid.as_u8(), 251);
    assert_eq!(Scheme::DeriveObjectAddressFromObject.as_u8(), 252);
    assert_eq!(Scheme::DeriveObjectAddressFromGuid.as_u8(), 253);
    assert_eq!(Scheme::DeriveObjectAddressFromSeed.as_u8(), 254);
    assert_eq!(Scheme::DeriveResourceAccountAddress.as_u8(), 255);
}

#[test]
fn scheme_names_follow_the_display_convention() {
    assert_eq!(Scheme::Ed25519.name(), "Scheme::Ed25519");
    assert_eq!(Scheme::NoScheme.name(), "Scheme::NoScheme");
    assert_eq!(Scheme::DeriveAuid.name(), "Scheme::DeriveAuid");
}

#[test]
fn sha3_capability_matches_known_vectors() {
    // SHA3-256 of the empty string and of "abc", from the published
    // test vectors of the function.
    assert_eq!(
        hex::encode(HashValue::sha3_256_of(b"").to_vec()),
        "a7ffc6f8bf1ed76651c14756a061d662f580ff4de43b49fa82d80a4b80f8434a"
    );
    assert_eq!(
        hex::encode(HashValue::sha3_256_of(b"abc").to_vec()),
        "3a985da74fe225b2045c172d6bd390bd855f086e3e9d525b46bfe24511431532"
    );
}

#[test]
fn ed25519_key_derivation_is_deterministic() {
    let pk = Ed25519PublicKey::new([9u8; 32]);
    let k1 = AuthenticationKey::ed25519(&pk);
    let k2 = AuthenticationKey::ed25519(&pk);
    assert_eq!(k1, k2);
    assert_eq!(k1.to_vec(), k2.to_vec());
    // And it is the scheme-tagged hash of the raw key bytes.
    let k3 = AuthenticationKey::from_preimage(pk.to_vec(), Scheme::Ed25519);
    assert_eq!(k1, k3);
}

#[test]
fn scheme_tag_domain_separates_derivations() {
    let pk = Ed25519PublicKey::new([9u8; 32]);
    let single = AuthenticationKey::from_preimage(pk.to_vec(), Scheme::Ed25519);
    let multi = AuthenticationKey::from_preimage(pk.to_vec(), Scheme::MultiEd25519);
    assert_ne!(single, multi);
    // The derived key is not the preimage itself.
    assert_ne!(single.to_vec(), pk.to_vec());
}

#[test]
fn auid_appends_counter_little_endian() {
    let txn_hash = vec![0xaau8; 32];
    let direct = AuthenticationKey::auid(txn_hash.clone(), 1);
    let mut preimage = txn_hash;
    preimage.extend_from_slice(&[1, 0, 0, 0, 0, 0, 0, 0]);
    let expected = AuthenticationKey::from_preimage(preimage, Scheme::DeriveAuid);
    assert_eq!(direct, expected);
}

#[test]
fn object_address_concatenates_source_and_deriver() {
    let source = AuthenticationKey::new([1u8; 32]).account_address();
    let derive_from = AuthenticationKey::new([2u8; 32]).account_address();
    let key = AuthenticationKey::object_address_from_object(&source, &derive_from);
    let mut preimage = source.to_vec();
    preimage.extend_from_slice(&derive_from.to_vec());
    let expected =
        AuthenticationKey::from_preimage(preimage, Scheme::DeriveObjectAddressFromObject);
    assert_eq!(key, expected);
}

#[test]
fn key_and_address_are_the_same_bytes() {
    let pk = Ed25519PublicKey::new([5u8; 32]);
    let key = AuthenticationKey::ed25519(&pk);
    let addr = key.account_address();
    assert_eq!(addr.to_vec(), key.to_vec());
    // The 32-byte identity also survives the typed wrappers.
    assert_eq!(AuthenticationKey::new(key.to_bytes()), key);
}

#[test]
fn zero_key_is_all_zeroes() {
    assert_eq!(AuthenticationKey::zero().to_vec(), vec![0u8; 32]);
}

#[test]
fn try_from_enforces_length() {
    let err = AuthenticationKey::try_from(&[1u8; 31][..]).unwrap_err();
    assert_eq!(err, CryptoMaterialError::WrongLengthError);
    let key = AuthenticationKey::try_from(&[1u8; 32][..]).unwrap();
    assert_eq!(key.to_vec(), vec![1u8; 32]);
}

#[test]
fn key_from_str_parses_hex() {
    let key = AuthenticationKey::new([0xcdu8; 32]);
    let text = hex::encode(key.to_vec());
    let parsed = AuthenticationKey::from_str(&text).unwrap();
    assert_eq!(parsed, key);

    assert_eq!(
        AuthenticationKey::from_str("").unwrap_err(),
        CryptoMaterialError::DeserializationError
    );
    assert_eq!(
        AuthenticationKey::from_str("zz").unwrap_err(),
        CryptoMaterialError::DeserializationError
    );
    assert_eq!(
        AuthenticationKey::from_str("abcd").unwrap_err(),
        CryptoMaterialError::WrongLengthError
    );
}

#[test]
fn account_authenticator_exposes_its_evidence() {
    let pk = Ed25519PublicKey::new([3u8; 32]);
    let sig = Ed25519Signature::new([4u8; 64]);
    let auth = AccountAuthenticator::ed25519(pk, sig);
    assert_eq!(auth.public_key_bytes(), vec![3u8; 32]);
    assert_eq!(auth.signature_bytes(), vec![4u8; 64]);
    assert_eq!(auth.number_of_signatures(), 1);
    assert_eq!(auth.scheme().as_u8(), 0);
    let key = auth.authentication_key().unwrap();
    assert_eq!(key, AuthenticationKey::ed25519(&pk));
}

#[test]
fn no_account_authenticator_has_no_key() {
    let auth = AccountAuthenticator::NoAccountAuthenticator;
    assert_eq!(auth.public_key_bytes(), Vec::<u8>::new());
    assert_eq!(auth.signature_bytes(), Vec::<u8>::new());
    assert_eq!(auth.number_of_signatures(), 0);
    assert_eq!(auth.scheme().as_u8(), 250);
    assert!(auth.authentication_key().is_none());
}
