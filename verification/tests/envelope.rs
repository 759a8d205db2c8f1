use ed25519_dalek::{Signer, SigningKey};

use aptos_txn_core::account_address::AccountAddress;
use aptos_txn_core::authenticator::{AuthenticationError, TransactionAuthenticator};
use aptos_txn_core::chain_id::ChainId;
use aptos_txn_core::ed25519::{Ed25519PublicKey, Ed25519Signature};
use aptos_txn_core::transaction::{
    authenticator_canonical_bytes, EntryFunction, RawTransaction, Script, SignedTransaction,
    Transaction, TransactionPayload,
};

fn sample_sender() -> AccountAddress {
    let mut bytes = [0u8; 32];
    bytes[31] = 0xad;
    AccountAddress::new(bytes)
}

fn sample_raw_txn() -> RawTransaction {
    let entry = EntryFunction::new(
        AccountAddress::get_hex_address_one(),
        b"coin".to_vec(),
        b"transfer".to_vec(),
        vec![vec![1, 2, 3], vec![0xff]],
    );
    RawTransaction::new_entry_function(sample_sender(), 7, entry, 500_000, 100, 1_700_000_000, ChainId::new(4))
}

fn keypair() -> (SigningKey, Ed25519PublicKey) {
    let sk = SigningKey::from_bytes(&[42u8; 32]);
    let pk = Ed25519PublicKey::new(sk.verifying_key().to_bytes());
    (sk, pk)
}

fn signed_sample() -> SignedTransaction {
    let raw = sample_raw_txn();
    let (sk, pk) = keypair();
    let message = raw.signing_message_vec();
    let sig = Ed25519Signature::new(sk.sign(&message).to_bytes());
    SignedTransaction::new(raw, pk, sig)
}

#[test]
fn good_signature_verifies() {
    let txn = signed_sample();
    assert!(txn.verify_signature().is_ok());
    let checked = txn.check_signature().unwrap();
    let inner = checked.into_inner();
    assert_eq!(inner, signed_sample());
}

#[test]
fn flipped_signature_bit_fails_verification() {
    let raw = sample_raw_txn();
    let (sk, pk) = keypair();
    let message = raw.signing_message_vec();
    let mut sig_bytes = sk.sign(&message).to_bytes();
    sig_bytes[17] ^= 0x01;
    let txn = SignedTransaction::new(raw, pk, Ed25519Signature::new(sig_bytes));
    assert_eq!(txn.verify_signature().unwrap_err(), AuthenticationError::InvalidSignature);
    assert_eq!(txn.check_signature().unwrap_err(), AuthenticationError::InvalidSignature);
}

#[test]
fn flipped_public_key_bit_fails_verification() {
    let raw = sample_raw_txn();
    let (sk, pk) = keypair();
    let message = raw.signing_message_vec();
    let sig = Ed25519Signature::new(sk.sign(&message).to_bytes());
    let mut pk_bytes = pk.to_bytes();
    pk_bytes[0] ^= 0x80;
    let txn = SignedTransaction::new(raw, Ed25519PublicKey::new(pk_bytes), sig);
    assert_eq!(txn.verify_signature().unwrap_err(), AuthenticationError::InvalidSignature);
}

#[test]
fn changed_transaction_field_fails_verification() {
    let raw = sample_raw_txn();
    let (sk, pk) = keypair();
    let message = raw.signing_message_vec();
    let sig = Ed25519Signature::new(sk.sign(&message).to_bytes());
    // Same key and signature, but a different sequence number.
    let entry = EntryFunction::new(
        AccountAddress::get_hex_address_one(),
        b"coin".to_vec(),
        b"transfer".to_vec(),
        vec![vec![1, 2, 3], vec![0xff]],
    );
    let other = RawTransaction::new_entry_function(
        sample_sender(),
        8,
        entry,
        500_000,
        100,
        1_700_000_000,
        ChainId::new(4),
    );
    let txn = SignedTransaction::new(other, pk, sig);
    assert_eq!(txn.verify_signature().unwrap_err(), AuthenticationError::InvalidSignature);
}

#[test]
fn changed_chain_id_fails_verification() {
    let raw = sample_raw_txn();
    let (sk, pk) = keypair();
    let message = raw.signing_message_vec();
    let sig = Ed25519Signature::new(sk.sign(&message).to_bytes());
    let entry = EntryFunction::new(
        AccountAddress::get_hex_address_one(),
        b"coin".to_vec(),
        b"transfer".to_vec(),
        vec![vec![1, 2, 3], vec![0xff]],
    );
    let other = RawTransaction::new_entry_function(
        sample_sender(),
        7,
        entry,
        500_000,
        100,
        1_700_000_000,
        ChainId::new(5),
    );
    let txn = SignedTransaction::new(other, pk, sig);
    assert_eq!(txn.verify_signature().unwrap_err(), AuthenticationError::InvalidSignature);
}

#[test]
fn signing_message_is_domain_separated_and_deterministic() {
    let raw = sample_raw_txn();
    let m1 = raw.signing_message_vec();
    let m2 = raw.signing_message().unwrap();
    assert_eq!(m1, m2);
    // 32-byte salt digest, then the canonical encoding.
    assert_eq!(m1.len(), 32 + raw.canonical_bytes().len());
    assert_eq!(&m1[32..], raw.canonical_bytes().as_slice());
}

#[test]
fn cached_sizes_are_stable_and_match_the_encoding() {
    let txn = signed_sample();
    let raw_len1 = txn.raw_txn_bytes_len();
    let raw_len2 = txn.raw_txn_bytes_len();
    assert_eq!(raw_len1, raw_len2);
    assert_eq!(raw_len1, sample_raw_txn().canonical_bytes().len());

    let total1 = txn.txn_bytes_len();
    let total2 = txn.txn_bytes_len();
    assert_eq!(total1, total2);
    let auth_len = authenticator_canonical_bytes(txn.authenticator_ref()).len();
    assert_eq!(total1, raw_len1 + auth_len);
}

#[test]
fn committed_hash_is_stable_and_matches_ledger_hash() {
    let txn = signed_sample();
    let h1 = txn.committed_hash();
    let h2 = txn.committed_hash();
    assert_eq!(h1, h2);
    let ledger = Transaction::UserTransaction(txn.clone());
    assert_eq!(ledger.hash(), h1);
}

#[test]
fn equality_ignores_cache_population() {
    let a = signed_sample();
    let b = signed_sample();
    assert_eq!(a, b);
    // Populate every cache of `a` and none of `b`.
    let _ = a.raw_txn_bytes_len();
    let _ = a.txn_bytes_len();
    let _ = a.committed_hash();
    assert_eq!(a, b);
    assert_eq!(b, a);
    // A clone compares equal to its original as well.
    assert_eq!(a.clone(), a);
}

#[test]
fn envelope_exposes_raw_transaction_fields() {
    let txn = signed_sample();
    assert_eq!(txn.sender(), sample_sender());
    assert_eq!(txn.sequence_number(), 7);
    assert_eq!(txn.chain_id().id(), 4);
    assert_eq!(txn.max_gas_amount(), 500_000);
    assert_eq!(txn.gas_unit_price(), 100);
    assert_eq!(txn.expiration_timestamp_secs(), 1_700_000_000);
    assert_eq!(txn.raw_transaction_ref().sender(), sample_sender());
    let raw = txn.into_raw_transaction();
    assert_eq!(raw, sample_raw_txn());
}

#[test]
fn authenticator_accessors_agree() {
    let txn = signed_sample();
    let (sk, pk) = keypair();
    let message = sample_raw_txn().signing_message_vec();
    let sig = Ed25519Signature::new(sk.sign(&message).to_bytes());
    let expected = TransactionAuthenticator::ed25519(pk, sig);
    assert_eq!(txn.authenticator(), expected);
    assert_eq!(*txn.authenticator_ref(), expected);
    let sender_auth = expected.sender();
    assert_eq!(sender_auth.public_key_bytes(), pk.to_bytes().to_vec());
    assert_eq!(sender_auth.signature_bytes(), sig.to_bytes().to_vec());
}

#[test]
fn script_payload_roundtrip() {
    let script = Script::new(vec![0xde, 0xad], vec![vec![1], vec![2, 3]]);
    let raw = RawTransaction::new_script(
        sample_sender(),
        0,
        script,
        1000,
        1,
        99,
        ChainId::new(1),
    );
    let payload = raw.into_payload();
    assert!(matches!(payload, TransactionPayload::Script(_)));
}

#[test]
fn into_entry_function_returns_the_inner_call() {
    let entry = EntryFunction::new(
        AccountAddress::get_hex_address_one(),
        b"coin".to_vec(),
        b"transfer".to_vec(),
        vec![],
    );
    let raw = RawTransaction::new_entry_function(
        sample_sender(),
        1,
        entry.clone(),
        10,
        1,
        2,
        ChainId::new(1),
    );
    let back = raw.into_payload().into_entry_function();
    assert_eq!(back, entry);
}
