//! Authentication evidence and authentication-key derivation.
//!
//! An authentication key is the scheme-tagged hash of a preimage: the
//! one-byte scheme discriminant is appended to the preimage and the whole
//! is digested. The key doubles, byte for byte, as an account address.
//! Authenticators carry the public key and signature that must match the
//! signing message of a raw transaction.

use vstd::prelude::*;
use vstd::string::{StringExecFns, StringSliceAdditionalSpecFns};

use crate::account_address::AccountAddress;
use crate::codec::{u64_le_bytes, write_u64_le};
use crate::ed25519::{ed25519_verifies, Ed25519PublicKey, Ed25519Signature};
use crate::hash::{sha3_256, sha3_256_of};
use crate::hex_text::{all_hex_digits, decode_hex, hex_decode};
use crate::transaction::{signing_message_bytes, RawTransaction};

verus! {

/// Maximum number of signatures supported in a `TransactionAuthenticator`,
/// across all `AccountAuthenticator`s included.
pub const MAX_NUM_OF_SIGS: usize = 32;

/// An error in transaction or account authentication.
#[derive(Clone, Copy, Debug, PartialEq, Eq, Structural)]
pub enum AuthenticationError {
    /// The number of signatures exceeds the maximum supported.
    MaxSignaturesExceeded,
    /// The cryptographic check of a signature failed.
    InvalidSignature,
}

/// An error in converting raw bytes into cryptographic material.
#[derive(Clone, Copy, Debug, PartialEq, Eq, Structural)]
pub enum CryptoMaterialError {
    /// A byte buffer of the wrong length was supplied.
    WrongLengthError,
    /// The textual form could not be decoded.
    DeserializationError,
}

/// The closed set of authentication-key derivation domains. Each scheme has
/// a fixed one-byte discriminant, stable forever: it is appended to every
/// preimage before hashing, so changing one would change every derived
/// address on the network.
#[derive(Clone, Copy, Debug, PartialEq, Eq, Structural)]
pub enum Scheme {
    Ed25519,
    MultiEd25519,
    SingleKey,
    MultiKey,
    NoScheme,
    /// The remaining schemes derive addresses (not authentication keys) of
    /// objects and resource accounts; they serve only to domain-separate
    /// those hashes from key-derived ones.
    DeriveAuid,
    DeriveObjectAddressFromObject,
    DeriveObjectAddressFromGuid,
    DeriveObjectAddressFromSeed,
    DeriveResourceAccountAddress,
}

/// The wire discriminant of each scheme.
pub open spec fn scheme_byte(s: Scheme) -> u8 {
    match s {
        Scheme::Ed25519 => 0,
        Scheme::MultiEd25519 => 1,
        Scheme::SingleKey => 2,
        Scheme::MultiKey => 3,
        Scheme::NoScheme => 250,
        Scheme::DeriveAuid => 251,
        Scheme::DeriveObjectAddressFromObject => 252,
        Scheme::DeriveObjectAddressFromGuid => 253,
        Scheme::DeriveObjectAddressFromSeed => 254,
        Scheme::DeriveResourceAccountAddress => 255,
    }
}

/// The display name of each scheme.
pub open spec fn scheme_name(s: Scheme) -> Seq<char> {
    match s {
        Scheme::Ed25519 => "Scheme::Ed25519"@,
        Scheme::MultiEd25519 => "Scheme::MultiEd25519"@,
        Scheme::SingleKey => "Scheme::SingleKey"@,
        Scheme::MultiKey => "Scheme::MultiKey"@,
        Scheme::NoScheme => "Scheme::NoScheme"@,
        Scheme::DeriveAuid => "Scheme::DeriveAuid"@,
        Scheme::DeriveObjectAddressFromObject => "Scheme::DeriveObjectAddressFromObject"@,
        Scheme::DeriveObjectAddressFromGuid => "Scheme::DeriveObjectAddressFromGuid"@,
        Scheme::DeriveObjectAddressFromSeed => "Scheme::DeriveObjectAddressFromSeed"@,
        Scheme::DeriveResourceAccountAddress => "Scheme::DeriveResourceAccountAddress"@,
    }
}

impl Scheme {
    /// The display name of the scheme.
    pub fn name(self) -> (r: String)
        ensures
            r@ == scheme_name(self),
    {
        match self {
            Scheme::Ed25519 => String::from_str("Scheme::Ed25519"),
            Scheme::MultiEd25519 => String::from_str("Scheme::MultiEd25519"),
            Scheme::SingleKey => String::from_str("Scheme::SingleKey"),
            Scheme::MultiKey => String::from_str("Scheme::MultiKey"),
            Scheme::NoScheme => String::from_str("Scheme::NoScheme"),
            Scheme::DeriveAuid => String::from_str("Scheme::DeriveAuid"),
            Scheme::DeriveObjectAddressFromObject => {
                String::from_str("Scheme::DeriveObjectAddressFromObject")
            },
            Scheme::DeriveObjectAddressFromGuid => {
                String::from_str("Scheme::DeriveObjectAddressFromGuid")
            },
            Scheme::DeriveObjectAddressFromSeed => {
                String::from_str("Scheme::DeriveObjectAddressFromSeed")
            },
            Scheme::DeriveResourceAccountAddress => {
                String::from_str("Scheme::DeriveResourceAccountAddress")
            },
        }
    }

    /// The wire discriminant of the scheme.
    pub fn as_u8(self) -> (r: u8)
        ensures
            r == scheme_byte(self),
    {
        match self {
            Scheme::Ed25519 => 0,
            Scheme::MultiEd25519 => 1,
            Scheme::SingleKey => 2,
            Scheme::MultiKey => 3,
            Scheme::NoScheme => 250,
            Scheme::DeriveAuid => 251,
            Scheme::DeriveObjectAddressFromObject => 252,
            Scheme::DeriveObjectAddressFromGuid => 253,
            Scheme::DeriveObjectAddressFromSeed => 254,
            Scheme::DeriveResourceAccountAddress => 255,
        }
    }
}

/// The authentication key derived from `preimage` under `scheme`: the
/// digest of the preimage with the scheme byte appended.
pub open spec fn auth_key_bytes(preimage: Seq<u8>, scheme: Scheme) -> Seq<u8> {
    sha3_256_of(preimage.push(scheme_byte(scheme)))
}

/// Distinct schemes are domain-separated at the input of the hash: the
/// scheme byte is the last byte of the preimage handed to the digest, so
/// two different schemes never hash the same input, even for the same key
/// bytes.
pub proof fn lemma_scheme_domain_separation(preimage: Seq<u8>, s1: Scheme, s2: Scheme)
    requires
        s1 != s2,
    ensures
        preimage.push(scheme_byte(s1)) != preimage.push(scheme_byte(s2)),
{
    assert(scheme_byte(s1) != scheme_byte(s2));
    assert(preimage.push(scheme_byte(s1))[preimage.len() as int] == scheme_byte(s1));
    assert(preimage.push(scheme_byte(s2))[preimage.len() as int] == scheme_byte(s2));
}

/// Meaning of an authentication key written as hex text: the 32 bytes the
/// digits denote, a decode error on empty or non-hex input, and a length
/// error when the digits denote any other number of bytes.
pub open spec fn parse_auth_key(s: Seq<u8>) -> Result<Seq<u8>, CryptoMaterialError> {
    if s.len() == 0 {
        Err(CryptoMaterialError::DeserializationError)
    } else if !(s.len() % 2 == 0 && all_hex_digits(s)) {
        Err(CryptoMaterialError::DeserializationError)
    } else if s.len() != 64 {
        Err(CryptoMaterialError::WrongLengthError)
    } else {
        Ok(hex_decode(s))
    }
}

/// An account authentication key: exactly 32 bytes, produced by the
/// scheme-tagged digest, or wrapped from storage.
#[derive(Clone, Copy, Debug)]
pub struct AuthenticationKey {
    bytes: [u8; 32],
}

impl View for AuthenticationKey {
    type V = Seq<u8>;

    closed spec fn view(&self) -> Seq<u8> {
        self.bytes@
    }
}

impl PartialEq for AuthenticationKey {
    fn eq(&self, other: &Self) -> (r: bool) {
        let mut i: usize = 0;
        while i < 32
            invariant
                i <= 32,
                forall|j: int| 0 <= j < i ==> self@[j] == other@[j],
            decreases 32 - i,
        {
            if self.bytes[i] != other.bytes[i] {
                return false;
            }
            i = i + 1;
        }
        proof {
            assert(self@ =~= other@);
        }
        true
    }
}

impl vstd::std_specs::cmp::PartialEqSpecImpl for AuthenticationKey {
    open spec fn obeys_eq_spec() -> bool {
        true
    }

    open spec fn eq_spec(&self, other: &Self) -> bool {
        self@ == other@
    }
}

impl Eq for AuthenticationKey {

}

impl AuthenticationKey {
    /// Wrap 32 raw key bytes, e.g. read back from storage.
    pub fn new(bytes: [u8; 32]) -> (r: Self)
        ensures
            r@ == bytes@,
    {
        AuthenticationKey { bytes }
    }

    /// The all-zero key: no signer can practically exist for it, so it
    /// denotes intentional relinquishment of control.
    pub fn zero() -> (r: Self)
        ensures
            r@ == Seq::new(32, |i: int| 0u8),
    {
        let bytes: [u8; 32] = [0u8; 32];
        proof {
            assert(bytes@ =~= Seq::new(32, |i: int| 0u8));
        }
        AuthenticationKey { bytes }
    }

    /// Derive a key from a preimage: append the scheme byte and digest.
    pub fn from_preimage(public_key_bytes: Vec<u8>, scheme: Scheme) -> (r: Self)
        ensures
            r@ == auth_key_bytes(public_key_bytes@, scheme),
    {
        let mut buf = public_key_bytes;
        buf.push(scheme.as_u8());
        AuthenticationKey { bytes: sha3_256(buf.as_slice()) }
    }

    /// Derive the address-shaped id of a transaction-sequenced unique
    /// object: the preimage is the transaction hash followed by the
    /// little-endian counter.
    pub fn auid(txn_hash: Vec<u8>, auid_counter: u64) -> (r: Self)
        ensures
            r@ == auth_key_bytes(txn_hash@ + u64_le_bytes(auid_counter), Scheme::DeriveAuid),
    {
        let mut buf = txn_hash;
        write_u64_le(&mut buf, auid_counter);
        Self::from_preimage(buf, Scheme::DeriveAuid)
    }

    /// Derive the address of an object created from another object: the
    /// preimage is the source address followed by the deriving address.
    pub fn object_address_from_object(source: &AccountAddress, derive_from: &AccountAddress) -> (r:
        Self)
        ensures
            r@ == auth_key_bytes(source@ + derive_from@, Scheme::DeriveObjectAddressFromObject),
    {
        let mut bytes = source.to_vec();
        let mut tail = derive_from.to_vec();
        bytes.append(&mut tail);
        Self::from_preimage(bytes, Scheme::DeriveObjectAddressFromObject)
    }

    /// Derive the key of an Ed25519 account from its public key.
    pub fn ed25519(public_key: &Ed25519PublicKey) -> (r: Self)
        ensures
            r@ == auth_key_bytes(public_key@, Scheme::Ed25519),
    {
        Self::from_preimage(public_key.to_vec(), Scheme::Ed25519)
    }

    /// The key reinterpreted as an account address, byte for byte.
    pub fn account_address(&self) -> (r: AccountAddress)
        ensures
            r@ == self@,
    {
        AccountAddress::new(self.bytes)
    }

    /// The 32 bytes of the key as a fresh vector.
    pub fn to_vec(&self) -> (r: Vec<u8>)
        ensures
            r@ == self@,
    {
        vstd::slice::slice_to_vec(self.bytes.as_slice())
    }

    /// The 32 bytes of the key.
    pub fn to_bytes(&self) -> (r: [u8; 32])
        ensures
            r@ == self@,
    {
        self.bytes
    }

    /// Wrap a byte buffer as a key; it must hold exactly 32 bytes.
    pub fn try_from(bytes: &[u8]) -> (r: Result<Self, CryptoMaterialError>)
        ensures
            bytes@.len() == 32 ==> (r matches Ok(k) && k@ == bytes@),
            bytes@.len() != 32 ==> r == Err::<Self, _>(CryptoMaterialError::WrongLengthError),
    {
        if bytes.len() != 32 {
            return Err(CryptoMaterialError::WrongLengthError);
        }
        let mut out: [u8; 32] = [0u8; 32];
        let mut i: usize = 0;
        while i < 32
            invariant
                i <= 32,
                bytes@.len() == 32,
                forall|j: int| 0 <= j < i ==> out@[j] == bytes@[j],
            decreases 32 - i,
        {
            out[i] = bytes[i];
            i = i + 1;
        }
        proof {
            assert(out@ =~= bytes@);
        }
        Ok(AuthenticationKey { bytes: out })
    }

    /// Parse a key from hex text, with no `0x` prefix.
    pub fn from_str(s: &str) -> (r: Result<Self, CryptoMaterialError>)
        ensures
            (match (r, parse_auth_key(s.spec_bytes())) {
                (Ok(k), Ok(b)) => k@ == b,
                (Err(e), Err(f)) => e == f,
                _ => false,
            }),
    {
        let b = s.as_bytes();
        if b.len() == 0 {
            return Err(CryptoMaterialError::DeserializationError);
        }
        match decode_hex(b) {
            None => Err(CryptoMaterialError::DeserializationError),
            Some(v) => {
                if v.len() != 32 {
                    return Err(CryptoMaterialError::WrongLengthError);
                }
                Self::try_from(v.as_slice())
            },
        }
    }
}

/// The view of an `AccountAuthenticator`: the plain bytes of its evidence.
#[verifier::ext_equal]
pub enum AccountAuthenticatorView {
    Ed25519 { public_key: Seq<u8>, signature: Seq<u8> },
    NoAccountAuthenticator,
}

/// The scheme an account authenticator derives its key under.
pub open spec fn account_auth_scheme(v: AccountAuthenticatorView) -> Scheme {
    match v {
        AccountAuthenticatorView::Ed25519 { .. } => Scheme::Ed25519,
        AccountAuthenticatorView::NoAccountAuthenticator => Scheme::NoScheme,
    }
}

/// The raw public-key bytes an account authenticator carries.
pub open spec fn account_auth_public_key_bytes(v: AccountAuthenticatorView) -> Seq<u8> {
    match v {
        AccountAuthenticatorView::Ed25519 { public_key, .. } => public_key,
        AccountAuthenticatorView::NoAccountAuthenticator => Seq::empty(),
    }
}

/// The raw signature bytes an account authenticator carries.
pub open spec fn account_auth_signature_bytes(v: AccountAuthenticatorView) -> Seq<u8> {
    match v {
        AccountAuthenticatorView::Ed25519 { signature, .. } => signature,
        AccountAuthenticatorView::NoAccountAuthenticator => Seq::empty(),
    }
}

/// The number of signatures an account authenticator includes.
pub open spec fn account_auth_signature_count(v: AccountAuthenticatorView) -> nat {
    match v {
        AccountAuthenticatorView::Ed25519 { .. } => 1,
        AccountAuthenticatorView::NoAccountAuthenticator => 0,
    }
}

/// Evidence that one account authorised a transaction: an abstraction of a
/// signature scheme, designed to grow further variants without breaking
/// existing wire tags.
#[derive(Clone, Copy, Debug)]
pub enum AccountAuthenticator {
    /// A single Ed25519 signature.
    Ed25519 { public_key: Ed25519PublicKey, signature: Ed25519Signature },
    /// No authentication evidence at all.
    NoAccountAuthenticator,
}

impl View for AccountAuthenticator {
    type V = AccountAuthenticatorView;

    open spec fn view(&self) -> AccountAuthenticatorView {
        match self {
            AccountAuthenticator::Ed25519 { public_key, signature } => {
                AccountAuthenticatorView::Ed25519 {
                    public_key: public_key@,
                    signature: signature@,
                }
            },
            AccountAuthenticator::NoAccountAuthenticator => {
                AccountAuthenticatorView::NoAccountAuthenticator
            },
        }
    }
}

impl PartialEq for AccountAuthenticator {
    fn eq(&self, other: &Self) -> (r: bool) {
        match (self, other) {
            (
                AccountAuthenticator::Ed25519 { public_key: pk1, signature: s1 },
                AccountAuthenticator::Ed25519 { public_key: pk2, signature: s2 },
            ) => {
                let r = *pk1 == *pk2 && *s1 == *s2;
                proof {
                    if r {
                        assert(self@ =~= other@);
                    }
                }
                r
            },
            (
                AccountAuthenticator::NoAccountAuthenticator,
                AccountAuthenticator::NoAccountAuthenticator,
            ) => true,
            _ => false,
        }
    }
}

impl vstd::std_specs::cmp::PartialEqSpecImpl for AccountAuthenticator {
    open spec fn obeys_eq_spec() -> bool {
        true
    }

    open spec fn eq_spec(&self, other: &Self) -> bool {
        self@ == other@
    }
}

impl Eq for AccountAuthenticator {

}

impl AccountAuthenticator {
    /// The scheme this authenticator derives its key under.
    pub fn scheme(&self) -> (r: Scheme)
        ensures
            r == account_auth_scheme(self@),
    {
        match self {
            AccountAuthenticator::Ed25519 { .. } => Scheme::Ed25519,
            AccountAuthenticator::NoAccountAuthenticator => Scheme::NoScheme,
        }
    }

    /// Wrap an Ed25519 key and signature as authentication evidence.
    pub fn ed25519(public_key: Ed25519PublicKey, signature: Ed25519Signature) -> (r: Self)
        ensures
            r@ == (AccountAuthenticatorView::Ed25519 {
                public_key: public_key@,
                signature: signature@,
            }),
    {
        AccountAuthenticator::Ed25519 { public_key, signature }
    }

    /// The raw bytes of the public key; empty for the no-auth variant.
    pub fn public_key_bytes(&self) -> (r: Vec<u8>)
        ensures
            r@ == account_auth_public_key_bytes(self@),
    {
        match self {
            AccountAuthenticator::Ed25519 { public_key, .. } => public_key.to_vec(),
            AccountAuthenticator::NoAccountAuthenticator => Vec::new(),
        }
    }

    /// The raw bytes of the signature; empty for the no-auth variant.
    pub fn signature_bytes(&self) -> (r: Vec<u8>)
        ensures
            r@ == account_auth_signature_bytes(self@),
    {
        match self {
            AccountAuthenticator::Ed25519 { signature, .. } => signature.to_vec(),
            AccountAuthenticator::NoAccountAuthenticator => Vec::new(),
        }
    }

    /// The authentication key this evidence answers for: the scheme-tagged
    /// digest of the public-key bytes. The no-auth variant has no key.
    pub fn authentication_key(&self) -> (r: Option<AuthenticationKey>)
        ensures
            (match self@ {
                AccountAuthenticatorView::NoAccountAuthenticator => r is None,
                v => (r matches Some(k) && k@ == auth_key_bytes(
                    account_auth_public_key_bytes(v),
                    account_auth_scheme(v),
                )),
            }),
    {
        if let AccountAuthenticator::NoAccountAuthenticator = self {
            None
        } else {
            Some(AuthenticationKey::from_preimage(self.public_key_bytes(), self.scheme()))
        }
    }

    /// The number of signatures included in this authenticator.
    pub fn number_of_signatures(&self) -> (r: usize)
        ensures
            r == account_auth_signature_count(self@),
    {
        match self {
            AccountAuthenticator::Ed25519 { .. } => 1,
            AccountAuthenticator::NoAccountAuthenticator => 0,
        }
    }
}

/// The view of a `TransactionAuthenticator`.
#[verifier::ext_equal]
pub enum TransactionAuthenticatorView {
    Ed25519 { public_key: Seq<u8>, signature: Seq<u8> },
}

/// The account authenticator of the primary signer.
pub open spec fn txn_auth_sender(v: TransactionAuthenticatorView) -> AccountAuthenticatorView {
    match v {
        TransactionAuthenticatorView::Ed25519 { public_key, signature } => {
            AccountAuthenticatorView::Ed25519 { public_key, signature }
        },
    }
}

/// Total signature count across all embedded account authenticators.
pub open spec fn txn_auth_signature_count(v: TransactionAuthenticatorView) -> nat {
    account_auth_signature_count(txn_auth_sender(v))
}

/// The authenticator attached to a signed transaction. A single-signature
/// variant today; reserved extension points (multi-agent, fee payer) each
/// reduce to one or more `AccountAuthenticator`s.
#[derive(Clone, Copy, Debug)]
pub enum TransactionAuthenticator {
    /// A single Ed25519 signature by the sender.
    Ed25519 { public_key: Ed25519PublicKey, signature: Ed25519Signature },
}

impl View for TransactionAuthenticator {
    type V = TransactionAuthenticatorView;

    open spec fn view(&self) -> TransactionAuthenticatorView {
        match self {
            TransactionAuthenticator::Ed25519 { public_key, signature } => {
                TransactionAuthenticatorView::Ed25519 {
                    public_key: public_key@,
                    signature: signature@,
                }
            },
        }
    }
}

impl PartialEq for TransactionAuthenticator {
    fn eq(&self, other: &Self) -> (r: bool) {
        match (self, other) {
            (
                TransactionAuthenticator::Ed25519 { public_key: pk1, signature: s1 },
                TransactionAuthenticator::Ed25519 { public_key: pk2, signature: s2 },
            ) => {
                let r = *pk1 == *pk2 && *s1 == *s2;
                proof {
                    if r {
                        assert(self@ =~= other@);
                    }
                }
                r
            },
        }
    }
}

impl vstd::std_specs::cmp::PartialEqSpecImpl for TransactionAuthenticator {
    open spec fn obeys_eq_spec() -> bool {
        true
    }

    open spec fn eq_spec(&self, other: &Self) -> bool {
        self@ == other@
    }
}

impl Eq for TransactionAuthenticator {

}

impl TransactionAuthenticator {
    /// Wrap an Ed25519 key and signature as a single-signature
    /// authenticator.
    pub fn ed25519(public_key: Ed25519PublicKey, signature: Ed25519Signature) -> (r: Self)
        ensures
            r@ == (TransactionAuthenticatorView::Ed25519 {
                public_key: public_key@,
                signature: signature@,
            }),
    {
        TransactionAuthenticator::Ed25519 { public_key, signature }
    }

    /// The account authenticator of the primary signer.
    pub fn sender(&self) -> (r: AccountAuthenticator)
        ensures
            r@ == txn_auth_sender(self@),
    {
        match self {
            TransactionAuthenticator::Ed25519 { public_key, signature } => {
                AccountAuthenticator::ed25519(*public_key, *signature)
            },
        }
    }

    /// Check this evidence against `raw_txn`. The signature count is
    /// enforced first, before any cryptographic work; then the signature
    /// must verify over the signing message of `raw_txn` under the carried
    /// public key.
    pub fn verify(&self, raw_txn: &RawTransaction) -> (r: Result<(), AuthenticationError>)
        ensures
            txn_auth_signature_count(self@) > MAX_NUM_OF_SIGS ==> r == Err::<(), _>(
                AuthenticationError::MaxSignaturesExceeded,
            ),
            txn_auth_signature_count(self@) <= MAX_NUM_OF_SIGS ==> (match self@ {
                TransactionAuthenticatorView::Ed25519 { public_key, signature } => {
                    if ed25519_verifies(public_key, signing_message_bytes(raw_txn@), signature) {
                        r == Ok::<(), AuthenticationError>(())
                    } else {
                        r == Err::<(), _>(AuthenticationError::InvalidSignature)
                    }
                },
            }),
    {
        let num_sigs = self.sender().number_of_signatures();
        if num_sigs > MAX_NUM_OF_SIGS {
            return Err(AuthenticationError::MaxSignaturesExceeded);
        }
        match self {
            TransactionAuthenticator::Ed25519 { public_key, signature } => {
                let message = raw_txn.signing_message_vec();
                if signature.verify_arbitrary_msg(message.as_slice(), public_key) {
                    Ok(())
                } else {
                    Err(AuthenticationError::InvalidSignature)
                }
            },
        }
    }
}

} // verus!
