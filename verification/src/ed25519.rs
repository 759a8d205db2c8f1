//! The Ed25519 signature capability, modelled over plain key and signature
//! bytes.
//!
//! Keys are 32 bytes and signatures 64; whether a triple of key, message,
//! and signature verifies is a deterministic judgement supplied by the
//! outside signature primitive.

use vstd::prelude::*;

verus! {

/// Whether `sig` is a valid Ed25519 signature over `msg` under the public
/// key `pk`. Acceptance is a pure function of the three byte strings; a
/// byte string that is not a valid public key accepts nothing.
pub uninterp spec fn ed25519_verifies(pk: Seq<u8>, msg: Seq<u8>, sig: Seq<u8>) -> bool;

/// Relies on `ed25519_dalek::VerifyingKey::verify_strict`: acceptance is a
/// deterministic function of the key, message, and signature bytes, and a
/// key whose bytes decode to no valid curve point accepts nothing.
#[verifier::external_body]
fn dalek_verify(pk: &[u8; 32], msg: &[u8], sig: &[u8; 64]) -> (r: bool)
    ensures
        r == ed25519_verifies(pk@, msg@, sig@),
{
    match ed25519_dalek::VerifyingKey::from_bytes(pk) {
        Ok(vk) => {
            let signature = ed25519_dalek::Signature::from_bytes(sig);
            vk.verify_strict(msg, &signature).is_ok()
        },
        Err(_) => false,
    }
}

/// An Ed25519 public key: exactly 32 bytes.
#[derive(Clone, Copy, Debug)]
pub struct Ed25519PublicKey {
    bytes: [u8; 32],
}

impl View for Ed25519PublicKey {
    type V = Seq<u8>;

    closed spec fn view(&self) -> Seq<u8> {
        self.bytes@
    }
}

impl PartialEq for Ed25519PublicKey {
    fn eq(&self, other: &Self) -> (r: bool) {
        let mut i: usize = 0;
        while i < 32
            invariant
                i <= 32,
                forall|j: int| 0 <= j < i ==> self@[j] == other@[j],
            decreases 32 - i,
        {
            if self.bytes[i] != other.bytes[i] {
                return false;
            }
            i = i + 1;
        }
        proof {
            assert(self@ =~= other@);
        }
        true
    }
}

impl vstd::std_specs::cmp::PartialEqSpecImpl for Ed25519PublicKey {
    open spec fn obeys_eq_spec() -> bool {
        true
    }

    open spec fn eq_spec(&self, other: &Self) -> bool {
        self@ == other@
    }
}

impl Eq for Ed25519PublicKey {

}

impl Ed25519PublicKey {
    /// Wrap 32 raw key bytes. Whether they denote a valid curve point is
    /// settled at verification time, not here.
    pub fn new(bytes: [u8; 32]) -> (r: Self)
        ensures
            r@ == bytes@,
    {
        Ed25519PublicKey { bytes }
    }

    /// The 32 bytes of the key.
    pub fn to_bytes(&self) -> (r: [u8; 32])
        ensures
            r@ == self@,
    {
        self.bytes
    }

    /// The 32 bytes of the key as a fresh vector.
    pub fn to_vec(&self) -> (r: Vec<u8>)
        ensures
            r@ == self@,
    {
        vstd::slice::slice_to_vec(self.bytes.as_slice())
    }
}

/// An Ed25519 signature: exactly 64 bytes.
#[derive(Clone, Copy, Debug)]
pub struct Ed25519Signature {
    bytes: [u8; 64],
}

impl View for Ed25519Signature {
    type V = Seq<u8>;

    closed spec fn view(&self) -> Seq<u8> {
        self.bytes@
    }
}

impl PartialEq for Ed25519Signature {
    fn eq(&self, other: &Self) -> (r: bool) {
        let mut i: usize = 0;
        while i < 64
            invariant
                i <= 64,
                forall|j: int| 0 <= j < i ==> self@[j] == other@[j],
            decreases 64 - i,
        {
            if self.bytes[i] != other.bytes[i] {
                return false;
            }
            i = i + 1;
        }
        proof {
            assert(self@ =~= other@);
        }
        true
    }
}

impl vstd::std_specs::cmp::PartialEqSpecImpl for Ed25519Signature {
    open spec fn obeys_eq_spec() -> bool {
        true
    }

    open spec fn eq_spec(&self, other: &Self) -> bool {
        self@ == other@
    }
}

impl Eq for Ed25519Signature {

}

impl Ed25519Signature {
    /// Wrap 64 raw signature bytes.
    pub fn new(bytes: [u8; 64]) -> (r: Self)
        ensures
            r@ == bytes@,
    {
        Ed25519Signature { bytes }
    }

    /// The 64 bytes of the signature.
    pub fn to_bytes(&self) -> (r: [u8; 64])
        ensures
            r@ == self@,
    {
        self.bytes
    }

    /// The 64 bytes of the signature as a fresh vector.
    pub fn to_vec(&self) -> (r: Vec<u8>)
        ensures
            r@ == self@,
    {
        vstd::slice::slice_to_vec(self.bytes.as_slice())
    }

    /// True iff this signature verifies over `message` under `public_key`.
    pub fn verify_arbitrary_msg(&self, message: &[u8], public_key: &Ed25519PublicKey) -> (r: bool)
        ensures
            r == ed25519_verifies(public_key@, message@, self@),
    {
        dalek_verify(&public_key.bytes, message, &self.bytes)
    }
}

} // verus!
