//! The hashing capability: a fixed 256-bit digest over byte strings, and
//! the `HashValue` wrapper that carries one.

use vstd::prelude::*;

use sha3::Digest;

verus! {

/// The SHA3-256 digest of a byte sequence. The digest is a pure function of
/// the input bytes; nothing further is assumed of its value.
pub uninterp spec fn sha3_256_of(bytes: Seq<u8>) -> Seq<u8>;

/// Relies on `sha3::Sha3_256`: the digest is exactly 32 bytes and depends
/// on the input bytes alone.
#[verifier::external_body]
pub fn sha3_256(bytes: &[u8]) -> (r: [u8; 32])
    ensures
        r@ == sha3_256_of(bytes@),
{
    sha3::Sha3_256::digest(bytes).into()
}

/// A 256-bit digest: exactly 32 bytes, compared bytewise.
#[derive(Clone, Copy, Debug)]
pub struct HashValue {
    bytes: [u8; 32],
}

impl View for HashValue {
    type V = Seq<u8>;

    closed spec fn view(&self) -> Seq<u8> {
        self.bytes@
    }
}

impl PartialEq for HashValue {
    fn eq(&self, other: &Self) -> (r: bool) {
        let mut i: usize = 0;
        while i < 32
            invariant
                i <= 32,
                forall|j: int| 0 <= j < i ==> self@[j] == other@[j],
            decreases 32 - i,
        {
            if self.bytes[i] != other.bytes[i] {
                return false;
            }
            i = i + 1;
        }
        proof {
            assert(self@ =~= other@);
        }
        true
    }
}

impl vstd::std_specs::cmp::PartialEqSpecImpl for HashValue {
    open spec fn obeys_eq_spec() -> bool {
        true
    }

    open spec fn eq_spec(&self, other: &Self) -> bool {
        self@ == other@
    }
}

impl Eq for HashValue {

}

impl HashValue {
    /// Wrap 32 digest bytes.
    pub fn new(bytes: [u8; 32]) -> (r: Self)
        ensures
            r@ == bytes@,
    {
        HashValue { bytes }
    }

    /// The SHA3-256 digest of `bytes`.
    pub fn sha3_256_of(bytes: &[u8]) -> (r: Self)
        ensures
            r@ == sha3_256_of(bytes@),
    {
        HashValue { bytes: sha3_256(bytes) }
    }

    /// The 32 bytes of the digest as a fresh vector.
    pub fn to_vec(&self) -> (r: Vec<u8>)
        ensures
            r@ == self@,
    {
        vstd::slice::slice_to_vec(self.bytes.as_slice())
    }

    /// The 32 bytes of the digest.
    pub fn into_bytes(self) -> (r: [u8; 32])
        ensures
            r@ == self@,
    {
        self.bytes
    }
}

/// Every hash value views as exactly 32 bytes.
pub broadcast proof fn lemma_hash_value_len(h: HashValue)
    ensures
        (#[trigger] h@).len() == 32,
{
}

} // verus!
