//! Canonical binary encoding primitives.
//!
//! The wire format is deterministic: struct fields in declared order, enum
//! variants tagged by index, unsigned lengths and tags as ULEB128, fixed
//! integers in little-endian order, and byte strings length-prefixed.
//! Byte-for-byte stability of this encoding underlies both signing and
//! content hashing.

use vstd::prelude::*;

verus! {

/// ULEB128 encoding of `n`: seven value bits per byte, least significant
/// group first, high bit set on every byte but the last.
pub open spec fn uleb128_enc(n: nat) -> Seq<u8>
    decreases n,
{
    if n < 0x80 {
        seq![n as u8]
    } else {
        seq![(n % 0x80 + 0x80) as u8] + uleb128_enc(n / 0x80)
    }
}

/// The eight bytes of `n` in little-endian order.
pub open spec fn u64_le_bytes(n: u64) -> Seq<u8> {
    seq![
        (n & 0xff) as u8,
        ((n >> 8) & 0xff) as u8,
        ((n >> 16) & 0xff) as u8,
        ((n >> 24) & 0xff) as u8,
        ((n >> 32) & 0xff) as u8,
        ((n >> 40) & 0xff) as u8,
        ((n >> 48) & 0xff) as u8,
        ((n >> 56) & 0xff) as u8,
    ]
}

/// A byte string on the wire: its length as ULEB128, then its bytes.
pub open spec fn bytes_enc(b: Seq<u8>) -> Seq<u8> {
    uleb128_enc(b.len()) + b
}

/// The concatenated encodings of the first `i` byte strings of `v`.
pub open spec fn byte_seqs_enc_prefix(v: Seq<Seq<u8>>, i: int) -> Seq<u8>
    decreases i,
{
    if i <= 0 {
        Seq::empty()
    } else {
        byte_seqs_enc_prefix(v, i - 1) + bytes_enc(v[i - 1])
    }
}

/// A list of byte strings on the wire: its length as ULEB128, then each
/// byte string in order.
pub open spec fn byte_seqs_enc(v: Seq<Seq<u8>>) -> Seq<u8> {
    uleb128_enc(v.len()) + byte_seqs_enc_prefix(v, v.len() as int)
}

/// Append the ULEB128 encoding of `n` to `out`.
pub fn write_uleb128(out: &mut Vec<u8>, n: usize)
    ensures
        final(out)@ == old(out)@ + uleb128_enc(n as nat),
{
    let ghost prior = out@;
    let mut rest: usize = n;
    while rest >= 0x80
        invariant
            prior + uleb128_enc(n as nat) == out@ + uleb128_enc(rest as nat),
        decreases rest,
    {
        out.push((rest % 0x80 + 0x80) as u8);
        rest = rest / 0x80;
    }
    out.push(rest as u8);
}

/// Append the little-endian bytes of `n` to `out`.
pub fn write_u64_le(out: &mut Vec<u8>, n: u64)
    ensures
        final(out)@ == old(out)@ + u64_le_bytes(n),
{
    out.push((n & 0xff) as u8);
    out.push(((n >> 8) & 0xff) as u8);
    out.push(((n >> 16) & 0xff) as u8);
    out.push(((n >> 24) & 0xff) as u8);
    out.push(((n >> 32) & 0xff) as u8);
    out.push(((n >> 40) & 0xff) as u8);
    out.push(((n >> 48) & 0xff) as u8);
    out.push(((n >> 56) & 0xff) as u8);
    assert(out@ =~= old(out)@ + u64_le_bytes(n));
}

/// Append the raw bytes of `b` to `out`, with no framing.
pub fn write_raw(out: &mut Vec<u8>, b: &[u8])
    ensures
        final(out)@ == old(out)@ + b@,
{
    let mut i: usize = 0;
    while i < b.len()
        invariant
            i <= b@.len(),
            out@ == old(out)@ + b@.take(i as int),
        decreases b@.len() - i,
    {
        out.push(b[i]);
        i = i + 1;
        assert(out@ =~= old(out)@ + b@.take(i as int));
    }
    assert(b@.take(b@.len() as int) =~= b@);
}

/// Append the length-prefixed encoding of the byte string `b` to `out`.
pub fn write_bytes(out: &mut Vec<u8>, b: &[u8])
    ensures
        final(out)@ == old(out)@ + bytes_enc(b@),
{
    write_uleb128(out, b.len());
    write_raw(out, b);
    assert(final(out)@ =~= old(out)@ + bytes_enc(b@));
}

/// Append the encoding of the list of byte strings `v` to `out`.
pub fn write_byte_seqs(out: &mut Vec<u8>, v: &Vec<Vec<u8>>)
    ensures
        final(out)@ == old(out)@ + byte_seqs_enc(v.deep_view()),
{
    write_uleb128(out, v.len());
    let mut i: usize = 0;
    while i < v.len()
        invariant
            i <= v@.len(),
            v.deep_view().len() == v@.len(),
            forall|j: int| 0 <= j < v@.len() ==> v.deep_view()[j] == v@[j]@,
            out@ == old(out)@ + uleb128_enc(v@.len() as nat)
                + byte_seqs_enc_prefix(v.deep_view(), i as int),
        decreases v@.len() - i,
    {
        write_bytes(out, v[i].as_slice());
        i = i + 1;
        assert(out@ =~= old(out)@ + uleb128_enc(v@.len() as nat)
            + byte_seqs_enc_prefix(v.deep_view(), i as int));
    }
    assert(final(out)@ =~= old(out)@ + byte_seqs_enc(v.deep_view()));
}

} // verus!
