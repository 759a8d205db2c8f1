use aptos_txn_core::codec::{write_byte_seqs, write_bytes, write_u64_le, write_uleb128};

#[test]
fn uleb128_matches_bcs_length_prefix() {
    // bcs length-prefixes a byte sequence with the ULEB128 of its length.
    for n in [0usize, 1, 127, 128, 200, 300, 16383, 16384, 100_000] {
        let mut ours: Vec<u8> = Vec::new();
        write_uleb128(&mut ours, n);
        let body = vec![7u8; n];
        let bcs_bytes = bcs::to_bytes(&body).unwrap();
        assert_eq!(&bcs_bytes[..ours.len()], ours.as_slice(), "length {}", n);
        assert_eq!(bcs_bytes.len(), ours.len() + n);
    }
}

#[test]
fn uleb128_small_values_are_one_byte() {
    let mut out: Vec<u8> = Vec::new();
    write_uleb128(&mut out, 0);
    assert_eq!(out, vec![0]);
    out.clear();
    write_uleb128(&mut out, 127);
    assert_eq!(out, vec![127]);
    out.clear();
    write_uleb128(&mut out, 128);
    assert_eq!(out, vec![0x80, 0x01]);
}

#[test]
fn u64_encoding_matches_bcs() {
    for n in [0u64, 1, 255, 256, 1 << 32, u64::MAX, 1_700_000_000] {
        let mut ours: Vec<u8> = Vec::new();
        write_u64_le(&mut ours, n);
        assert_eq!(ours, bcs::to_bytes(&n).unwrap(), "value {}", n);
    }
}

#[test]
fn byte_string_encoding_matches_bcs() {
    let body: Vec<u8> = (0..=255u8).collect();
    let mut ours: Vec<u8> = Vec::new();
    write_bytes(&mut ours, &body);
    assert_eq!(ours, bcs::to_bytes(&body).unwrap());
}

#[test]
fn byte_string_list_encoding_matches_bcs() {
    let items: Vec<Vec<u8>> = vec![vec![], vec![1], vec![2, 3, 4], vec![0xff; 200]];
    let mut ours: Vec<u8> = Vec::new();
    write_byte_seqs(&mut ours, &items);
    assert_eq!(ours, bcs::to_bytes(&items).unwrap());
}

#[test]
fn writers_append_after_existing_content() {
    let mut out: Vec<u8> = vec![0xaa, 0xbb];
    write_u64_le(&mut out, 1);
    assert_eq!(out[..2], [0xaa, 0xbb]);
    assert_eq!(out[2..], [1, 0, 0, 0, 0, 0, 0, 0]);
}
