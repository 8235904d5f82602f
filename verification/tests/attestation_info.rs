use endpoint::error::EndpointError;
use endpoint::state::attestation_info::AttestationInfo;

#[test]
fn test_compute_message_hash() {
    // Mock data
    let src_chain: u16 = 2;
    let src_addr = [
        0x12, 0x34, 0x56, 0x78, 0x90, 0x12, 0x34, 0x56, 0x78, 0x90, 0x12, 0x34, 0x56, 0x78, 0x90,
        0x12, 0x34, 0x56, 0x78, 0x90, 0x12, 0x34, 0x56, 0x78, 0x90, 0x12, 0x34, 0x56, 0x78, 0x90,
        0x12, 0x34,
    ];
    let sequence: u64 = 42;
    let dst_chain: u16 = 1;
    let dst_addr = [
        0x98, 0x76, 0x54, 0x32, 0x10, 0x98, 0x76, 0x54, 0x32, 0x10, 0x98, 0x76, 0x54, 0x32, 0x10,
        0x98, 0x76, 0x54, 0x32, 0x10, 0x98, 0x76, 0x54, 0x32, 0x10, 0x98, 0x76, 0x54, 0x32, 0x10,
        0x98, 0x76,
    ];
    let payload_hash: [u8; 32] = [
        0xaa, 0xbb, 0xcc, 0xdd, 0xaa, 0xbb, 0xcc, 0xdd, 0xaa, 0xbb, 0xcc, 0xdd, 0xaa, 0xbb, 0xcc,
        0xdd, 0xaa, 0xbb, 0xcc, 0xdd, 0xaa, 0xbb, 0xcc, 0xdd, 0xaa, 0xbb, 0xcc, 0xdd, 0xaa, 0xbb,
        0xcc, 0xdd,
    ];
    // Compute message hash
    let message_hash = AttestationInfo::compute_message_hash(
        src_chain,
        src_addr,
        sequence,
        dst_chain,
        dst_addr,
        payload_hash,
    );

    // Expected result from ethers.solidityPacked()
    let expected_hash: [u8; 32] = [
        0x2e, 0x02, 0x9b, 0x42, 0xd3, 0x2e, 0xe8, 0x76, 0x87, 0xda, 0xa5, 0xb1, 0xc8, 0x62, 0x8f,
        0xbb, 0xb0, 0xbf, 0xd3, 0x48, 0xed, 0x8c, 0xe8, 0x12, 0xf3, 0xc7, 0xbe, 0x63, 0xcb, 0x9e,
        0x31, 0xdf,
    ];

    assert_eq!(
        message_hash, expected_hash,
        "Computed hash does not match expected hash"
    );
}

#[test]
fn message_hash_is_keccak_of_packed_fields() {
    let mut packed = Vec::new();
    packed.extend_from_slice(&7u16.to_be_bytes());
    packed.extend_from_slice(&[1u8; 32]);
    packed.extend_from_slice(&0x0102030405060708u64.to_be_bytes());
    packed.extend_from_slice(&1u16.to_be_bytes());
    packed.extend_from_slice(&[2u8; 32]);
    packed.extend_from_slice(&[3u8; 32]);
    let expected = anchor_lang::solana_program::keccak::hash(&packed).to_bytes();
    let got = AttestationInfo::compute_message_hash(7, [1u8; 32], 0x0102030405060708, 1, [2u8; 32], [3u8; 32]);
    assert_eq!(got, expected);
}

#[test]
fn message_hash_changes_with_every_field() {
    let base = AttestationInfo::compute_message_hash(2, [1u8; 32], 5, 1, [2u8; 32], [3u8; 32]);
    assert_ne!(base, AttestationInfo::compute_message_hash(3, [1u8; 32], 5, 1, [2u8; 32], [3u8; 32]));
    assert_ne!(base, AttestationInfo::compute_message_hash(2, [9u8; 32], 5, 1, [2u8; 32], [3u8; 32]));
    assert_ne!(base, AttestationInfo::compute_message_hash(2, [1u8; 32], 6, 1, [2u8; 32], [3u8; 32]));
    assert_ne!(base, AttestationInfo::compute_message_hash(2, [1u8; 32], 5, 4, [2u8; 32], [3u8; 32]));
    assert_ne!(base, AttestationInfo::compute_message_hash(2, [1u8; 32], 5, 1, [9u8; 32], [3u8; 32]));
    assert_ne!(base, AttestationInfo::compute_message_hash(2, [1u8; 32], 5, 1, [2u8; 32], [9u8; 32]));
}

#[test]
fn new_attestation_info_stores_fields_and_hash() {
    let info = AttestationInfo::new(254, 2, [1u8; 32], 9, 1, [2u8; 32], [3u8; 32]).unwrap();
    assert_eq!(info.bump, 254);
    assert_eq!(info.src_chain, 2);
    assert_eq!(info.src_addr, [1u8; 32]);
    assert_eq!(info.sequence, 9);
    assert_eq!(info.dst_chain, 1);
    assert_eq!(info.dst_addr, [2u8; 32]);
    assert_eq!(info.payload_hash, [3u8; 32]);
    assert!(!info.executed);
    assert_eq!(info.num_attested, 0);
    assert_eq!(info.attested_adapters.as_value(), 0);
    assert_eq!(
        info.message_hash,
        AttestationInfo::compute_message_hash(2, [1u8; 32], 9, 1, [2u8; 32], [3u8; 32])
    );
    assert_eq!(info.compute_own_message_hash(), info.message_hash);
}

#[test]
fn new_attestation_info_rejects_zero_chain_ids() {
    assert_eq!(
        AttestationInfo::new(1, 0, [1u8; 32], 9, 1, [2u8; 32], [3u8; 32]).unwrap_err(),
        EndpointError::InvalidChainId
    );
    assert_eq!(
        AttestationInfo::new(1, 2, [1u8; 32], 9, 0, [2u8; 32], [3u8; 32]).unwrap_err(),
        EndpointError::InvalidChainId
    );
}
