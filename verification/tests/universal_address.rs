use anchor_lang::prelude::Pubkey as SolanaPubkey;
use anchor_lang::{AnchorDeserialize, AnchorSerialize};
use endpoint::pubkey::Pubkey;
use endpoint::universal_address::UniversalAddress;

fn unique_key() -> Pubkey {
    Pubkey::new_from_array(SolanaPubkey::new_unique().to_bytes())
}

#[test]
fn test_pubkey_roundtrip() {
    let original_pubkey = unique_key();
    let universal = UniversalAddress::from_pubkey(&original_pubkey);
    let recovered_pubkey = universal.to_pubkey();
    assert_eq!(original_pubkey, recovered_pubkey);
}

#[test]
fn test_bytes_roundtrip() {
    let original_bytes = [42u8; 32];
    let universal = UniversalAddress::from_bytes(original_bytes);
    let recovered_bytes = universal.to_bytes();
    assert_eq!(original_bytes, recovered_bytes);
}

#[test]
fn test_from_into_traits() {
    let original_pubkey = unique_key();

    // Test From<Pubkey>
    let universal: UniversalAddress = original_pubkey.into();
    assert_eq!(universal.bytes, original_pubkey.to_bytes());

    // Test Into<Pubkey>
    let recovered_pubkey: Pubkey = universal.into();
    assert_eq!(original_pubkey, recovered_pubkey);
}

#[test]
fn test_default() {
    let universal = UniversalAddress::default();
    assert_eq!(universal.bytes, [0u8; 32]);
}

#[test]
fn test_debug_format() {
    let bytes = [1u8; 32];
    let universal = UniversalAddress::from_bytes(bytes);
    let debug_str = format!("{:?}", universal);
    assert!(debug_str.contains("UniversalAddress"));
}

#[test]
fn test_clone_and_copy() {
    let original = UniversalAddress::from_bytes([1u8; 32]);

    // Test Clone
    let cloned = original.clone();
    assert_eq!(original.bytes, cloned.bytes);

    // Test Copy
    let copied = original;
    assert_eq!(original.bytes, copied.bytes);
}

#[test]
fn test_equality() {
    let addr1 = UniversalAddress::from_bytes([1u8; 32]);
    let addr2 = UniversalAddress::from_bytes([1u8; 32]);
    let addr3 = UniversalAddress::from_bytes([2u8; 32]);

    assert_eq!(addr1, addr2);
    assert_ne!(addr1, addr3);
}

#[test]
fn test_serialization() {
    let original = UniversalAddress::from_bytes([1u8; 32]);

    // Test serialization
    let serialized = original.to_bytes().try_to_vec().unwrap();

    // Test deserialization
    let deserialized = UniversalAddress::from_bytes(<[u8; 32]>::try_from_slice(&serialized).unwrap());

    assert_eq!(original, deserialized);
}

#[test]
fn pubkey_roundtrip_keeps_solana_bytes() {
    let solana = SolanaPubkey::new_unique();
    let universal = UniversalAddress::from_pubkey(&Pubkey::new_from_array(solana.to_bytes()));
    assert_eq!(SolanaPubkey::new_from_array(universal.to_pubkey().to_bytes()), solana);
}

#[test]
fn same_as_compares_every_byte() {
    let a = Pubkey::new_from_array([7u8; 32]);
    let mut bytes = [7u8; 32];
    assert!(a.same_as(&Pubkey::new_from_array(bytes)));
    bytes[31] = 8;
    assert!(!a.same_as(&Pubkey::new_from_array(bytes)));
    bytes[31] = 7;
    bytes[0] = 0;
    assert!(!a.same_as(&Pubkey::new_from_array(bytes)));
}
