use anchor_lang::prelude::Pubkey as SolanaPubkey;
use endpoint::program;
use endpoint::pubkey::Pubkey;
use endpoint::state::adapter_info::AdapterInfo;
use endpoint::state::attestation_info::AttestationInfo;
use endpoint::state::integrator_chain_config::IntegratorChainConfig;
use endpoint::state::integrator_config::IntegratorConfig;

fn program_id() -> SolanaPubkey {
    "FMPF1RnXz1vvZ6eovoEQqMPXYRUgYqFKFMXzTJkbWWVD".parse().unwrap()
}

fn to_library(k: SolanaPubkey) -> Pubkey {
    Pubkey::new_from_array(k.to_bytes())
}

#[test]
fn program_id_matches_declared_id() {
    assert_eq!(program::id().to_bytes(), program_id().to_bytes());
}

#[test]
fn integrator_config_pda_matches_solana_derivation() {
    let integrator = SolanaPubkey::new_unique();
    let (expected, bump) =
        SolanaPubkey::find_program_address(&[b"integrator_config", integrator.as_ref()], &program_id());
    let got = IntegratorConfig::pda(&to_library(integrator)).unwrap();
    assert_eq!(got, (to_library(expected), bump));
}

#[test]
fn adapter_info_pda_matches_solana_derivation() {
    let integrator = SolanaPubkey::new_unique();
    let adapter = SolanaPubkey::new_unique();
    let (expected, bump) = SolanaPubkey::find_program_address(
        &[b"adapter_info", integrator.as_ref(), adapter.as_ref()],
        &program_id(),
    );
    let got = AdapterInfo::pda(&to_library(integrator), &to_library(adapter)).unwrap();
    assert_eq!(got, (to_library(expected), bump));
}

#[test]
fn integrator_chain_config_pda_matches_solana_derivation() {
    let integrator = SolanaPubkey::new_unique();
    let chain: u16 = 0x0102;
    let (expected, bump) = SolanaPubkey::find_program_address(
        &[b"integrator_chain_config", integrator.as_ref(), &chain.to_be_bytes()],
        &program_id(),
    );
    let got = IntegratorChainConfig::pda(&to_library(integrator), chain).unwrap();
    assert_eq!(got, (to_library(expected), bump));
}

#[test]
fn attestation_info_pda_matches_solana_derivation() {
    let hash = AttestationInfo::compute_message_hash(2, [1u8; 32], 1, 1, [2u8; 32], [3u8; 32]);
    let (expected, bump) =
        SolanaPubkey::find_program_address(&[b"attestation_info", &hash], &program_id());
    let got = AttestationInfo::pda(hash).unwrap();
    assert_eq!(got, (to_library(expected), bump));
}

#[test]
fn different_seeds_give_different_addresses() {
    let integrator = to_library(SolanaPubkey::new_unique());
    let a = IntegratorChainConfig::pda(&integrator, 1).unwrap();
    let b = IntegratorChainConfig::pda(&integrator, 2).unwrap();
    assert_ne!(a.0, b.0);
    assert_ne!(a.0, integrator);
}

#[test]
fn mock_adapter_id_matches_declared_id() {
    let declared: SolanaPubkey = "5k8XySmYJ6nQTF8ZFZtRoevjCx9Y9PS5MT9oJDLNA162".parse().unwrap();
    assert_eq!(endpoint::mock_adapter::id().to_bytes(), declared.to_bytes());
}
