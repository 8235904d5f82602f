use endpoint::error::EndpointError;
use endpoint::event::{AdminDiscarded, AdminUpdated};
use endpoint::instructions::add_adapter::{add_adapter, AddAdapter, AddAdapterArgs};
use endpoint::instructions::discard_admin::{discard_admin, DiscardAdmin};
use endpoint::instructions::transfer_admin::{
    claim_admin, transfer_admin, ClaimAdmin, TransferAdmin, TransferAdminArgs,
};
use endpoint::instructions::update_admin::{update_admin, UpdateAdmin, UpdateAdminArgs};
use endpoint::pubkey::Pubkey;
use endpoint::state::integrator_config::IntegratorConfig;

fn key(n: u8) -> Pubkey {
    Pubkey::new_from_array([n; 32])
}

fn registered(admin: Pubkey) -> IntegratorConfig {
    IntegratorConfig {
        bump: 255,
        integrator_program_id: key(100),
        admin: Some(admin),
        pending_admin: None,
        adapter_infos: Vec::new(),
    }
}

fn transfer(config: IntegratorConfig, signer: Pubkey, new_admin: Pubkey) -> (IntegratorConfig, Result<(), EndpointError>) {
    let mut ctx = TransferAdmin { admin: signer, integrator_config: config };
    let r = transfer_admin(&mut ctx, &TransferAdminArgs { new_admin, integrator_program_id: key(100) });
    (ctx.integrator_config, r)
}

fn claim(config: IntegratorConfig, signer: Pubkey) -> (IntegratorConfig, Result<(), EndpointError>) {
    let mut ctx = ClaimAdmin { new_admin: signer, integrator_config: config };
    let r = claim_admin(&mut ctx);
    (ctx.integrator_config, r)
}

fn discard(config: IntegratorConfig, signer: Pubkey) -> (IntegratorConfig, Result<AdminDiscarded, EndpointError>) {
    let mut ctx = DiscardAdmin { admin: signer, integrator_config: config };
    let r = discard_admin(&mut ctx);
    (ctx.integrator_config, r)
}

fn update(config: IntegratorConfig, signer: Pubkey, new_admin: Pubkey) -> (IntegratorConfig, Result<AdminUpdated, EndpointError>) {
    let mut ctx = UpdateAdmin { admin: signer, integrator_config: config };
    let r = update_admin(&mut ctx, &UpdateAdminArgs { new_admin, integrator_program_id: key(100) });
    (ctx.integrator_config, r)
}

#[test]
fn check_admin_accepts_only_the_admin_without_pending_transfer() {
    let admin = key(1);
    let mut config = registered(admin);
    assert_eq!(config.check_admin(&admin), Ok(()));
    assert_eq!(config.check_admin(&key(2)), Err(EndpointError::CallerNotAuthorized));
    config.pending_admin = Some(key(2));
    assert_eq!(config.check_admin(&admin), Err(EndpointError::AdminTransferInProgress));
    assert_eq!(config.check_admin(&key(2)), Err(EndpointError::CallerNotAuthorized));
    config.admin = None;
    assert_eq!(config.check_admin(&admin), Err(EndpointError::CallerNotAuthorized));
}

#[test]
fn test_transfer_admin_success() {
    let admin = key(1);
    let new_admin = key(2);
    let config = registered(admin);
    assert_eq!(config.pending_admin, None);
    let (config, r) = transfer(config, admin, new_admin);
    assert!(r.is_ok());
    assert_eq!(config.pending_admin, Some(new_admin));
    assert_eq!(config.admin, Some(admin));
}

#[test]
fn test_transfer_admin_with_pending_transfer() {
    let admin = key(1);
    let (config, r) = transfer(registered(admin), admin, key(2));
    r.unwrap();
    let (config, r) = transfer(config, admin, key(3));
    assert_eq!(r, Err(EndpointError::AdminTransferInProgress));
    assert_eq!(config.pending_admin, Some(key(2)));
}

#[test]
fn test_cancel_admin_transfer() {
    let admin = key(1);
    let (config, r) = transfer(registered(admin), admin, key(2));
    r.unwrap();
    let (config, r) = claim(config, admin);
    assert!(r.is_ok());
    assert_eq!(config.pending_admin, None);
    assert_eq!(config.admin, Some(admin));
}

#[test]
fn test_claim_admin_success() {
    let admin = key(1);
    let new_admin = key(2);
    let (config, r) = transfer(registered(admin), admin, new_admin);
    r.unwrap();
    assert_eq!(config.pending_admin, Some(new_admin));
    let (config, r) = claim(config, new_admin);
    assert!(r.is_ok());
    assert_eq!(config.admin, Some(new_admin));
    assert_eq!(config.pending_admin, None);
    // The new admin now passes the admin check, the old one does not.
    assert_eq!(config.check_admin(&new_admin), Ok(()));
    assert_eq!(config.check_admin(&admin), Err(EndpointError::CallerNotAuthorized));
}

#[test]
fn test_claim_admin_no_pending_admin() {
    let admin = key(1);
    let random_user = key(7);
    // Attempt to claim admin with a random user (neither admin nor pending_admin)
    let (config, r) = claim(registered(admin), random_user);
    assert_eq!(r, Err(EndpointError::CallerNotAuthorized));
    assert_eq!(config.admin, Some(admin));
    assert_eq!(config.pending_admin, None);
}

#[test]
fn claim_by_admin_without_pending_transfer_is_refused() {
    let admin = key(1);
    let (config, r) = claim(registered(admin), admin);
    assert_eq!(r, Err(EndpointError::NoAdminTransferInProgress));
    assert_eq!(config.admin, Some(admin));
    assert_eq!(config.pending_admin, None);
}

#[test]
fn test_transfer_admin_non_authority() {
    let (config, r) = transfer(registered(key(1)), key(9), key(2));
    assert_eq!(r, Err(EndpointError::CallerNotAuthorized));
    assert_eq!(config.pending_admin, None);
}

#[test]
fn test_claim_admin_unauthorized() {
    let admin = key(1);
    let (config, r) = transfer(registered(admin), admin, key(2));
    r.unwrap();
    let (config, r) = claim(config, key(3));
    assert_eq!(r, Err(EndpointError::CallerNotAuthorized));
    assert_eq!(config.admin, Some(admin));
    assert_eq!(config.pending_admin, Some(key(2)));
}

#[test]
fn test_transfer_admin_with_immutable_config() {
    let admin = key(1);
    let (config, r) = discard(registered(admin), admin);
    r.unwrap();
    let (config, r) = transfer(config, admin, key(2));
    assert_eq!(r, Err(EndpointError::CallerNotAuthorized));
    assert_eq!(config.admin, None);
}

#[test]
fn claim_on_discarded_config_is_refused() {
    let admin = key(1);
    let (config, r) = discard(registered(admin), admin);
    r.unwrap();
    let (config, r) = claim(config, admin);
    assert_eq!(r, Err(EndpointError::CallerNotAuthorized));
    assert_eq!(config.admin, None);
}

#[test]
fn test_discard_admin_success() {
    let admin = key(1);
    let (config, r) = discard(registered(admin), admin);
    assert_eq!(r, Ok(AdminDiscarded { integrator: key(100) }));
    assert_eq!(config.admin, None);
}

#[test]
fn test_discard_admin_non_authority() {
    let (config, r) = discard(registered(key(1)), key(2));
    assert_eq!(r, Err(EndpointError::CallerNotAuthorized));
    assert_eq!(config.admin, Some(key(1)));
}

#[test]
fn test_discard_admin_already_discarded() {
    let admin = key(1);
    let (config, r) = discard(registered(admin), admin);
    r.unwrap();
    let (_, r) = discard(config, admin);
    assert_eq!(r, Err(EndpointError::CallerNotAuthorized));
}

#[test]
fn test_discard_admin_with_pending_transfer() {
    let admin = key(1);
    let (config, r) = transfer(registered(admin), admin, key(2));
    r.unwrap();
    let (config, r) = discard(config, admin);
    assert_eq!(r, Err(EndpointError::AdminTransferInProgress));
    assert_eq!(config.admin, Some(admin));
}

#[test]
fn test_update_admin_success() {
    let admin = key(1);
    let (config, r) = update(registered(admin), admin, key(2));
    assert_eq!(
        r,
        Ok(AdminUpdated { integrator: key(100), old_admin: key(1), new_admin: key(2) })
    );
    assert_eq!(config.admin, Some(key(2)));
}

#[test]
fn test_update_admin_non_authority() {
    let (config, r) = update(registered(key(1)), key(3), key(2));
    assert_eq!(r, Err(EndpointError::CallerNotAuthorized));
    assert_eq!(config.admin, Some(key(1)));
}

#[test]
fn test_update_admin_same_address() {
    let admin = key(1);
    let (config, r) = update(registered(admin), admin, admin);
    assert!(r.is_ok());
    assert_eq!(config.admin, Some(admin));
}

#[test]
fn test_update_admin_with_transfer_in_progress() {
    let admin = key(1);
    let (config, r) = transfer(registered(admin), admin, key(2));
    r.unwrap();
    let (config, r) = update(config, admin, key(3));
    assert_eq!(r, Err(EndpointError::AdminTransferInProgress));
    assert_eq!(config.admin, Some(admin));
    assert_eq!(config.pending_admin, Some(key(2)));
}

#[test]
fn test_update_admin_with_immutable_config() {
    let admin = key(1);
    let (config, r) = discard(registered(admin), admin);
    r.unwrap();
    let (config, r) = update(config, admin, key(3));
    assert_eq!(r, Err(EndpointError::CallerNotAuthorized));
    assert_eq!(config.admin, None);
}

#[test]
fn discarded_config_refuses_adapter_registration() {
    let admin = key(1);
    let (config, r) = discard(registered(admin), admin);
    r.unwrap();
    let mut ctx = AddAdapter { admin, integrator_config: config };
    let r = add_adapter(&mut ctx, &AddAdapterArgs { integrator_program_id: key(100), adapter_program_id: key(50) }, 1);
    assert_eq!(r, Err(EndpointError::CallerNotAuthorized));
    assert!(ctx.integrator_config.adapter_infos.is_empty());
}
