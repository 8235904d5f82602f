use endpoint::bitmap::Bitmap;
use endpoint::error::EndpointError;
use endpoint::event::{
    AdapterAdded, RecvAdapterDisabledForChain, RecvAdapterEnabledForChain,
    SendAdapterEnabledForChain,
};
use endpoint::instructions::add_adapter::{add_adapter, AddAdapter, AddAdapterArgs};
use endpoint::instructions::common::AdapterInfoArgs;
use endpoint::instructions::disable_adapter::{
    disable_recv_adapter, disable_send_adapter, DisableAdapter,
};
use endpoint::instructions::enable_adapter::{enable_recv_adapter, enable_send_adapter, EnableAdapter};
use endpoint::pubkey::Pubkey;
use endpoint::state::adapter_info::AdapterInfo;
use endpoint::state::integrator_chain_config::IntegratorChainConfig;
use endpoint::state::integrator_config::IntegratorConfig;

fn key(n: u8) -> Pubkey {
    Pubkey::new_from_array([n; 32])
}

fn integrator() -> Pubkey {
    key(100)
}

fn registered(admin: Pubkey) -> IntegratorConfig {
    IntegratorConfig {
        bump: 255,
        integrator_program_id: integrator(),
        admin: Some(admin),
        pending_admin: None,
        adapter_infos: Vec::new(),
    }
}

fn fresh_chain_config() -> IntegratorChainConfig {
    IntegratorChainConfig {
        bump: 0,
        chain_id: 0,
        integrator_program_id: Pubkey::new_from_array([0u8; 32]),
        send_adapter_bitmap: Bitmap::new(),
        recv_adapter_bitmap: Bitmap::new(),
    }
}

fn add(
    config: IntegratorConfig,
    signer: Pubkey,
    adapter: Pubkey,
) -> (IntegratorConfig, Result<(AdapterInfo, AdapterAdded), EndpointError>) {
    let mut ctx = AddAdapter { admin: signer, integrator_config: config };
    let r = add_adapter(
        &mut ctx,
        &AddAdapterArgs { integrator_program_id: integrator(), adapter_program_id: adapter },
        254,
    );
    (ctx.integrator_config, r)
}

fn args(chain_id: u16, adapter: Pubkey) -> AdapterInfoArgs {
    AdapterInfoArgs { chain_id, adapter_program_id: adapter, integrator_program_id: integrator() }
}

fn enable_ctx(
    admin: Pubkey,
    config: IntegratorConfig,
    chain: IntegratorChainConfig,
    info: AdapterInfo,
) -> EnableAdapter {
    EnableAdapter { admin, integrator_config: config, integrator_chain_config: chain, adapter_info: info }
}

fn disable_ctx(
    admin: Pubkey,
    config: IntegratorConfig,
    chain: IntegratorChainConfig,
    info: AdapterInfo,
) -> DisableAdapter {
    DisableAdapter { admin, integrator_config: config, integrator_chain_config: chain, adapter_info: info }
}

#[test]
fn test_add_adapter_success() {
    let admin = key(1);
    let (config, r) = add(registered(admin), admin, key(50));
    let (info, event) = r.unwrap();
    assert_eq!(info.index, 0);
    assert_eq!(info.bump, 254);
    assert_eq!(info.integrator_program_id, integrator());
    assert_eq!(info.adapter_program_id, key(50));
    assert_eq!(event, AdapterAdded { integrator: integrator(), adapter: key(50), adapters_num: 0 });
    assert_eq!(config.adapter_infos.len(), 1);
    assert_eq!(config.adapter_infos[0], key(50));
}

#[test]
fn test_register_multiple_adapters() {
    let admin = key(1);
    let mut config = registered(admin);
    let adapters = vec![key(50), key(51)];
    for (id, adapter) in adapters.iter().enumerate() {
        let (next, r) = add(config, admin, *adapter);
        let (info, _) = r.unwrap();
        assert_eq!(info.index, id as u8);
        assert_eq!(info.integrator_program_id, integrator());
        assert_eq!(info.adapter_program_id, *adapter);
        config = next;
    }
    assert_eq!(config.adapter_infos.len(), 2);
    assert_eq!(config.adapter_infos, adapters);
}

#[test]
fn test_register_max_adapters() {
    let admin = key(1);
    let mut config = registered(admin);
    for i in 0..IntegratorConfig::MAX_ADAPTERS {
        let (next, r) = add(config, admin, Pubkey::new_from_array([i as u8; 32]));
        assert_eq!(r.unwrap().0.index, i as u8);
        config = next;
    }
    let (config, r) = add(config, admin, key(200));
    assert_eq!(r, Err(EndpointError::MaxAdaptersReached));
    assert_eq!(config.adapter_infos.len(), IntegratorConfig::MAX_ADAPTERS);
}

#[test]
fn test_add_adapter_non_authority() {
    let (config, r) = add(registered(key(1)), key(2), key(50));
    assert_eq!(r, Err(EndpointError::CallerNotAuthorized));
    assert_eq!(config.adapter_infos.len(), 0);
}

#[test]
fn test_add_adapter_with_transfer_in_progress() {
    let admin = key(1);
    let mut config = registered(admin);
    config.pending_admin = Some(key(2));
    let (config, r) = add(config, admin, key(50));
    assert_eq!(r, Err(EndpointError::AdminTransferInProgress));
    assert_eq!(config.admin, Some(admin));
    assert_eq!(config.pending_admin, Some(key(2)));
    assert_eq!(config.adapter_infos.len(), 0);
}

#[test]
fn test_add_adapter_with_immutable_config() {
    let mut config = registered(key(1));
    config.admin = None;
    let (config, r) = add(config, key(1), key(50));
    assert_eq!(r, Err(EndpointError::CallerNotAuthorized));
    assert_eq!(config.adapter_infos.len(), 0);
}

fn one_adapter() -> (Pubkey, IntegratorConfig, AdapterInfo) {
    let admin = key(1);
    let (config, r) = add(registered(admin), admin, key(50));
    (admin, config, r.unwrap().0)
}

#[test]
fn test_enable_in_adapters_success() {
    let (admin, config, info) = one_adapter();
    let mut ctx = enable_ctx(admin, config, fresh_chain_config(), info);
    let r = enable_recv_adapter(&mut ctx, &args(2, key(50)), 253);
    assert_eq!(
        r,
        Ok(RecvAdapterEnabledForChain { integrator: integrator(), chain: 2, adapter: key(50) })
    );
    let chain = ctx.integrator_chain_config;
    assert_eq!(chain.chain_id, 2);
    assert_eq!(chain.bump, 253);
    assert_eq!(chain.integrator_program_id, integrator());
    assert_eq!(chain.recv_adapter_bitmap.get(info.index), Ok(true));
    assert_eq!(chain.send_adapter_bitmap.as_value(), 0);
}

#[test]
fn test_enable_in_adapters_multiple_sets_success() {
    let admin = key(1);
    let (config, r) = add(registered(admin), admin, key(50));
    let first = r.unwrap().0;
    let (config, r) = add(config, admin, key(51));
    let second = r.unwrap().0;
    let mut ctx = enable_ctx(admin, config, fresh_chain_config(), first);
    enable_recv_adapter(&mut ctx, &args(2, key(50)), 253).unwrap();
    ctx.adapter_info = second;
    enable_recv_adapter(&mut ctx, &args(2, key(51)), 253).unwrap();
    assert_eq!(ctx.integrator_chain_config.recv_adapter_bitmap.as_value(), 0b11);
    assert_eq!(ctx.integrator_chain_config.chain_id, 2);
}

#[test]
fn test_enable_out_adapters_success() {
    let (admin, config, info) = one_adapter();
    let mut ctx = enable_ctx(admin, config, fresh_chain_config(), info);
    let r = enable_send_adapter(&mut ctx, &args(2, key(50)), 253);
    assert_eq!(
        r,
        Ok(SendAdapterEnabledForChain { integrator: integrator(), chain: 2, adapter: key(50) })
    );
    assert_eq!(ctx.integrator_chain_config.send_adapter_bitmap.get(info.index), Ok(true));
    assert_eq!(ctx.integrator_chain_config.recv_adapter_bitmap.as_value(), 0);
}

#[test]
fn test_enable_adapter_invalid_admin() {
    let (_, config, info) = one_adapter();
    let mut ctx = enable_ctx(key(9), config, fresh_chain_config(), info);
    let r = enable_recv_adapter(&mut ctx, &args(2, key(50)), 253);
    assert_eq!(r, Err(EndpointError::CallerNotAuthorized));
    assert_eq!(ctx.integrator_chain_config.chain_id, 0);
}

#[test]
fn enable_adapter_with_zero_chain_is_refused() {
    let (admin, config, info) = one_adapter();
    let mut ctx = enable_ctx(admin, config, fresh_chain_config(), info);
    let r = enable_send_adapter(&mut ctx, &args(0, key(50)), 253);
    assert_eq!(r, Err(EndpointError::InvalidChainId));
    assert_eq!(ctx.integrator_chain_config.send_adapter_bitmap.as_value(), 0);
}

#[test]
fn test_enable_already_enabled_adapter() {
    let (admin, config, info) = one_adapter();
    let mut ctx = enable_ctx(admin, config, fresh_chain_config(), info);
    enable_recv_adapter(&mut ctx, &args(2, key(50)), 253).unwrap();
    let r = enable_recv_adapter(&mut ctx, &args(2, key(50)), 253);
    assert_eq!(r, Err(EndpointError::AdapterAlreadyEnabled));
    assert_eq!(ctx.integrator_chain_config.recv_adapter_bitmap.as_value(), 1);
}

#[test]
fn test_enable_adapter_with_transfer_in_progress() {
    let (admin, mut config, info) = one_adapter();
    config.pending_admin = Some(key(2));
    let mut ctx = enable_ctx(admin, config, fresh_chain_config(), info);
    assert_eq!(
        enable_recv_adapter(&mut ctx, &args(2, key(50)), 253),
        Err(EndpointError::AdminTransferInProgress)
    );
    assert_eq!(
        enable_send_adapter(&mut ctx, &args(2, key(50)), 253),
        Err(EndpointError::AdminTransferInProgress)
    );
    // Nothing was initialized.
    assert_eq!(ctx.integrator_chain_config.chain_id, 0);
}

#[test]
fn test_enable_adapter_with_immutable_config() {
    let (admin, mut config, info) = one_adapter();
    config.admin = None;
    let mut ctx = enable_ctx(admin, config, fresh_chain_config(), info);
    let r = enable_recv_adapter(&mut ctx, &args(2, key(50)), 253);
    assert_eq!(r, Err(EndpointError::CallerNotAuthorized));
    assert_eq!(ctx.integrator_config.admin, None);
}

#[test]
fn enable_adapter_with_out_of_range_index_is_refused() {
    let (admin, config, mut info) = one_adapter();
    info.index = 200;
    let mut ctx = enable_ctx(admin, config, fresh_chain_config(), info);
    let r = enable_recv_adapter(&mut ctx, &args(2, key(50)), 253);
    assert_eq!(r, Err(EndpointError::BitmapIndexOutOfBounds));
    assert_eq!(ctx.integrator_chain_config.chain_id, 0);
}

fn enabled_both() -> (Pubkey, IntegratorConfig, IntegratorChainConfig, AdapterInfo) {
    let (admin, config, info) = one_adapter();
    let mut ctx = enable_ctx(admin, config, fresh_chain_config(), info);
    enable_recv_adapter(&mut ctx, &args(2, key(50)), 253).unwrap();
    enable_send_adapter(&mut ctx, &args(2, key(50)), 253).unwrap();
    (admin, ctx.integrator_config, ctx.integrator_chain_config, info)
}

#[test]
fn disable_transceiver_test_disable_recv_transceiver_success() {
    let (admin, config, chain, info) = enabled_both();
    let mut ctx = disable_ctx(admin, config, chain, info);
    let r = disable_recv_adapter(&mut ctx, &args(2, key(50)));
    assert_eq!(
        r,
        Ok(RecvAdapterDisabledForChain { integrator: integrator(), chain: 2, adapter: key(50) })
    );
    assert_eq!(ctx.integrator_chain_config.recv_adapter_bitmap.get(0), Ok(false));
    assert_eq!(ctx.integrator_chain_config.send_adapter_bitmap.get(0), Ok(true));
}

#[test]
fn disable_transceiver_test_disable_send_transceiver_success() {
    let (admin, config, chain, info) = enabled_both();
    let mut ctx = disable_ctx(admin, config, chain, info);
    disable_send_adapter(&mut ctx, &args(2, key(50))).unwrap();
    assert_eq!(ctx.integrator_chain_config.send_adapter_bitmap.get(0), Ok(false));
    assert_eq!(ctx.integrator_chain_config.recv_adapter_bitmap.get(0), Ok(true));
}

#[test]
fn test_disable_transceiver_invalid_authority() {
    let (_, config, chain, info) = enabled_both();
    let mut ctx = disable_ctx(key(9), config, chain, info);
    assert_eq!(
        disable_recv_adapter(&mut ctx, &args(2, key(50))),
        Err(EndpointError::CallerNotAuthorized)
    );
    assert_eq!(ctx.integrator_chain_config.recv_adapter_bitmap.get(0), Ok(true));
}

#[test]
fn disable_transceiver_test_disable_already_disabled_transceiver() {
    let (admin, config, chain, info) = enabled_both();
    let mut ctx = disable_ctx(admin, config, chain, info);
    disable_recv_adapter(&mut ctx, &args(2, key(50))).unwrap();
    assert_eq!(
        disable_recv_adapter(&mut ctx, &args(2, key(50))),
        Err(EndpointError::AdapterAlreadyDisabled)
    );
}

#[test]
fn test_disable_transceiver_with_transfer_in_progress() {
    let (admin, mut config, chain, info) = enabled_both();
    config.pending_admin = Some(key(2));
    let mut ctx = disable_ctx(admin, config, chain, info);
    assert_eq!(
        disable_send_adapter(&mut ctx, &args(2, key(50))),
        Err(EndpointError::AdminTransferInProgress)
    );
    assert_eq!(ctx.integrator_chain_config.send_adapter_bitmap.get(0), Ok(true));
}

#[test]
fn test_disable_transceiver_with_immutable_config() {
    let (admin, mut config, chain, info) = enabled_both();
    config.admin = None;
    let mut ctx = disable_ctx(admin, config, chain, info);
    assert_eq!(
        disable_send_adapter(&mut ctx, &args(2, key(50))),
        Err(EndpointError::CallerNotAuthorized)
    );
}

#[test]
fn enable_then_disable_restores_bitmap() {
    let (admin, config, info) = one_adapter();
    let mut ctx = enable_ctx(admin, config, fresh_chain_config(), info);
    enable_recv_adapter(&mut ctx, &args(2, key(50)), 253).unwrap();
    let mut d = disable_ctx(admin, ctx.integrator_config, ctx.integrator_chain_config, info);
    disable_recv_adapter(&mut d, &args(2, key(50))).unwrap();
    assert_eq!(d.integrator_chain_config.recv_adapter_bitmap.as_value(), 0);
    assert_eq!(d.integrator_chain_config.chain_id, 2);
    // It can be enabled again.
    let mut again = enable_ctx(admin, d.integrator_config, d.integrator_chain_config, info);
    assert!(enable_recv_adapter(&mut again, &args(2, key(50)), 253).is_ok());
}
