use vstd::prelude::*;

use crate::error::EndpointError;
use crate::event::AdapterAdded;
use crate::pubkey::Pubkey;
use crate::state::adapter_info::AdapterInfo;
use crate::state::integrator_config::{IntegratorConfig, IntegratorConfigView};

verus! {

/// Arguments for the add_adapter instruction
#[derive(Clone, Copy, Debug)]
pub struct AddAdapterArgs {
    /// The Pubkey of the integrator program
    pub integrator_program_id: Pubkey,
    /// The Pubkey of the adapter to be registered
    pub adapter_program_id: Pubkey,
}

/// The accounts a registration reads and writes: the signing admin and the
/// integrator's configuration.
#[derive(Debug)]
pub struct AddAdapter {
    pub admin: Pubkey,
    pub integrator_config: IntegratorConfig,
}

/// The error a registration is refused with, or `None` when it is accepted.
pub open spec fn add_adapter_error(config: IntegratorConfigView, admin: Pubkey) -> Option<
    EndpointError,
> {
    match config.admin_check(admin) {
        Err(e) => Some(e),
        Ok(_) => if config.adapter_infos.len() >= IntegratorConfig::MAX_ADAPTERS {
            Some(EndpointError::MaxAdaptersReached)
        } else {
            None
        },
    }
}

impl AddAdapter {
    /// The admin check.
    pub fn validate(&self) -> (r: Result<(), EndpointError>)
        ensures
            r == self.integrator_config@.admin_check(self.admin),
    {
        self.integrator_config.check_admin(&self.admin)
    }
}

/// Register a new adapter for an integrator.
///
/// Checks the admin, refuses when `MAX_ADAPTERS` adapters are registered
/// already, appends the adapter to the integrator's registry and returns its
/// registration, whose index is its position in the registry. A refused
/// registration changes nothing.
pub fn add_adapter(ctx: &mut AddAdapter, args: &AddAdapterArgs, adapter_info_bump: u8) -> (r: Result<
    (AdapterInfo, AdapterAdded),
    EndpointError,
>)
    ensures
        final(ctx).admin == old(ctx).admin,
        (r is Ok) <==> (old(ctx).integrator_config.admin == Some(old(ctx).admin)
            && old(ctx).integrator_config.pending_admin is None
            && old(ctx).integrator_config@.adapter_infos.len() < IntegratorConfig::MAX_ADAPTERS),
        old(ctx).integrator_config.admin == Some(old(ctx).admin)
            && old(ctx).integrator_config.pending_admin is None
            && old(ctx).integrator_config@.adapter_infos.len() >= IntegratorConfig::MAX_ADAPTERS
            ==> r == Err::<(AdapterInfo, AdapterAdded), EndpointError>(
            EndpointError::MaxAdaptersReached,
        ),
        match r {
            Err(e) => {
                &&& add_adapter_error(old(ctx).integrator_config@, old(ctx).admin) == Some(e)
                &&& final(ctx).integrator_config@ == old(ctx).integrator_config@
            },
            Ok((info, event)) => {
                let before = old(ctx).integrator_config@;
                let index = before.adapter_infos.len();
                &&& add_adapter_error(before, old(ctx).admin) is None
                &&& final(ctx).integrator_config@ == IntegratorConfigView {
                    adapter_infos: before.adapter_infos.push(args.adapter_program_id),
                    ..before
                }
                &&& info == AdapterInfo {
                    bump: adapter_info_bump,
                    index: index as u8,
                    integrator_program_id: args.integrator_program_id,
                    adapter_program_id: args.adapter_program_id,
                }
                &&& event == AdapterAdded {
                    integrator: args.integrator_program_id,
                    adapter: args.adapter_program_id,
                    adapters_num: index as u8,
                }
            },
        },
{
    ctx.validate()?;
    let len = ctx.integrator_config.adapter_infos.len();

    // Add the new adapter to the list; the length check is in `add_adapter`
    ctx.integrator_config.add_adapter(args.adapter_program_id)?;
    let index = len as u8;

    // Initialize AdapterInfo
    let info = AdapterInfo {
        bump: adapter_info_bump,
        index,
        integrator_program_id: args.integrator_program_id,
        adapter_program_id: args.adapter_program_id,
    };
    let event = AdapterAdded {
        integrator: args.integrator_program_id,
        adapter: args.adapter_program_id,
        adapters_num: index,
    };
    Ok((info, event))
}

/// Registrations stay within the bitmaps: the registry never holds more than
/// `MAX_ADAPTERS` adapters, and an accepted registration gets an index below
/// `MAX_ADAPTERS` that is the adapter's position in the registry.
pub proof fn lemma_registry_bounded(config: IntegratorConfigView, admin: Pubkey, adapter: Pubkey)
    requires
        config.wf(),
        add_adapter_error(config, admin) is None,
    ensures
        ({
            let after = IntegratorConfigView {
                adapter_infos: config.adapter_infos.push(adapter),
                ..config
            };
            &&& after.wf()
            &&& config.adapter_infos.len() < IntegratorConfig::MAX_ADAPTERS
            &&& after.adapter_infos[config.adapter_infos.len() as int] == adapter
        }),
{
}

} // verus!
