use vstd::prelude::*;

use crate::error::EndpointError;
use crate::event::{RecvAdapterDisabledForChain, SendAdapterDisabledForChain};
use crate::instructions::common::AdapterInfoArgs;
use crate::bitmap::Bitmap;
use crate::instructions::enable_adapter::{
    direction_bitmap, enable_error, enabled_chain_config, initialized_chain_config, unit_result,
    with_direction_bitmap, EnableAdapter,
};
use crate::pubkey::Pubkey;
use crate::state::adapter_info::AdapterInfo;
use crate::state::integrator_chain_config::IntegratorChainConfig;
use crate::state::integrator_config::IntegratorConfig;

verus! {

/// The accounts a disabling reads and writes: the signing admin, the
/// integrator's configuration, its configuration for the chain and the
/// adapter's registration.
#[derive(Debug)]
pub struct DisableAdapter {
    pub admin: Pubkey,
    pub integrator_config: IntegratorConfig,
    pub integrator_chain_config: IntegratorChainConfig,
    pub adapter_info: AdapterInfo,
}

/// The error a disabling is refused with, or `None` when it is accepted.
pub open spec fn disable_error(ctx: DisableAdapter, recv: bool) -> Option<EndpointError> {
    match ctx.integrator_config@.admin_check(ctx.admin) {
        Err(e) => Some(e),
        Ok(_) => if ctx.adapter_info.index >= 128 {
            Some(EndpointError::BitmapIndexOutOfBounds)
        } else if !direction_bitmap(ctx.integrator_chain_config, recv).is_set(
            ctx.adapter_info.index as int,
        ) {
            Some(EndpointError::AdapterAlreadyDisabled)
        } else {
            None
        },
    }
}

/// The chain configuration after an accepted disabling.
pub open spec fn disabled_chain_config(ctx: DisableAdapter, recv: bool) -> IntegratorChainConfig {
    let c = ctx.integrator_chain_config;
    with_direction_bitmap(c, recv, direction_bitmap(c, recv).spec_with(ctx.adapter_info.index, false))
}

/// The outcome contract shared by both directions: a refusal changes nothing;
/// an acceptance changes only the chain configuration, as
/// `disabled_chain_config` says.
pub open spec fn disable_outcome(
    before: DisableAdapter,
    after: DisableAdapter,
    recv: bool,
    r: Result<(), EndpointError>,
) -> bool {
    &&& after.admin == before.admin
    &&& after.integrator_config@ == before.integrator_config@
    &&& after.adapter_info == before.adapter_info
    &&& match r {
        Err(e) => {
            &&& disable_error(before, recv) == Some(e)
            &&& after.integrator_chain_config == before.integrator_chain_config
        },
        Ok(_) => {
            &&& disable_error(before, recv) is None
            &&& after.integrator_chain_config == disabled_chain_config(before, recv)
        },
    }
}

/// When a disabling is accepted, in terms of the accounts: the signer is the
/// admin, no admin transfer is pending, and the adapter is enabled in that
/// direction.
pub open spec fn disable_accepted(ctx: DisableAdapter, recv: bool) -> bool {
    let c = ctx.integrator_chain_config;
    &&& ctx.integrator_config.admin == Some(ctx.admin)
    &&& ctx.integrator_config.pending_admin is None
    &&& (if recv {
        c.recv_adapter_bitmap
    } else {
        c.send_adapter_bitmap
    }).is_set(ctx.adapter_info.index as int)
}

/// What an accepted disabling does to the chain configuration, in terms of
/// positions: the adapter is taken out of the chosen direction, every other
/// position and the other direction are as before, and the chain, bump and
/// integrator are kept.
pub open spec fn disable_clears_bit(ctx: DisableAdapter, after: IntegratorChainConfig, recv: bool) -> bool {
    let before = ctx.integrator_chain_config;
    let idx = ctx.adapter_info.index as int;
    let (chosen_before, other_before) = if recv {
        (before.recv_adapter_bitmap, before.send_adapter_bitmap)
    } else {
        (before.send_adapter_bitmap, before.recv_adapter_bitmap)
    };
    let (chosen_after, other_after) = if recv {
        (after.recv_adapter_bitmap, after.send_adapter_bitmap)
    } else {
        (after.send_adapter_bitmap, after.recv_adapter_bitmap)
    };
    &&& after.chain_id == before.chain_id
    &&& after.bump == before.bump
    &&& after.integrator_program_id == before.integrator_program_id
    &&& !chosen_after.is_set(idx)
    &&& forall|j: int| j != idx ==> #[trigger] chosen_after.is_set(j) == chosen_before.is_set(j)
    &&& other_after == other_before
}

/// The answer to a disabling, in terms of the accounts: accepted exactly when
/// `disable_accepted` holds; a signer that is not the admin is refused with
/// `CallerNotAuthorized`, a pending transfer with `AdminTransferInProgress`,
/// and an adapter that is not enabled (with an index that fits) with
/// `AdapterAlreadyDisabled`.
pub proof fn lemma_disable_answer(ctx: DisableAdapter, recv: bool)
    ensures
        (disable_error(ctx, recv) is None) <==> disable_accepted(ctx, recv),
        ctx.integrator_config.admin != Some(ctx.admin) ==> disable_error(ctx, recv) == Some(
            EndpointError::CallerNotAuthorized,
        ),
        ctx.integrator_config.admin == Some(ctx.admin) && ctx.integrator_config.pending_admin
            is Some ==> disable_error(ctx, recv) == Some(EndpointError::AdminTransferInProgress),
        ctx.integrator_config.admin == Some(ctx.admin) && ctx.integrator_config.pending_admin
            is None && ctx.adapter_info.index < 128 && !disable_accepted(ctx, recv) ==> disable_error(
            ctx,
            recv,
        ) == Some(EndpointError::AdapterAlreadyDisabled),
        disable_accepted(ctx, recv) ==> disable_clears_bit(
            ctx,
            disabled_chain_config(ctx, recv),
            recv,
        ),
{
    if disable_accepted(ctx, recv) {
        direction_bitmap(ctx.integrator_chain_config, recv).lemma_with(
            ctx.adapter_info.index,
            false,
        );
    }
}

impl DisableAdapter {
    /// The admin check.
    pub fn validate(&self) -> (r: Result<(), EndpointError>)
        ensures
            r == self.integrator_config@.admin_check(self.admin),
    {
        self.integrator_config.check_admin(&self.admin)
    }
}

fn disable_adapter_in(ctx: &mut DisableAdapter, recv: bool) -> (r: Result<(), EndpointError>)
    ensures
        disable_outcome(*old(ctx), *final(ctx), recv, r),
        (r is Ok) <==> disable_accepted(*old(ctx), recv),
        r is Ok ==> disable_clears_bit(*old(ctx), final(ctx).integrator_chain_config, recv),
{
    proof {
        lemma_disable_answer(*old(ctx), recv);
    }
    ctx.validate()?;
    let index = ctx.adapter_info.index;
    let mut config = ctx.integrator_chain_config;
    let mut bitmap = if recv {
        config.recv_adapter_bitmap
    } else {
        config.send_adapter_bitmap
    };

    // Check if the adapter is already disabled
    if !bitmap.get(index)? {
        return Err(EndpointError::AdapterAlreadyDisabled);
    }

    // Disable the adapter in the bitmap
    let cleared = bitmap.set(index, false);
    assert(cleared is Ok);
    if recv {
        config.recv_adapter_bitmap = bitmap;
    } else {
        config.send_adapter_bitmap = bitmap;
    }
    ctx.integrator_chain_config = config;
    Ok(())
}

/// Disables a receive adapter
///
/// Refuses an adapter that is not enabled for receiving and takes it out of
/// the receive bitmap. A refused disabling changes nothing.
pub fn disable_recv_adapter(ctx: &mut DisableAdapter, args: &AdapterInfoArgs) -> (r: Result<
    RecvAdapterDisabledForChain,
    EndpointError,
>)
    ensures
        disable_outcome(*old(ctx), *final(ctx), true, unit_result(r)),
        (r is Ok) <==> disable_accepted(*old(ctx), true),
        r is Ok ==> disable_clears_bit(*old(ctx), final(ctx).integrator_chain_config, true),
        r matches Ok(event) ==> (event == (RecvAdapterDisabledForChain {
            integrator: args.integrator_program_id,
            chain: args.chain_id,
            adapter: args.adapter_program_id,
        })),
{
    disable_adapter_in(ctx, true)?;
    Ok(
        RecvAdapterDisabledForChain {
            integrator: args.integrator_program_id,
            chain: args.chain_id,
            adapter: args.adapter_program_id,
        },
    )
}

/// Disables a send adapter
///
/// Refuses an adapter that is not enabled for sending and takes it out of the
/// send bitmap. A refused disabling changes nothing.
pub fn disable_send_adapter(ctx: &mut DisableAdapter, args: &AdapterInfoArgs) -> (r: Result<
    SendAdapterDisabledForChain,
    EndpointError,
>)
    ensures
        disable_outcome(*old(ctx), *final(ctx), false, unit_result(r)),
        (r is Ok) <==> disable_accepted(*old(ctx), false),
        r is Ok ==> disable_clears_bit(*old(ctx), final(ctx).integrator_chain_config, false),
        r matches Ok(event) ==> (event == (SendAdapterDisabledForChain {
            integrator: args.integrator_program_id,
            chain: args.chain_id,
            adapter: args.adapter_program_id,
        })),
{
    disable_adapter_in(ctx, false)?;
    Ok(
        SendAdapterDisabledForChain {
            integrator: args.integrator_program_id,
            chain: args.chain_id,
            adapter: args.adapter_program_id,
        },
    )
}

/// Adding a position that was not set and then removing it gives back the
/// bitmap.
proof fn lemma_with_then_without(b: Bitmap, index: u8)
    requires
        index < 128,
        !b.is_set(index as int),
    ensures
        b.spec_with(index, true).spec_with(index, false) == b,
{
    let on = b.spec_with(index, true);
    b.lemma_with(index, true);
    on.lemma_with(index, false);
    Bitmap::lemma_ext(on.spec_with(index, false), b);
}

/// Enabling an adapter and then disabling it in the same direction gives back
/// the chain configuration that the enabling started from (as initialized),
/// and the disabling is accepted.
pub proof fn lemma_enable_then_disable(
    admin: Pubkey,
    config: IntegratorConfig,
    chain_config: IntegratorChainConfig,
    adapter_info: AdapterInfo,
    args: AdapterInfoArgs,
    bump: u8,
    recv: bool,
)
    requires
        enable_error(
            EnableAdapter {
                admin,
                integrator_config: config,
                integrator_chain_config: chain_config,
                adapter_info,
            },
            args,
            bump,
            recv,
        ) is None,
    ensures
        ({
            let before = EnableAdapter {
                admin,
                integrator_config: config,
                integrator_chain_config: chain_config,
                adapter_info,
            };
            let enabled = DisableAdapter {
                admin,
                integrator_config: config,
                integrator_chain_config: enabled_chain_config(before, args, bump, recv),
                adapter_info,
            };
            &&& disable_error(enabled, recv) is None
            &&& disabled_chain_config(enabled, recv) == initialized_chain_config(
                chain_config,
                args,
                bump,
            )
        }),
{
    let before = EnableAdapter {
        admin,
        integrator_config: config,
        integrator_chain_config: chain_config,
        adapter_info,
    };
    let base = initialized_chain_config(chain_config, args, bump);
    let b = direction_bitmap(base, recv);
    b.lemma_with(adapter_info.index, true);
    lemma_with_then_without(b, adapter_info.index);
}

/// Enabling an adapter that is enabled already is refused: after an accepted
/// enabling, the same enabling answers `AdapterAlreadyEnabled`; and the other
/// direction's bitmap is untouched by it.
pub proof fn lemma_enable_twice(ctx: EnableAdapter, args: AdapterInfoArgs, bump: u8, recv: bool)
    requires
        enable_error(ctx, args, bump, recv) is None,
    ensures
        enable_error(
            EnableAdapter {
                integrator_chain_config: enabled_chain_config(ctx, args, bump, recv),
                ..ctx
            },
            args,
            bump,
            recv,
        ) == Some(EndpointError::AdapterAlreadyEnabled),
        direction_bitmap(enabled_chain_config(ctx, args, bump, recv), !recv) == direction_bitmap(
            initialized_chain_config(ctx.integrator_chain_config, args, bump),
            !recv,
        ),
{
    let base = initialized_chain_config(ctx.integrator_chain_config, args, bump);
    direction_bitmap(base, recv).lemma_with(ctx.adapter_info.index, true);
}

/// Disabling an adapter that is disabled already is refused: after an
/// accepted disabling, the same disabling answers `AdapterAlreadyDisabled`.
pub proof fn lemma_disable_twice(ctx: DisableAdapter, recv: bool)
    requires
        disable_error(ctx, recv) is None,
    ensures
        disable_error(
            DisableAdapter { integrator_chain_config: disabled_chain_config(ctx, recv), ..ctx },
            recv,
        ) == Some(EndpointError::AdapterAlreadyDisabled),
{
    direction_bitmap(ctx.integrator_chain_config, recv).lemma_with(ctx.adapter_info.index, false);
}

} // verus!
