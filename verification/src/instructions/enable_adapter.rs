use vstd::prelude::*;

use crate::bitmap::Bitmap;
use crate::error::EndpointError;
use crate::event::{RecvAdapterEnabledForChain, SendAdapterEnabledForChain};
use crate::instructions::common::AdapterInfoArgs;
use crate::pubkey::Pubkey;
use crate::state::adapter_info::AdapterInfo;
use crate::state::integrator_chain_config::IntegratorChainConfig;
use crate::state::integrator_config::{IntegratorConfig, IntegratorConfigView};

verus! {

/// The accounts an enabling reads and writes: the signing admin, the
/// integrator's configuration, its configuration for the chain (all zero when
/// new) and the adapter's registration.
#[derive(Debug)]
pub struct EnableAdapter {
    pub admin: Pubkey,
    pub integrator_config: IntegratorConfig,
    pub integrator_chain_config: IntegratorChainConfig,
    pub adapter_info: AdapterInfo,
}

/// What `EnableAdapter::validate` answers: the admin check, then a nonzero
/// chain id.
pub open spec fn enable_validation(
    config: IntegratorConfigView,
    admin: Pubkey,
    args: AdapterInfoArgs,
) -> Result<(), EndpointError> {
    match config.admin_check(admin) {
        Err(e) => Err(e),
        Ok(_) => if args.chain_id == 0 {
            Err(EndpointError::InvalidChainId)
        } else {
            Ok(())
        },
    }
}

/// The chain configuration as the instruction finds it: made from the
/// arguments with no adapter enabled when the account is fresh (chain id 0),
/// the stored one otherwise.
pub open spec fn initialized_chain_config(
    chain_config: IntegratorChainConfig,
    args: AdapterInfoArgs,
    bump: u8,
) -> IntegratorChainConfig {
    if chain_config.chain_id == 0 {
        IntegratorChainConfig {
            chain_id: args.chain_id,
            bump,
            integrator_program_id: args.integrator_program_id,
            send_adapter_bitmap: Bitmap::empty(),
            recv_adapter_bitmap: Bitmap::empty(),
        }
    } else {
        chain_config
    }
}

/// The bitmap an enabling or disabling works on: the receive bitmap when
/// `recv`, the send bitmap otherwise.
pub open spec fn direction_bitmap(chain_config: IntegratorChainConfig, recv: bool) -> Bitmap {
    if recv {
        chain_config.recv_adapter_bitmap
    } else {
        chain_config.send_adapter_bitmap
    }
}

/// `chain_config` with the bitmap of one direction replaced.
pub open spec fn with_direction_bitmap(
    chain_config: IntegratorChainConfig,
    recv: bool,
    bitmap: Bitmap,
) -> IntegratorChainConfig {
    if recv {
        IntegratorChainConfig { recv_adapter_bitmap: bitmap, ..chain_config }
    } else {
        IntegratorChainConfig { send_adapter_bitmap: bitmap, ..chain_config }
    }
}

/// The error an enabling is refused with, or `None` when it is accepted.
pub open spec fn enable_error(
    ctx: EnableAdapter,
    args: AdapterInfoArgs,
    bump: u8,
    recv: bool,
) -> Option<EndpointError> {
    let base = initialized_chain_config(ctx.integrator_chain_config, args, bump);
    match enable_validation(ctx.integrator_config@, ctx.admin, args) {
        Err(e) => Some(e),
        Ok(_) => if ctx.adapter_info.index >= 128 {
            Some(EndpointError::BitmapIndexOutOfBounds)
        } else if direction_bitmap(base, recv).is_set(ctx.adapter_info.index as int) {
            Some(EndpointError::AdapterAlreadyEnabled)
        } else {
            None
        },
    }
}

/// The chain configuration after an accepted enabling.
pub open spec fn enabled_chain_config(
    ctx: EnableAdapter,
    args: AdapterInfoArgs,
    bump: u8,
    recv: bool,
) -> IntegratorChainConfig {
    let base = initialized_chain_config(ctx.integrator_chain_config, args, bump);
    with_direction_bitmap(
        base,
        recv,
        direction_bitmap(base, recv).spec_with(ctx.adapter_info.index, true),
    )
}

/// The outcome contract shared by both directions: a refusal changes nothing;
/// an acceptance changes only the chain configuration, as
/// `enabled_chain_config` says.
pub open spec fn enable_outcome(
    before: EnableAdapter,
    after: EnableAdapter,
    args: AdapterInfoArgs,
    bump: u8,
    recv: bool,
    r: Result<(), EndpointError>,
) -> bool {
    &&& after.admin == before.admin
    &&& after.integrator_config@ == before.integrator_config@
    &&& after.adapter_info == before.adapter_info
    &&& match r {
        Err(e) => {
            &&& enable_error(before, args, bump, recv) == Some(e)
            &&& after.integrator_chain_config == before.integrator_chain_config
        },
        Ok(_) => {
            &&& enable_error(before, args, bump, recv) is None
            &&& after.integrator_chain_config == enabled_chain_config(before, args, bump, recv)
        },
    }
}

/// The result with its success value dropped.
pub open spec fn unit_result<T>(r: Result<T, EndpointError>) -> Result<(), EndpointError> {
    match r {
        Ok(_) => Ok(()),
        Err(e) => Err(e),
    }
}

/// When an enabling is accepted, in terms of the accounts and arguments: the
/// signer is the admin, no admin transfer is pending, the chain id is nonzero,
/// the adapter's index fits the bitmaps, and (unless the chain configuration is
/// fresh) the adapter is not enabled in that direction yet.
pub open spec fn enable_accepted(ctx: EnableAdapter, args: AdapterInfoArgs, recv: bool) -> bool {
    let c = ctx.integrator_chain_config;
    let idx = ctx.adapter_info.index as int;
    &&& ctx.integrator_config.admin == Some(ctx.admin)
    &&& ctx.integrator_config.pending_admin is None
    &&& args.chain_id != 0
    &&& ctx.adapter_info.index < 128
    &&& c.chain_id != 0 ==> !(if recv {
        c.recv_adapter_bitmap
    } else {
        c.send_adapter_bitmap
    }).is_set(idx)
}

/// What an accepted enabling does to the chain configuration, in terms of
/// positions: a fresh configuration takes the chain, bump and integrator of
/// the call; the adapter is set in the chosen direction, every other position
/// of it is as before, and the other direction is as before (nothing is set in
/// a fresh configuration).
pub open spec fn enable_sets_bit(
    ctx: EnableAdapter,
    after: IntegratorChainConfig,
    args: AdapterInfoArgs,
    bump: u8,
    recv: bool,
) -> bool {
    let before = ctx.integrator_chain_config;
    let idx = ctx.adapter_info.index as int;
    let fresh = before.chain_id == 0;
    let (chosen_before, other_before) = if recv {
        (before.recv_adapter_bitmap, before.send_adapter_bitmap)
    } else {
        (before.send_adapter_bitmap, before.recv_adapter_bitmap)
    };
    let (chosen_after, other_after) = if recv {
        (after.recv_adapter_bitmap, after.send_adapter_bitmap)
    } else {
        (after.send_adapter_bitmap, after.recv_adapter_bitmap)
    };
    &&& fresh ==> after.chain_id == args.chain_id && after.bump == bump
        && after.integrator_program_id == args.integrator_program_id
    &&& !fresh ==> after.chain_id == before.chain_id && after.bump == before.bump
        && after.integrator_program_id == before.integrator_program_id
    &&& chosen_after.is_set(idx)
    &&& forall|j: int|
        j != idx ==> (#[trigger] chosen_after.is_set(j) <==> (!fresh && chosen_before.is_set(j)))
    &&& forall|j: int| #[trigger] other_after.is_set(j) <==> (!fresh && other_before.is_set(j))
}

/// The answer to an enabling, in terms of the accounts and arguments: it is
/// accepted exactly when `enable_accepted` holds; a signer that is not the
/// admin is refused with `CallerNotAuthorized`, a pending transfer with
/// `AdminTransferInProgress`, chain 0 with `InvalidChainId`, and an adapter
/// enabled already with `AdapterAlreadyEnabled`.
pub proof fn lemma_enable_answer(ctx: EnableAdapter, args: AdapterInfoArgs, bump: u8, recv: bool)
    ensures
        (enable_error(ctx, args, bump, recv) is None) <==> enable_accepted(ctx, args, recv),
        ctx.integrator_config.admin != Some(ctx.admin) ==> enable_error(ctx, args, bump, recv)
            == Some(EndpointError::CallerNotAuthorized),
        ctx.integrator_config.admin == Some(ctx.admin) && ctx.integrator_config.pending_admin
            is Some ==> enable_error(ctx, args, bump, recv) == Some(
            EndpointError::AdminTransferInProgress,
        ),
        ctx.integrator_config.admin == Some(ctx.admin) && ctx.integrator_config.pending_admin
            is None && args.chain_id == 0 ==> enable_error(ctx, args, bump, recv) == Some(
            EndpointError::InvalidChainId,
        ),
        enable_accepted(ctx, args, recv) ==> enable_sets_bit(
            ctx,
            enabled_chain_config(ctx, args, bump, recv),
            args,
            bump,
            recv,
        ),
{
    Bitmap::lemma_empty();
    let base = initialized_chain_config(ctx.integrator_chain_config, args, bump);
    if enable_accepted(ctx, args, recv) {
        direction_bitmap(base, recv).lemma_with(ctx.adapter_info.index, true);
    }
}

impl EnableAdapter {
    /// The admin check, then a nonzero chain id.
    pub fn validate(&self, args: &AdapterInfoArgs) -> (r: Result<(), EndpointError>)
        ensures
            r == enable_validation(self.integrator_config@, self.admin, *args),
    {
        self.integrator_config.check_admin(&self.admin)?;

        // Ensure chain_id is not zero
        if args.chain_id == 0 {
            return Err(EndpointError::InvalidChainId);
        }
        Ok(())
    }
}

fn enable_adapter_in(ctx: &mut EnableAdapter, args: &AdapterInfoArgs, bump: u8, recv: bool) -> (r:
    Result<(), EndpointError>)
    ensures
        enable_outcome(*old(ctx), *final(ctx), *args, bump, recv, r),
        (r is Ok) <==> enable_accepted(*old(ctx), *args, recv),
        r is Ok ==> enable_sets_bit(*old(ctx), final(ctx).integrator_chain_config, *args, bump, recv),
{
    proof {
        lemma_enable_answer(*old(ctx), *args, bump, recv);
    }
    ctx.validate(args)?;
    let index = ctx.adapter_info.index;

    // If chain_id is 0, this is initial setup
    let mut config = ctx.integrator_chain_config;
    if config.chain_id == 0 {
        config = IntegratorChainConfig {
            chain_id: args.chain_id,
            bump,
            integrator_program_id: args.integrator_program_id,
            send_adapter_bitmap: Bitmap::new(),
            recv_adapter_bitmap: Bitmap::new(),
        };
    }
    let mut bitmap = if recv {
        config.recv_adapter_bitmap
    } else {
        config.send_adapter_bitmap
    };
    if bitmap.get(index)? {
        return Err(EndpointError::AdapterAlreadyEnabled);
    }
    let marked = bitmap.set(index, true);
    assert(marked is Ok);
    if recv {
        config.recv_adapter_bitmap = bitmap;
    } else {
        config.send_adapter_bitmap = bitmap;
    }
    ctx.integrator_chain_config = config;
    Ok(())
}

/// Enables a receive adapter for the integrator chain configuration
///
/// Initializes the chain configuration if it is new, refuses an adapter that
/// is enabled already, and enables the adapter in the receive bitmap. A
/// refused enabling changes nothing.
pub fn enable_recv_adapter(ctx: &mut EnableAdapter, args: &AdapterInfoArgs, bump: u8) -> (r:
    Result<RecvAdapterEnabledForChain, EndpointError>)
    ensures
        enable_outcome(
            *old(ctx),
            *final(ctx),
            *args,
            bump,
            true,
            unit_result(r),
        ),
        (r is Ok) <==> enable_accepted(*old(ctx), *args, true),
        r is Ok ==> enable_sets_bit(*old(ctx), final(ctx).integrator_chain_config, *args, bump, true),
        r matches Ok(event) ==> (event == (RecvAdapterEnabledForChain {
            integrator: args.integrator_program_id,
            chain: args.chain_id,
            adapter: args.adapter_program_id,
        })),
{
    enable_adapter_in(ctx, args, bump, true)?;
    Ok(
        RecvAdapterEnabledForChain {
            integrator: args.integrator_program_id,
            chain: args.chain_id,
            adapter: args.adapter_program_id,
        },
    )
}

/// Enables a send adapter for the integrator chain configuration
///
/// Initializes the chain configuration if it is new, refuses an adapter that
/// is enabled already, and enables the adapter in the send bitmap. A refused
/// enabling changes nothing.
pub fn enable_send_adapter(ctx: &mut EnableAdapter, args: &AdapterInfoArgs, bump: u8) -> (r:
    Result<SendAdapterEnabledForChain, EndpointError>)
    ensures
        enable_outcome(
            *old(ctx),
            *final(ctx),
            *args,
            bump,
            false,
            unit_result(r),
        ),
        (r is Ok) <==> enable_accepted(*old(ctx), *args, false),
        r is Ok ==> enable_sets_bit(*old(ctx), final(ctx).integrator_chain_config, *args, bump, false),
        r matches Ok(event) ==> (event == (SendAdapterEnabledForChain {
            integrator: args.integrator_program_id,
            chain: args.chain_id,
            adapter: args.adapter_program_id,
        })),
{
    enable_adapter_in(ctx, args, bump, false)?;
    Ok(
        SendAdapterEnabledForChain {
            integrator: args.integrator_program_id,
            chain: args.chain_id,
            adapter: args.adapter_program_id,
        },
    )
}

} // verus!
