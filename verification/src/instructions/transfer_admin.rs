use vstd::prelude::*;

use crate::error::EndpointError;
use crate::pubkey::Pubkey;
use crate::state::integrator_config::{option_key_is, IntegratorConfig, IntegratorConfigView};

verus! {

/// Arguments of an admin transfer.
#[derive(Clone, Copy, Debug)]
pub struct TransferAdminArgs {
    /// The new_admin to be assigned
    pub new_admin: Pubkey,
    /// The integrator_program for the integrator_config
    pub integrator_program_id: Pubkey,
}

/// The accounts an admin transfer reads and writes: the signing admin and
/// the integrator's configuration.
#[derive(Debug)]
pub struct TransferAdmin {
    pub admin: Pubkey,
    pub integrator_config: IntegratorConfig,
}

/// The accounts a claim reads and writes: the signer and the integrator's
/// configuration.
#[derive(Debug)]
pub struct ClaimAdmin {
    pub new_admin: Pubkey,
    pub integrator_config: IntegratorConfig,
}

/// The error a claim is refused with, or `None` when it is accepted: there
/// must be an admin and the signer must be the pending admin or the admin
/// (else `CallerNotAuthorized`), and a transfer must be pending (else
/// `NoAdminTransferInProgress`).
pub open spec fn claim_error(config: IntegratorConfigView, signer: Pubkey) -> Option<EndpointError> {
    if config.admin is None {
        Some(EndpointError::CallerNotAuthorized)
    } else if config.pending_admin != Some(signer) && config.admin != Some(signer) {
        Some(EndpointError::CallerNotAuthorized)
    } else if config.pending_admin is None {
        Some(EndpointError::NoAdminTransferInProgress)
    } else {
        None
    }
}

impl TransferAdmin {
    /// The admin check.
    pub fn validate(&self) -> (r: Result<(), EndpointError>)
        ensures
            r == self.integrator_config@.admin_check(self.admin),
    {
        self.integrator_config.check_admin(&self.admin)
    }
}

/// Initiates the transfer of admin rights for an IntegratorConfig account.
///
/// Sets the pending admin, which must later claim the rights with
/// `claim_admin`. Refused, changing nothing, unless the signer is the admin
/// and no transfer is pending.
pub fn transfer_admin(ctx: &mut TransferAdmin, args: &TransferAdminArgs) -> (r: Result<
    (),
    EndpointError,
>)
    ensures
        final(ctx).admin == old(ctx).admin,
        r == old(ctx).integrator_config@.admin_check(old(ctx).admin),
        (r is Ok) <==> (old(ctx).integrator_config.admin == Some(old(ctx).admin)
            && old(ctx).integrator_config.pending_admin is None),
        r is Err ==> final(ctx).integrator_config@ == old(ctx).integrator_config@,
        r is Ok ==> final(ctx).integrator_config@ == (IntegratorConfigView {
            pending_admin: Some(args.new_admin),
            ..old(ctx).integrator_config@
        }),
{
    ctx.validate()?;
    ctx.integrator_config.pending_admin = Some(args.new_admin);
    Ok(())
}

/// Claims the admin rights for an IntegratorConfig account.
///
/// The pending admin completes the two-step transfer, or the current admin
/// cancels it; either way the signer becomes the admin and nothing is pending
/// any more. A refused claim changes nothing.
pub fn claim_admin(ctx: &mut ClaimAdmin) -> (r: Result<(), EndpointError>)
    ensures
        final(ctx).new_admin == old(ctx).new_admin,
        (r is Ok) <==> ({
            let c = old(ctx).integrator_config;
            let s = old(ctx).new_admin;
            &&& c.admin is Some
            &&& c.pending_admin is Some
            &&& (c.pending_admin == Some(s) || c.admin == Some(s))
        }),
        old(ctx).integrator_config.pending_admin != Some(old(ctx).new_admin)
            && old(ctx).integrator_config.admin != Some(old(ctx).new_admin) ==> r == Err::<
            (),
            EndpointError,
        >(EndpointError::CallerNotAuthorized),
        old(ctx).integrator_config.admin == Some(old(ctx).new_admin)
            && old(ctx).integrator_config.pending_admin is None ==> r == Err::<(), EndpointError>(
            EndpointError::NoAdminTransferInProgress,
        ),
        r is Ok ==> final(ctx).integrator_config.admin == Some(old(ctx).new_admin)
            && final(ctx).integrator_config.pending_admin is None,
        match r {
            Err(e) => {
                &&& claim_error(old(ctx).integrator_config@, old(ctx).new_admin) == Some(e)
                &&& final(ctx).integrator_config@ == old(ctx).integrator_config@
            },
            Ok(_) => {
                &&& claim_error(old(ctx).integrator_config@, old(ctx).new_admin) is None
                &&& final(ctx).integrator_config@ == (IntegratorConfigView {
                    admin: Some(old(ctx).new_admin),
                    pending_admin: None,
                    ..old(ctx).integrator_config@
                })
            },
        },
{
    if ctx.integrator_config.admin.is_none() {
        return Err(EndpointError::CallerNotAuthorized);
    }
    if !option_key_is(&ctx.integrator_config.pending_admin, &ctx.new_admin) && !option_key_is(
        &ctx.integrator_config.admin,
        &ctx.new_admin,
    ) {
        return Err(EndpointError::CallerNotAuthorized);
    }
    if ctx.integrator_config.pending_admin.is_none() {
        return Err(EndpointError::NoAdminTransferInProgress);
    }
    ctx.integrator_config.admin = Some(ctx.new_admin);
    ctx.integrator_config.pending_admin = None;
    Ok(())
}

/// The two-step admin transfer: after the admin hands over to `new_admin`,
/// the admin-gated instructions refuse the admin with
/// `AdminTransferInProgress`; a claim by `new_admin` makes it the admin, a
/// claim by the old admin cancels the transfer, and anyone else's claim is
/// refused with `CallerNotAuthorized`.
pub proof fn lemma_transfer_then_claim(
    config: IntegratorConfigView,
    admin: Pubkey,
    new_admin: Pubkey,
    other: Pubkey,
)
    requires
        config.admin_check(admin) is Ok,
        other != admin,
        other != new_admin,
    ensures
        ({
            let pending = IntegratorConfigView { pending_admin: Some(new_admin), ..config };
            &&& pending.admin_check(admin) == Err::<(), EndpointError>(
                EndpointError::AdminTransferInProgress,
            )
            &&& claim_error(pending, new_admin) is None
            &&& claim_error(pending, admin) is None
            &&& claim_error(pending, other) == Some(EndpointError::CallerNotAuthorized)
            &&& (IntegratorConfigView {
                admin: Some(new_admin),
                pending_admin: None,
                ..pending
            }).admin_check(new_admin) is Ok
            &&& (IntegratorConfigView { admin: Some(admin), pending_admin: None, ..pending })
                == config
        }),
{
}

} // verus!
