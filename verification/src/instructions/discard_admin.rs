use vstd::prelude::*;

use crate::error::EndpointError;
use crate::event::AdminDiscarded;
use crate::instructions::transfer_admin::claim_error;
use crate::pubkey::Pubkey;
use crate::state::integrator_config::{IntegratorConfig, IntegratorConfigView};

verus! {

/// The accounts an admin discard reads and writes: the signing admin and the
/// integrator's configuration.
#[derive(Debug)]
pub struct DiscardAdmin {
    pub admin: Pubkey,
    pub integrator_config: IntegratorConfig,
}

impl DiscardAdmin {
    /// The admin check.
    pub fn validate(&self) -> (r: Result<(), EndpointError>)
        ensures
            r == self.integrator_config@.admin_check(self.admin),
    {
        self.integrator_config.check_admin(&self.admin)
    }
}

/// Discards the admin for an integrator configuration
///
/// Removes the admin, leaving the configuration without one. Refused,
/// changing nothing, unless the signer is the admin and no transfer is
/// pending.
pub fn discard_admin(ctx: &mut DiscardAdmin) -> (r: Result<AdminDiscarded, EndpointError>)
    ensures
        final(ctx).admin == old(ctx).admin,
        (r is Ok) <==> (old(ctx).integrator_config.admin == Some(old(ctx).admin)
            && old(ctx).integrator_config.pending_admin is None),
        match r {
            Err(e) => {
                &&& old(ctx).integrator_config@.admin_check(old(ctx).admin) == Err::<
                    (),
                    EndpointError,
                >(e)
                &&& final(ctx).integrator_config@ == old(ctx).integrator_config@
            },
            Ok(event) => {
                &&& old(ctx).integrator_config@.admin_check(old(ctx).admin) is Ok
                &&& final(ctx).integrator_config@ == (IntegratorConfigView {
                    admin: None,
                    ..old(ctx).integrator_config@
                })
                &&& event == (AdminDiscarded {
                    integrator: old(ctx).integrator_config.integrator_program_id,
                })
            },
        },
{
    ctx.validate()?;
    ctx.integrator_config.admin = None;
    Ok(AdminDiscarded { integrator: ctx.integrator_config.integrator_program_id })
}

/// A configuration whose admin has been discarded is immutable: every
/// admin-gated instruction and every claim refuses every signer with
/// `CallerNotAuthorized`, so no instruction can give it an admin again.
pub proof fn lemma_discarded_is_immutable(config: IntegratorConfigView, signer: Pubkey)
    requires
        config.admin is None,
    ensures
        config.admin_check(signer) == Err::<(), EndpointError>(EndpointError::CallerNotAuthorized),
        claim_error(config, signer) == Some(EndpointError::CallerNotAuthorized),
{
}

} // verus!
