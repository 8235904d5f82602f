use vstd::prelude::*;

use crate::error::EndpointError;
use crate::event::AdminUpdated;
use crate::pubkey::Pubkey;
use crate::state::integrator_config::{IntegratorConfig, IntegratorConfigView};

verus! {

/// Arguments of a direct admin update.
#[derive(Clone, Copy, Debug)]
pub struct UpdateAdminArgs {
    /// The new_admin to be assigned
    pub new_admin: Pubkey,
    /// The integrator_program for the integrator_config
    pub integrator_program_id: Pubkey,
}

/// The accounts an admin update reads and writes: the signing admin and the
/// integrator's configuration.
#[derive(Debug)]
pub struct UpdateAdmin {
    pub admin: Pubkey,
    pub integrator_config: IntegratorConfig,
}

impl UpdateAdmin {
    /// The admin check.
    pub fn validate(&self) -> (r: Result<(), EndpointError>)
        ensures
            r == self.integrator_config@.admin_check(self.admin),
    {
        self.integrator_config.check_admin(&self.admin)
    }
}

/// Updates the admin of an IntegratorConfig account.
///
/// Refused, changing nothing, unless the signer is the admin and no transfer
/// is pending; otherwise the new admin takes over at once, and the event
/// names the admin before the update and the new one.
pub fn update_admin(ctx: &mut UpdateAdmin, args: &UpdateAdminArgs) -> (r: Result<
    AdminUpdated,
    EndpointError,
>)
    ensures
        final(ctx).admin == old(ctx).admin,
        (r is Ok) <==> (old(ctx).integrator_config.admin == Some(old(ctx).admin)
            && old(ctx).integrator_config.pending_admin is None),
        match r {
            Err(e) => {
                &&& old(ctx).integrator_config@.admin_check(old(ctx).admin) == Err::<
                    (),
                    EndpointError,
                >(e)
                &&& final(ctx).integrator_config@ == old(ctx).integrator_config@
            },
            Ok(event) => {
                &&& old(ctx).integrator_config@.admin_check(old(ctx).admin) is Ok
                &&& final(ctx).integrator_config@ == (IntegratorConfigView {
                    admin: Some(args.new_admin),
                    ..old(ctx).integrator_config@
                })
                &&& event == (AdminUpdated {
                    integrator: args.integrator_program_id,
                    new_admin: args.new_admin,
                    old_admin: old(ctx).admin,
                })
                &&& old(ctx).integrator_config@.admin == Some(event.old_admin)
            },
        },
{
    ctx.validate()?;
    // The admin check passed, so the admin before the update is the signer.
    let old_admin = ctx.admin;
    ctx.integrator_config.admin = Some(args.new_admin);
    Ok(
        AdminUpdated {
            integrator: args.integrator_program_id,
            new_admin: args.new_admin,
            old_admin,
        },
    )
}

} // verus!
