use vstd::prelude::*;

use crate::error::EndpointError;
use crate::pda::{bytes_to_vec, derived_from, find_pda2};
use crate::pubkey::Pubkey;

verus! {

/// Manages the configuration for a specific integrator.
#[derive(Debug)]
pub struct IntegratorConfig {
    /// Bump seed for PDA derivation
    pub bump: u8,
    /// Program ID associated with this integrator
    pub integrator_program_id: Pubkey,
    /// Admin of the IntegratorConfig account
    pub admin: Option<Pubkey>,
    /// Pending admin of the IntegratorConfig account
    /// If this exists, any other admin related functions will not be authorised
    pub pending_admin: Option<Pubkey>,
    /// Vector of registered adapter addresses
    pub adapter_infos: Vec<Pubkey>,
}

/// The contents of an integrator configuration as values.
#[verifier::ext_equal]
pub struct IntegratorConfigView {
    pub bump: u8,
    pub integrator_program_id: Pubkey,
    pub admin: Option<Pubkey>,
    pub pending_admin: Option<Pubkey>,
    pub adapter_infos: Seq<Pubkey>,
}

impl View for IntegratorConfig {
    type V = IntegratorConfigView;

    open spec fn view(&self) -> IntegratorConfigView {
        IntegratorConfigView {
            bump: self.bump,
            integrator_program_id: self.integrator_program_id,
            admin: self.admin,
            pending_admin: self.pending_admin,
            adapter_infos: self.adapter_infos@,
        }
    }
}

/// Compares two optional keys.
pub fn option_key_is(a: &Option<Pubkey>, key: &Pubkey) -> (r: bool)
    ensures
        r == (*a == Some(*key)),
{
    match a {
        Some(k) => k.same_as(key),
        None => false,
    }
}

impl IntegratorConfigView {
    /// What `check_admin` answers: the signer must be the admin, and no
    /// admin transfer may be pending.
    pub open spec fn admin_check(self, signer: Pubkey) -> Result<(), EndpointError> {
        if self.admin != Some(signer) {
            Err(EndpointError::CallerNotAuthorized)
        } else if self.pending_admin is Some {
            Err(EndpointError::AdminTransferInProgress)
        } else {
            Ok(())
        }
    }

    /// Every registered adapter index fits the adapter bitmaps.
    pub open spec fn wf(self) -> bool {
        self.adapter_infos.len() <= IntegratorConfig::MAX_ADAPTERS
    }
}

impl IntegratorConfig {
    /// Seed prefix for deriving IntegratorConfig PDAs: the bytes of
    /// "integrator_config"
    pub const SEED_PREFIX: [u8; 17] = [
        0x69, 0x6e, 0x74, 0x65, 0x67, 0x72, 0x61, 0x74, 0x6f, 0x72, 0x5f, 0x63, 0x6f, 0x6e, 0x66,
        0x69, 0x67,
    ];

    /// Maximum number of adapters allowed
    pub const MAX_ADAPTERS: usize = 128;

    /// The address and bump of an integrator's configuration: the derivation
    /// of `SEED_PREFIX` and the integrator's program id.
    pub fn pda(integrator_program_id: &Pubkey) -> (r: Option<(Pubkey, u8)>)
        ensures
            derived_from(r, seq![Self::SEED_PREFIX@, integrator_program_id.bytes@]),
    {
        find_pda2(bytes_to_vec(&Self::SEED_PREFIX), bytes_to_vec(&integrator_program_id.bytes))
    }

    /// Succeeds when `signer` is the admin and no admin transfer is pending.
    pub fn check_admin(&self, signer: &Pubkey) -> (r: Result<(), EndpointError>)
        ensures
            r == self@.admin_check(*signer),
            (r is Ok) <==> (self.admin == Some(*signer) && self.pending_admin is None),
            self.admin != Some(*signer) ==> r == Err::<(), EndpointError>(
                EndpointError::CallerNotAuthorized,
            ),
            self.admin == Some(*signer) && self.pending_admin is Some ==> r == Err::<
                (),
                EndpointError,
            >(EndpointError::AdminTransferInProgress),
    {
        if !option_key_is(&self.admin, signer) {
            return Err(EndpointError::CallerNotAuthorized);
        }
        if self.pending_admin.is_some() {
            return Err(EndpointError::AdminTransferInProgress);
        }
        Ok(())
    }

    /// Appends an adapter to the registry; fails, changing nothing, when
    /// `MAX_ADAPTERS` adapters are registered already.
    pub fn add_adapter(&mut self, adapter: Pubkey) -> (r: Result<(), EndpointError>)
        ensures
            old(self)@.adapter_infos.len() < Self::MAX_ADAPTERS ==> {
                &&& r == Ok::<(), EndpointError>(())
                &&& final(self)@ == IntegratorConfigView {
                    adapter_infos: old(self)@.adapter_infos.push(adapter),
                    ..old(self)@
                }
            },
            old(self)@.adapter_infos.len() >= Self::MAX_ADAPTERS ==> {
                &&& r == Err::<(), EndpointError>(EndpointError::MaxAdaptersReached)
                &&& final(self)@ == old(self)@
            },
    {
        if self.adapter_infos.len() >= Self::MAX_ADAPTERS {
            return Err(EndpointError::MaxAdaptersReached);
        }
        self.adapter_infos.push(adapter);
        Ok(())
    }
}

} // verus!
