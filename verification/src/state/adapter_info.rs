use vstd::prelude::*;

use crate::pda::{bytes_to_vec, derived_from, find_pda3};
use crate::pubkey::Pubkey;

verus! {

/// Represents a registered adapter in the Endpoint.
///
/// Each adapter is associated with a specific integrator and has a unique ID
/// within that integrator's context. It can be used across multiple chains.
#[derive(Clone, Copy, Debug, PartialEq, Eq)]
pub struct AdapterInfo {
    /// Bump seed for PDA derivation
    pub bump: u8,
    /// The program ID of the integrator
    pub integrator_program_id: Pubkey,
    /// Public key of the adapter's address
    pub adapter_program_id: Pubkey,
    /// Index of the adapter with respect to the adapter_info vector in
    /// IntegratorConfig
    pub index: u8,
}

impl AdapterInfo {
    /// Seed prefix for deriving AdapterInfo PDAs: the bytes of "adapter_info"
    pub const SEED_PREFIX: [u8; 12] = [
        0x61, 0x64, 0x61, 0x70, 0x74, 0x65, 0x72, 0x5f, 0x69, 0x6e, 0x66, 0x6f,
    ];

    /// The address and bump of the AdapterInfo account of an adapter of an
    /// integrator: the derivation of the seeds `SEED_PREFIX`, the integrator's
    /// program id and the adapter's program id under this program.
    pub fn pda(integrator_program_id: &Pubkey, adapter_program_id: &Pubkey) -> (r: Option<
        (Pubkey, u8),
    >)
        ensures
            derived_from(
                r,
                seq![Self::SEED_PREFIX@, integrator_program_id.bytes@, adapter_program_id.bytes@],
            ),
    {
        find_pda3(
            bytes_to_vec(&Self::SEED_PREFIX),
            bytes_to_vec(&integrator_program_id.bytes),
            bytes_to_vec(&adapter_program_id.bytes),
        )
    }
}

} // verus!
