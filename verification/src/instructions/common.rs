use vstd::prelude::*;

use crate::pubkey::Pubkey;

verus! {

/// Common arguments for adapter info operations
#[derive(Clone, Copy, Debug)]
pub struct AdapterInfoArgs {
    /// The ID of the chain
    pub chain_id: u16,
    /// The Pubkey of the adapter
    pub adapter_program_id: Pubkey,
    /// The Pubkey of the integrator program
    pub integrator_program_id: Pubkey,
}

} // verus!
