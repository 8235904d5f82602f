use vstd::prelude::*;

use crate::bitmap::Bitmap;
use crate::encoding::{be_bytes_u16, push_be_u16};
use crate::pda::{bytes_to_vec, derived_from, find_pda3};
use crate::pubkey::Pubkey;

verus! {

/// The adapters that an integrator has enabled for one chain, for sending to
/// it and for receiving from it, as bitmaps over adapter indices.
#[derive(Clone, Copy, Debug)]
pub struct IntegratorChainConfig {
    /// Bump seed for PDA derivation
    pub bump: u8,
    /// The chain this configuration is for; 0 while the account is fresh
    pub chain_id: u16,
    /// The program ID of the integrator
    pub integrator_program_id: Pubkey,
    /// Adapters enabled for sending to the chain
    pub send_adapter_bitmap: Bitmap,
    /// Adapters enabled for receiving from the chain
    pub recv_adapter_bitmap: Bitmap,
}

impl IntegratorChainConfig {
    /// Seed prefix for deriving IntegratorChainConfig PDAs: the bytes of
    /// "integrator_chain_config"
    pub const SEED_PREFIX: [u8; 23] = [
        0x69, 0x6e, 0x74, 0x65, 0x67, 0x72, 0x61, 0x74, 0x6f, 0x72, 0x5f, 0x63, 0x68, 0x61, 0x69,
        0x6e, 0x5f, 0x63, 0x6f, 0x6e, 0x66, 0x69, 0x67,
    ];

    /// The address and bump of an integrator's configuration for a chain: the
    /// derivation of `SEED_PREFIX`, the integrator's program id and the
    /// big-endian bytes of the chain id.
    pub fn pda(integrator_program_id: &Pubkey, chain_id: u16) -> (r: Option<(Pubkey, u8)>)
        ensures
            derived_from(
                r,
                seq![Self::SEED_PREFIX@, integrator_program_id.bytes@, be_bytes_u16(chain_id)],
            ),
    {
        let mut chain: Vec<u8> = Vec::new();
        push_be_u16(&mut chain, chain_id);
        assert(chain@ =~= be_bytes_u16(chain_id));
        find_pda3(
            bytes_to_vec(&Self::SEED_PREFIX),
            bytes_to_vec(&integrator_program_id.bytes),
            chain,
        )
    }
}

} // verus!
