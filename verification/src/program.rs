use vstd::prelude::*;

use crate::pubkey::Pubkey;

verus! {

/// The Wormhole chain id of the chain this endpoint runs on.
pub const CHAIN_ID: u16 = 1;

/// The 32 bytes that name this program on chain.
pub open spec fn spec_program_id() -> Pubkey {
    Pubkey {
        bytes: [
            0xd5, 0x3c, 0x61, 0xb7, 0x36, 0x03, 0xf9, 0x6f, 0x9b, 0xd8, 0x47, 0xe5, 0xa4, 0x94,
            0x63, 0x40, 0x94, 0x2f, 0xd1, 0xa5, 0x1d, 0xba, 0xd5, 0xef, 0xcf, 0xae, 0xc6, 0x3c,
            0x02, 0xfc, 0x38, 0x40,
        ],
    }
}

/// The address of this program.
pub fn id() -> (r: Pubkey)
    ensures
        r == spec_program_id(),
{
    Pubkey {
        bytes: [
            0xd5, 0x3c, 0x61, 0xb7, 0x36, 0x03, 0xf9, 0x6f, 0x9b, 0xd8, 0x47, 0xe5, 0xa4, 0x94,
            0x63, 0x40, 0x94, 0x2f, 0xd1, 0xa5, 0x1d, 0xba, 0xd5, 0xef, 0xcf, 0xae, 0xc6, 0x3c,
            0x02, 0xfc, 0x38, 0x40,
        ],
    }
}


} // verus!
