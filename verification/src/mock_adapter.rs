use vstd::prelude::*;

use crate::instructions::attest_message::AttestMessageArgs;
use crate::instructions::pick_up_message::PickUpMessageArgs;
use crate::pubkey::Pubkey;

verus! {

/// The address of the example adapter program.
pub open spec fn spec_id() -> Pubkey {
    Pubkey {
        bytes: [
            0x46, 0x7b, 0x3d, 0xc1, 0xdf, 0xea, 0x9b, 0xff, 0x31, 0x87, 0x0f, 0x24, 0xb3, 0xf7,
            0xba, 0x42, 0x4d, 0x83, 0xab, 0xdc, 0x7c, 0xc9, 0xd3, 0x6b, 0x5e, 0xaa, 0xd4, 0x34,
            0x8d, 0x56, 0xfd, 0x3b,
        ],
    }
}

/// The address of the example adapter program.
pub fn id() -> (r: Pubkey)
    ensures
        r == spec_id(),
{
    Pubkey {
        bytes: [
            0x46, 0x7b, 0x3d, 0xc1, 0xdf, 0xea, 0x9b, 0xff, 0x31, 0x87, 0x0f, 0x24, 0xb3, 0xf7,
            0xba, 0x42, 0x4d, 0x83, 0xab, 0xdc, 0x7c, 0xc9, 0xd3, 0x6b, 0x5e, 0xaa, 0xd4, 0x34,
            0x8d, 0x56, 0xfd, 0x3b,
        ],
    }
}

/// What the example adapter is asked to attest to.
#[derive(Clone, Copy, Debug)]
pub struct InvokeAttestMessageArgs {
    pub src_chain: u16,
    pub src_addr: [u8; 32],
    pub sequence: u64,
    pub dst_chain: u16,
    pub integrator_program_id: Pubkey,
    pub payload_hash: [u8; 32],
    pub message_hash: [u8; 32],
}

/// The arguments the example adapter sends to the endpoint's
/// `pick_up_message`: its own program id and the bump of its signing address.
pub fn invoke_pick_up_message(adapter_pda_bump: u8) -> (r: PickUpMessageArgs)
    ensures
        r == (PickUpMessageArgs { adapter_program_id: spec_id(), adapter_pda_bump }),
{
    PickUpMessageArgs { adapter_program_id: id(), adapter_pda_bump }
}

/// The arguments the example adapter sends to the endpoint's
/// `attest_message`: its own program id, the bump of its signing address, and
/// the message fields it was given (the message hash is not passed on).
pub fn invoke_attest_message(adapter_pda_bump: u8, args: &InvokeAttestMessageArgs) -> (r:
    AttestMessageArgs)
    ensures
        r == (AttestMessageArgs {
            adapter_program_id: spec_id(),
            adapter_pda_bump,
            src_chain: args.src_chain,
            src_addr: args.src_addr,
            sequence: args.sequence,
            dst_chain: args.dst_chain,
            integrator_program_id: args.integrator_program_id,
            payload_hash: args.payload_hash,
        }),
{
    AttestMessageArgs {
        adapter_program_id: id(),
        adapter_pda_bump,
        src_chain: args.src_chain,
        src_addr: args.src_addr,
        sequence: args.sequence,
        dst_chain: args.dst_chain,
        integrator_program_id: args.integrator_program_id,
        payload_hash: args.payload_hash,
    }
}

} // verus!
