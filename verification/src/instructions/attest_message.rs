use vstd::prelude::*;

use crate::bitmap::Bitmap;
use crate::error::EndpointError;
use crate::event::MessageAttestedTo;
use crate::program::CHAIN_ID;
use crate::pubkey::Pubkey;
use crate::state::adapter_info::AdapterInfo;
use crate::state::attestation_info::AttestationInfo;
use crate::state::integrator_chain_config::IntegratorChainConfig;
use crate::universal_address::UniversalAddress;

verus! {

/// Arguments of an attestation by an adapter.
#[derive(Clone, Copy, Debug)]
pub struct AttestMessageArgs {
    pub adapter_program_id: Pubkey,
    pub adapter_pda_bump: u8,
    pub src_chain: u16,
    pub src_addr: [u8; 32],
    pub sequence: u64,
    pub dst_chain: u16,
    pub integrator_program_id: Pubkey,
    pub payload_hash: [u8; 32],
}

/// The accounts an attestation reads and writes: the attesting adapter's
/// registration, the integrator's configuration for the source chain, and the
/// message's attestation record (all zero when the record is new).
#[derive(Clone, Copy, Debug)]
pub struct AttestMessage {
    pub adapter_info: AdapterInfo,
    pub integrator_chain_config: IntegratorChainConfig,
    pub attestation_info: AttestationInfo,
}

/// `n + 1`, held at 255.
pub open spec fn saturating_inc(n: u8) -> u8 {
    if n == 255 {
        255
    } else {
        (n + 1) as u8
    }
}

/// The error an attestation is refused with, or `None` when it is accepted.
pub open spec fn attest_error(ctx: AttestMessage, args: AttestMessageArgs) -> Option<EndpointError> {
    let index = ctx.adapter_info.index as int;
    if args.dst_chain != CHAIN_ID {
        Some(EndpointError::InvalidDestinationChain)
    } else if !ctx.integrator_chain_config.recv_adapter_bitmap.is_set(index) {
        Some(EndpointError::AdapterNotEnabled)
    } else if ctx.attestation_info.src_chain == 0 && args.src_chain == 0 {
        Some(EndpointError::InvalidChainId)
    } else if ctx.attestation_info.src_chain != 0
        && ctx.attestation_info.attested_adapters.is_set(index) {
        Some(EndpointError::DuplicateMessageAttestation)
    } else {
        None
    }
}

/// The attestation record after an accepted attestation: a record made from
/// the arguments when the account was fresh, the stored one otherwise, with
/// the adapter marked as attested and the count raised by one (held at 255).
pub open spec fn attested_record(
    ctx: AttestMessage,
    args: AttestMessageArgs,
    bump: u8,
    after: AttestationInfo,
) -> bool {
    let index = ctx.adapter_info.index;
    let before = ctx.attestation_info;
    if before.src_chain == 0 {
        &&& after.bump == bump
        &&& after.src_chain == args.src_chain
        &&& after.src_addr == args.src_addr
        &&& after.sequence == args.sequence
        &&& after.dst_chain == args.dst_chain
        &&& after.dst_addr == args.integrator_program_id.bytes
        &&& after.payload_hash == args.payload_hash
        &&& after.hash_matches()
        &&& !after.executed
        &&& after.num_attested == 1
        &&& after.attested_adapters == Bitmap::empty().spec_with(index, true)
    } else {
        after == AttestationInfo {
            attested_adapters: before.attested_adapters.spec_with(index, true),
            num_attested: saturating_inc(before.num_attested),
            ..before
        }
    }
}

/// An adapter attests to a message at most once: once an attestation has been
/// accepted, the same attestation is refused as a duplicate.
pub proof fn lemma_attest_once(ctx: AttestMessage, args: AttestMessageArgs, bump: u8, after: AttestationInfo)
    requires
        attest_error(ctx, args) is None,
        attested_record(ctx, args, bump, after),
    ensures
        attest_error(AttestMessage { attestation_info: after, ..ctx }, args) == Some(
            EndpointError::DuplicateMessageAttestation,
        ),
{
    let index = ctx.adapter_info.index;
    assert(index < 128);
    if ctx.attestation_info.src_chain == 0 {
        Bitmap::empty().lemma_with(index, true);
    } else {
        ctx.attestation_info.attested_adapters.lemma_with(index, true);
    }
}

/// The count of attestations equals the number of adapters marked as having
/// attested: it holds of a fresh record after its first attestation, and every
/// accepted attestation keeps it.
pub proof fn lemma_attest_count(ctx: AttestMessage, args: AttestMessageArgs, bump: u8, after: AttestationInfo)
    requires
        attest_error(ctx, args) is None,
        attested_record(ctx, args, bump, after),
        ctx.attestation_info.src_chain != 0 ==> ctx.attestation_info.num_attested
            == ctx.attestation_info.attested_adapters.count(),
    ensures
        after.num_attested == after.attested_adapters.count(),
{
    let index = ctx.adapter_info.index;
    assert(index < 128);
    if ctx.attestation_info.src_chain == 0 {
        Bitmap::lemma_empty();
        Bitmap::lemma_count_empty_below(128);
        Bitmap::empty().lemma_count_with(index);
    } else {
        let bm = ctx.attestation_info.attested_adapters;
        bm.lemma_count_with(index);
        bm.spec_with(index, true).lemma_count_below_bound(128);
    }
}

/// An accepted attestation keeps the stored message hash equal to the hash
/// of the stored message fields.
pub proof fn lemma_attest_keeps_hash(ctx: AttestMessage, args: AttestMessageArgs, bump: u8, after: AttestationInfo)
    requires
        attest_error(ctx, args) is None,
        attested_record(ctx, args, bump, after),
        ctx.attestation_info.src_chain != 0 ==> ctx.attestation_info.hash_matches(),
    ensures
        after.hash_matches(),
{
}

/// An accepted attestation keeps the record's invariant and leaves it
/// initialized.
pub proof fn lemma_attest_keeps_wf(ctx: AttestMessage, args: AttestMessageArgs, bump: u8, after: AttestationInfo)
    requires
        ctx.attestation_info.wf(),
        attest_error(ctx, args) is None,
        attested_record(ctx, args, bump, after),
    ensures
        after.wf(),
        after.src_chain != 0,
{
    lemma_attest_count(ctx, args, bump, after);
    lemma_attest_keeps_hash(ctx, args, bump, after);
}

/// When an attestation is accepted, in terms of the accounts alone: the
/// message is for this chain, the adapter is enabled for receiving from the
/// source chain (whatever the send bitmap holds), a fresh record gets a
/// nonzero source chain, and an existing record has no attestation of this
/// adapter yet.
pub open spec fn attest_accepted(ctx: AttestMessage, args: AttestMessageArgs) -> bool {
    let index = ctx.adapter_info.index as int;
    &&& args.dst_chain == CHAIN_ID
    &&& ctx.integrator_chain_config.recv_adapter_bitmap.is_set(index)
    &&& ctx.attestation_info.src_chain == 0 ==> args.src_chain != 0
    &&& ctx.attestation_info.src_chain != 0 ==> !ctx.attestation_info.attested_adapters.is_set(
        index,
    )
}

/// What an accepted attestation does to the attestation marks, in terms of
/// positions: the attesting adapter is marked, every other adapter keeps its
/// mark (a fresh record has none), the number of marks goes up by one, and the
/// count follows it (held at 255).
pub open spec fn attest_marks_adapter(ctx: AttestMessage, after: AttestationInfo) -> bool {
    let index = ctx.adapter_info.index as int;
    let before = ctx.attestation_info;
    &&& after.attested_adapters.is_set(index)
    &&& forall|j: int|
        j != index ==> (#[trigger] after.attested_adapters.is_set(j) <==> (before.src_chain != 0
            && before.attested_adapters.is_set(j)))
    &&& before.src_chain != 0 ==> after.attested_adapters.count()
        == before.attested_adapters.count() + 1
    &&& before.src_chain == 0 ==> after.attested_adapters.count() == 1 && after.num_attested == 1
    &&& before.src_chain != 0 && before.num_attested < 255 ==> after.num_attested
        == before.num_attested + 1
    &&& before.src_chain != 0 && before.num_attested == 255 ==> after.num_attested == 255
}

/// The answer to an attestation, in terms of the accounts and arguments: it is
/// accepted exactly when `attest_accepted` holds, a message for another chain
/// is refused with `InvalidDestinationChain`, and an adapter that is not
/// enabled for receiving from the source chain is refused with
/// `AdapterNotEnabled`.
pub proof fn lemma_attest_answer(ctx: AttestMessage, args: AttestMessageArgs)
    ensures
        (attest_error(ctx, args) is None) <==> attest_accepted(ctx, args),
        args.dst_chain != CHAIN_ID ==> attest_error(ctx, args) == Some(
            EndpointError::InvalidDestinationChain,
        ),
        args.dst_chain == CHAIN_ID && !ctx.integrator_chain_config.recv_adapter_bitmap.is_set(
            ctx.adapter_info.index as int,
        ) ==> attest_error(ctx, args) == Some(EndpointError::AdapterNotEnabled),
        args.dst_chain == CHAIN_ID && ctx.integrator_chain_config.recv_adapter_bitmap.is_set(
            ctx.adapter_info.index as int,
        ) && ctx.attestation_info.src_chain != 0 && ctx.attestation_info.attested_adapters.is_set(
            ctx.adapter_info.index as int,
        ) ==> attest_error(ctx, args) == Some(EndpointError::DuplicateMessageAttestation),
{
}

/// An accepted attestation marks the attesting adapter and no other, and
/// raises the number of marks and the count by one.
pub proof fn lemma_attest_marks(ctx: AttestMessage, args: AttestMessageArgs, bump: u8, after: AttestationInfo)
    requires
        attest_error(ctx, args) is None,
        attested_record(ctx, args, bump, after),
    ensures
        attest_marks_adapter(ctx, after),
{
    let index = ctx.adapter_info.index;
    assert(index < 128);
    if ctx.attestation_info.src_chain == 0 {
        Bitmap::lemma_empty();
        Bitmap::lemma_count_empty_below(128);
        Bitmap::empty().lemma_with(index, true);
        Bitmap::empty().lemma_count_with(index);
    } else {
        let bm = ctx.attestation_info.attested_adapters;
        bm.lemma_with(index, true);
        bm.lemma_count_with(index);
    }
}

/// Instruction handler for attest_message
///
/// Lets an enabled receive adapter attest to a message once: checks that the
/// destination is this chain and that the adapter is enabled for receiving
/// from the source chain, initializes the attestation record if it is new,
/// refuses a second attestation by the same adapter, marks the adapter as
/// having attested and counts the attestation. A refused attestation changes
/// nothing.
pub fn attest_message(ctx: &mut AttestMessage, args: &AttestMessageArgs, attestation_info_bump: u8)
    -> (r: Result<MessageAttestedTo, EndpointError>)
    ensures
        match r {
            Err(e) => {
                &&& attest_error(*old(ctx), *args) == Some(e)
                &&& *final(ctx) == *old(ctx)
            },
            Ok(event) => {
                &&& attest_error(*old(ctx), *args) is None
                &&& final(ctx).adapter_info == old(ctx).adapter_info
                &&& final(ctx).integrator_chain_config == old(ctx).integrator_chain_config
                &&& attested_record(
                    *old(ctx),
                    *args,
                    attestation_info_bump,
                    final(ctx).attestation_info,
                )
                &&& event == MessageAttestedTo {
                    message_hash: final(ctx).attestation_info.message_hash,
                    src_chain: args.src_chain,
                    src_addr: args.src_addr,
                    sequence: args.sequence,
                    dst_chain: args.dst_chain,
                    dst_addr: args.integrator_program_id.bytes,
                    payload_hash: args.payload_hash,
                    attested_bitmap: final(ctx).attestation_info.attested_adapters.spec_value(),
                    attesting_adapter: args.adapter_program_id.bytes,
                }
            },
        },
        args.dst_chain != CHAIN_ID ==> r == Err::<MessageAttestedTo, EndpointError>(
            EndpointError::InvalidDestinationChain,
        ),
        args.dst_chain == CHAIN_ID && !old(ctx).integrator_chain_config.recv_adapter_bitmap.is_set(
            old(ctx).adapter_info.index as int,
        ) ==> r == Err::<MessageAttestedTo, EndpointError>(EndpointError::AdapterNotEnabled),
        r is Ok ==> old(ctx).integrator_chain_config.recv_adapter_bitmap.is_set(
            old(ctx).adapter_info.index as int,
        ),
        attest_accepted(*old(ctx), *args) ==> r is Ok,
        r is Ok ==> attest_marks_adapter(*old(ctx), final(ctx).attestation_info),
{
    proof {
        lemma_attest_answer(*old(ctx), *args);
    }
    // Validate that the destination chain is this program's chain
    if args.dst_chain != CHAIN_ID {
        return Err(EndpointError::InvalidDestinationChain);
    }
    let index = ctx.adapter_info.index;

    // Check if the Adapter is an enabled receive Adapter for the Integrator and source chain
    let enabled = match ctx.integrator_chain_config.recv_adapter_bitmap.get(index) {
        Ok(b) => b,
        Err(_) => false,
    };
    if !enabled {
        return Err(EndpointError::AdapterNotEnabled);
    }

    // If the attestation_info is newly created, initialize it
    let mut info = ctx.attestation_info;
    if info.src_chain == 0 {
        info = AttestationInfo::new(
            attestation_info_bump,
            args.src_chain,
            args.src_addr,
            args.sequence,
            args.dst_chain,
            args.integrator_program_id.to_bytes(),
            args.payload_hash,
        )?;
        proof {
            Bitmap::lemma_empty();
        }
    }

    // Check if the Adapter has already attested
    let attested = match info.attested_adapters.get(index) {
        Ok(b) => b,
        Err(_) => false,
    };
    if attested {
        return Err(EndpointError::DuplicateMessageAttestation);
    }

    // Mark the Adapter as having attested to the message
    let marked = info.attested_adapters.set(index, true);
    assert(marked is Ok);

    // Increment the number of attestations (saturates at 255)
    info.num_attested = info.num_attested.saturating_add(1);
    ctx.attestation_info = info;
    proof {
        lemma_attest_marks(*old(ctx), *args, attestation_info_bump, info);
    }

    Ok(MessageAttestedTo {
        message_hash: info.message_hash,
        src_chain: args.src_chain,
        src_addr: UniversalAddress::from_bytes(args.src_addr).to_bytes(),
        sequence: args.sequence,
        dst_chain: args.dst_chain,
        dst_addr: UniversalAddress::from_pubkey(&args.integrator_program_id).to_bytes(),
        payload_hash: args.payload_hash,
        attested_bitmap: info.attested_adapters.as_value(),
        attesting_adapter: UniversalAddress::from_pubkey(&args.adapter_program_id).to_bytes(),
    })
}

} // verus!
