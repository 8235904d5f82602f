use vstd::prelude::*;

use crate::bitmap::Bitmap;
use crate::error::EndpointError;
use crate::event::MessageExecuted;
use crate::pubkey::Pubkey;
use crate::state::attestation_info::AttestationInfo;
use crate::universal_address::UniversalAddress;

verus! {

/// Arguments of a message execution by its integrator.
#[derive(Clone, Copy, Debug)]
pub struct ExecMessageArgs {
    pub integrator_program_pda_bump: u8,
    pub src_chain: u16,
    pub src_addr: [u8; 32],
    pub sequence: u64,
    pub dst_chain: u16,
    pub integrator_program_id: Pubkey,
    pub payload_hash: [u8; 32],
}

/// The account an execution writes: the message's attestation record (all
/// zero when the record is new).
#[derive(Clone, Copy, Debug)]
pub struct ExecMessage {
    pub attestation_info: AttestationInfo,
}

/// The error an execution is refused with, or `None` when it is accepted.
pub open spec fn exec_error(ctx: ExecMessage, args: ExecMessageArgs) -> Option<EndpointError> {
    if ctx.attestation_info.executed {
        Some(EndpointError::AlreadyExecuted)
    } else if ctx.attestation_info.src_chain == 0 && (args.src_chain == 0 || args.dst_chain == 0) {
        Some(EndpointError::InvalidChainId)
    } else {
        None
    }
}

/// The attestation record after an accepted execution: a record made from the
/// arguments when the account was fresh, the stored one otherwise, marked as
/// executed.
pub open spec fn executed_record(
    ctx: ExecMessage,
    args: ExecMessageArgs,
    bump: u8,
    after: AttestationInfo,
) -> bool {
    let before = ctx.attestation_info;
    if before.src_chain == 0 {
        &&& after.bump == bump
        &&& after.src_chain == args.src_chain
        &&& after.src_addr == args.src_addr
        &&& after.sequence == args.sequence
        &&& after.dst_chain == args.dst_chain
        &&& after.dst_addr == args.integrator_program_id.bytes
        &&& after.payload_hash == args.payload_hash
        &&& after.hash_matches()
        &&& after.executed
        &&& after.num_attested == 0
        &&& after.attested_adapters == Bitmap::empty()
    } else {
        after == AttestationInfo { executed: true, ..before }
    }
}

/// What an accepted execution does to the record, in terms of its fields: it
/// is marked executed; a record that existed keeps its message, hash and
/// attestations; a fresh one carries the message of the arguments, its hash,
/// and no attestation.
pub open spec fn execution_keeps_record(ctx: ExecMessage, args: ExecMessageArgs, after: AttestationInfo) -> bool {
    let before = ctx.attestation_info;
    &&& after.executed
    &&& before.src_chain != 0 ==> {
        &&& after.message_hash == before.message_hash
        &&& after.src_chain == before.src_chain
        &&& after.src_addr == before.src_addr
        &&& after.sequence == before.sequence
        &&& after.dst_chain == before.dst_chain
        &&& after.dst_addr == before.dst_addr
        &&& after.payload_hash == before.payload_hash
        &&& after.attested_adapters == before.attested_adapters
        &&& after.num_attested == before.num_attested
    }
    &&& before.src_chain == 0 ==> {
        &&& after.src_chain == args.src_chain
        &&& after.src_addr == args.src_addr
        &&& after.sequence == args.sequence
        &&& after.dst_chain == args.dst_chain
        &&& after.dst_addr == args.integrator_program_id.bytes
        &&& after.payload_hash == args.payload_hash
        &&& after.hash_matches()
        &&& after.num_attested == 0
        &&& forall|j: int| !#[trigger] after.attested_adapters.is_set(j)
    }
}

/// The answer to an execution, in terms of the record and arguments: a record
/// that has been executed is refused with `AlreadyExecuted`; an existing record
/// that has not is accepted, whatever its attestations; a fresh record is
/// accepted exactly when both chain ids are nonzero.
pub proof fn lemma_exec_answer(ctx: ExecMessage, args: ExecMessageArgs)
    ensures
        ctx.attestation_info.executed ==> exec_error(ctx, args) == Some(
            EndpointError::AlreadyExecuted,
        ),
        !ctx.attestation_info.executed && ctx.attestation_info.src_chain != 0 ==> exec_error(
            ctx,
            args,
        ) is None,
        !ctx.attestation_info.executed && ctx.attestation_info.src_chain == 0 ==> ((exec_error(
            ctx,
            args,
        ) is None) <==> (args.src_chain != 0 && args.dst_chain != 0)),
{
}

/// An accepted execution marks the record executed and keeps (or, for a fresh
/// record, makes) its message and attestations.
pub proof fn lemma_exec_keeps_record(ctx: ExecMessage, args: ExecMessageArgs, bump: u8, after: AttestationInfo)
    requires
        exec_error(ctx, args) is None,
        executed_record(ctx, args, bump, after),
    ensures
        execution_keeps_record(ctx, args, after),
{
    Bitmap::lemma_empty();
}

/// Executes a message in the endpoint program
///
/// Marks a message as executed: refuses a message that has been executed
/// already, initializes the attestation record if it is new, and sets the
/// replay flag. A refused execution changes nothing.
pub fn exec_message(ctx: &mut ExecMessage, args: &ExecMessageArgs, attestation_info_bump: u8) -> (r:
    Result<MessageExecuted, EndpointError>)
    ensures
        match r {
            Err(e) => {
                &&& exec_error(*old(ctx), *args) == Some(e)
                &&& *final(ctx) == *old(ctx)
            },
            Ok(event) => {
                &&& exec_error(*old(ctx), *args) is None
                &&& executed_record(
                    *old(ctx),
                    *args,
                    attestation_info_bump,
                    final(ctx).attestation_info,
                )
                &&& event == MessageExecuted {
                    message_hash: final(ctx).attestation_info.message_hash,
                    src_chain: args.src_chain,
                    src_addr: args.src_addr,
                    sequence: args.sequence,
                    dst_chain: args.dst_chain,
                    dst_addr: args.integrator_program_id.bytes,
                    payload_hash: args.payload_hash,
                }
            },
        },
        old(ctx).attestation_info.executed ==> r == Err::<MessageExecuted, EndpointError>(
            EndpointError::AlreadyExecuted,
        ),
        !old(ctx).attestation_info.executed && old(ctx).attestation_info.src_chain != 0 ==> r is Ok,
        !old(ctx).attestation_info.executed && old(ctx).attestation_info.src_chain == 0 ==> (r is Ok
            <==> (args.src_chain != 0 && args.dst_chain != 0)),
        r is Ok ==> execution_keeps_record(*old(ctx), *args, final(ctx).attestation_info),
{
    proof {
        lemma_exec_answer(*old(ctx), *args);
    }
    // Check if the message has already been executed
    if ctx.attestation_info.executed {
        return Err(EndpointError::AlreadyExecuted);
    }

    // If the attestation_info is newly created, initialize it
    let mut info = ctx.attestation_info;
    if info.src_chain == 0 {
        info = AttestationInfo::new(
            attestation_info_bump,
            args.src_chain,
            args.src_addr,
            args.sequence,
            args.dst_chain,
            args.integrator_program_id.to_bytes(),
            args.payload_hash,
        )?;
    }

    // Mark the message as executed
    info.executed = true;
    ctx.attestation_info = info;
    proof {
        lemma_exec_keeps_record(*old(ctx), *args, attestation_info_bump, info);
    }

    Ok(MessageExecuted {
        message_hash: info.message_hash,
        src_chain: args.src_chain,
        src_addr: UniversalAddress::from_bytes(args.src_addr).to_bytes(),
        sequence: args.sequence,
        dst_chain: args.dst_chain,
        dst_addr: UniversalAddress::from_pubkey(&args.integrator_program_id).to_bytes(),
        payload_hash: args.payload_hash,
    })
}

/// An accepted execution keeps the stored message hash equal to the hash of
/// the stored message fields, and leaves the attestations as they were.
pub proof fn lemma_exec_keeps_hash(ctx: ExecMessage, args: ExecMessageArgs, bump: u8, after: AttestationInfo)
    requires
        exec_error(ctx, args) is None,
        executed_record(ctx, args, bump, after),
        ctx.attestation_info.src_chain != 0 ==> ctx.attestation_info.hash_matches(),
    ensures
        after.hash_matches(),
        ctx.attestation_info.src_chain != 0 ==> after.attested_adapters
            == ctx.attestation_info.attested_adapters && after.num_attested
            == ctx.attestation_info.num_attested,
{
}

/// An accepted execution keeps the record's invariant and leaves it
/// initialized.
pub proof fn lemma_exec_keeps_wf(ctx: ExecMessage, args: ExecMessageArgs, bump: u8, after: AttestationInfo)
    requires
        ctx.attestation_info.wf(),
        exec_error(ctx, args) is None,
        executed_record(ctx, args, bump, after),
    ensures
        after.wf(),
        after.src_chain != 0,
{
    Bitmap::lemma_count_empty_below(128);
}

} // verus!
