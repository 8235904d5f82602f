use vstd::prelude::*;

use crate::error::EndpointError;
use crate::event::MessageReceived;
use crate::instructions::exec_message::{exec_error, executed_record, ExecMessage, ExecMessageArgs};
use crate::pubkey::Pubkey;
use crate::state::attestation_info::AttestationInfo;
use crate::state::integrator_chain_config::IntegratorChainConfig;
use crate::universal_address::UniversalAddress;

verus! {

/// Arguments of a message reception by its integrator.
#[derive(Clone, Copy, Debug)]
pub struct RecvMessageArgs {
    pub integrator_program_pda_bump: u8,
    pub src_chain: u16,
    pub src_addr: [u8; 32],
    pub sequence: u64,
    pub dst_chain: u16,
    pub integrator_program_id: Pubkey,
    pub payload_hash: [u8; 32],
}

/// The accounts a reception reads and writes: the integrator's configuration
/// for the source chain and the message's (existing) attestation record.
#[derive(Clone, Copy, Debug)]
pub struct RecvMessage {
    pub integrator_chain_config: IntegratorChainConfig,
    pub attestation_info: AttestationInfo,
}

/// The error a reception is refused with, or `None` when it is accepted.
pub open spec fn recv_error(ctx: RecvMessage) -> Option<EndpointError> {
    if ctx.attestation_info.executed {
        Some(EndpointError::AlreadyExecuted)
    } else {
        None
    }
}

/// The answer to a reception, in terms of the record: refused with
/// `AlreadyExecuted` exactly when the message has been executed, and accepted
/// otherwise, whichever adapters attested and whichever are enabled now (the
/// event reports both for the integrator to judge).
pub proof fn lemma_recv_answer(ctx: RecvMessage)
    ensures
        (recv_error(ctx) is None) <==> !ctx.attestation_info.executed,
        ctx.attestation_info.executed ==> recv_error(ctx) == Some(EndpointError::AlreadyExecuted),
{
}

/// Receives a message that has been attested to in the endpoint program
///
/// Refuses a message that has been executed already, marks it as executed,
/// and reports the receive adapters enabled for the source chain together with
/// those that attested. A refused reception changes nothing.
pub fn recv_message(ctx: &mut RecvMessage, _args: &RecvMessageArgs) -> (r: Result<
    MessageReceived,
    EndpointError,
>)
    ensures
        match r {
            Err(e) => {
                &&& recv_error(*old(ctx)) == Some(e)
                &&& *final(ctx) == *old(ctx)
            },
            Ok(event) => {
                let info = old(ctx).attestation_info;
                &&& recv_error(*old(ctx)) is None
                &&& *final(ctx) == RecvMessage {
                    attestation_info: AttestationInfo { executed: true, ..info },
                    ..*old(ctx)
                }
                &&& event == MessageReceived {
                    message_hash: info.message_hash,
                    src_chain: info.src_chain,
                    src_addr: info.src_addr,
                    sequence: info.sequence,
                    dst_chain: info.dst_chain,
                    dst_addr: info.dst_addr,
                    payload_hash: info.payload_hash,
                    enabled_bitmap: old(ctx).integrator_chain_config.recv_adapter_bitmap.spec_value(),
                    attested_bitmap: info.attested_adapters.spec_value(),
                }
            },
        },
        old(ctx).attestation_info.executed ==> r == Err::<MessageReceived, EndpointError>(
            EndpointError::AlreadyExecuted,
        ),
        !old(ctx).attestation_info.executed ==> r is Ok,
        r is Ok ==> final(ctx).attestation_info.executed && final(ctx).attestation_info.attested_adapters
            == old(ctx).attestation_info.attested_adapters && final(ctx).integrator_chain_config.recv_adapter_bitmap
            == old(ctx).integrator_chain_config.recv_adapter_bitmap,
{
    proof {
        lemma_recv_answer(*old(ctx));
    }
    // Check if the message has already been executed
    if ctx.attestation_info.executed {
        return Err(EndpointError::AlreadyExecuted);
    }

    // Mark the message as executed
    ctx.attestation_info.executed = true;
    let info = ctx.attestation_info;

    Ok(MessageReceived {
        message_hash: info.message_hash,
        src_chain: info.src_chain,
        src_addr: UniversalAddress::from_bytes(info.src_addr).to_bytes(),
        sequence: info.sequence,
        dst_chain: info.dst_chain,
        dst_addr: UniversalAddress::from_bytes(info.dst_addr).to_bytes(),
        payload_hash: info.payload_hash,
        enabled_bitmap: ctx.integrator_chain_config.recv_adapter_bitmap.as_value(),
        attested_bitmap: info.attested_adapters.as_value(),
    })
}

/// Replay protection: once a message has been executed, by `exec_message` or by
/// `recv_message`, every later execution or reception of it is refused with
/// `AlreadyExecuted`.
pub proof fn lemma_no_replay_after_exec(
    ctx: ExecMessage,
    args: ExecMessageArgs,
    bump: u8,
    after: AttestationInfo,
    later_exec: ExecMessageArgs,
    chain_config: IntegratorChainConfig,
)
    requires
        exec_error(ctx, args) is None,
        executed_record(ctx, args, bump, after),
    ensures
        exec_error(ExecMessage { attestation_info: after }, later_exec) == Some(
            EndpointError::AlreadyExecuted,
        ),
        recv_error(RecvMessage { integrator_chain_config: chain_config, attestation_info: after })
            == Some(EndpointError::AlreadyExecuted),
{
}

/// Replay protection for receptions: after an accepted reception, the message
/// can be neither received nor executed again.
pub proof fn lemma_no_replay_after_recv(
    ctx: RecvMessage,
    later_exec: ExecMessageArgs,
    chain_config: IntegratorChainConfig,
)
    requires
        recv_error(ctx) is None,
    ensures
        ({
            let after = AttestationInfo { executed: true, ..ctx.attestation_info };
            &&& exec_error(ExecMessage { attestation_info: after }, later_exec) == Some(
                EndpointError::AlreadyExecuted,
            )
            &&& recv_error(
                RecvMessage { integrator_chain_config: chain_config, attestation_info: after },
            ) == Some(EndpointError::AlreadyExecuted)
        }),
{
}

/// An accepted reception keeps the record's invariant.
pub proof fn lemma_recv_keeps_wf(ctx: RecvMessage)
    requires
        ctx.attestation_info.wf(),
        recv_error(ctx) is None,
    ensures
        (AttestationInfo { executed: true, ..ctx.attestation_info }).wf(),
{
}

} // verus!
