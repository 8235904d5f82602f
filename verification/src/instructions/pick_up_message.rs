use vstd::prelude::*;

use crate::bitmap::Bitmap;
use crate::error::EndpointError;
use crate::event::MessagePickedUp;
use crate::pubkey::Pubkey;
use crate::state::adapter_info::AdapterInfo;
use crate::state::outbox_message::OutboxMessage;
use crate::universal_address::UniversalAddress;

verus! {

/// Arguments of a pick-up by an adapter.
#[derive(Clone, Copy, Debug)]
pub struct PickUpMessageArgs {
    pub adapter_program_id: Pubkey,
    pub adapter_pda_bump: u8,
}

/// The accounts a pick-up reads and writes: the outbox message and the
/// picking adapter's registration.
#[derive(Clone, Copy, Debug)]
pub struct PickUpMessage {
    pub outbox_message: OutboxMessage,
    pub adapter_info: AdapterInfo,
}

/// The error a pick-up is refused with, or `None` when it is accepted.
pub open spec fn pick_up_error(ctx: PickUpMessage) -> Option<EndpointError> {
    if !ctx.outbox_message.outstanding_adapters.is_set(ctx.adapter_info.index as int) {
        Some(EndpointError::MessageAlreadyPickedUp)
    } else {
        None
    }
}

/// What an accepted pick-up does to the outstanding set, in terms of
/// positions: the picking adapter is taken off, every other adapter stays as it
/// was, and the number outstanding goes down by one.
pub open spec fn pick_up_takes_off(ctx: PickUpMessage, after: OutboxMessage) -> bool {
    let index = ctx.adapter_info.index as int;
    let before = ctx.outbox_message.outstanding_adapters;
    &&& !after.outstanding_adapters.is_set(index)
    &&& forall|j: int|
        j != index ==> #[trigger] after.outstanding_adapters.is_set(j) == before.is_set(j)
    &&& after.outstanding_adapters.count() + 1 == before.count()
}

/// The answer to a pick-up, in terms of the accounts: it is accepted exactly
/// when the adapter is outstanding for the message, whatever the other
/// adapters' state, and refused with `MessageAlreadyPickedUp` otherwise.
pub proof fn lemma_pick_up_answer(ctx: PickUpMessage)
    ensures
        (pick_up_error(ctx) is None) <==> ctx.outbox_message.outstanding_adapters.is_set(
            ctx.adapter_info.index as int,
        ),
        !ctx.outbox_message.outstanding_adapters.is_set(ctx.adapter_info.index as int)
            ==> pick_up_error(ctx) == Some(EndpointError::MessageAlreadyPickedUp),
{
}

/// An accepted pick-up takes the picking adapter, and only it, off the
/// outstanding set.
pub proof fn lemma_pick_up_takes_off(ctx: PickUpMessage)
    requires
        ctx.outbox_message.outstanding_adapters.is_set(ctx.adapter_info.index as int),
    ensures
        pick_up_takes_off(
            ctx,
            OutboxMessage {
                outstanding_adapters: ctx.outbox_message.outstanding_adapters.spec_with(
                    ctx.adapter_info.index,
                    false,
                ),
                ..ctx.outbox_message
            },
        ),
{
    let b = ctx.outbox_message.outstanding_adapters;
    let index = ctx.adapter_info.index;
    assert(index < 128);
    b.lemma_with(index, false);
    b.lemma_count_without(index);
}

/// Instruction for picking up a message from the outbox.
///
/// Refuses an adapter that is not outstanding for the message, takes the
/// adapter off the outstanding set, and reports whether the outbox account is
/// to be closed: it is exactly when no adapter is outstanding any more. A
/// refused pick-up changes nothing.
pub fn pick_up_message(ctx: &mut PickUpMessage, args: &PickUpMessageArgs) -> (r: Result<
    (MessagePickedUp, bool),
    EndpointError,
>)
    ensures
        match r {
            Err(e) => {
                &&& pick_up_error(*old(ctx)) == Some(e)
                &&& *final(ctx) == *old(ctx)
            },
            Ok((event, close)) => {
                let msg = old(ctx).outbox_message;
                let remaining = msg.outstanding_adapters.spec_with(old(ctx).adapter_info.index, false);
                &&& pick_up_error(*old(ctx)) is None
                &&& *final(ctx) == PickUpMessage {
                    outbox_message: OutboxMessage { outstanding_adapters: remaining, ..msg },
                    ..*old(ctx)
                }
                &&& event == MessagePickedUp {
                    src_addr: msg.src_addr,
                    sequence: msg.sequence,
                    dst_chain: msg.dst_chain,
                    dst_addr: msg.dst_addr,
                    payload_hash: msg.payload_hash,
                    adapter: args.adapter_program_id,
                    remaining_adapters: remaining.spec_value(),
                }
                &&& close == (remaining.spec_value() == 0)
                &&& close == (forall|i: int| !remaining.is_set(i))
            },
        },
        old(ctx).outbox_message.outstanding_adapters.is_set(old(ctx).adapter_info.index as int)
            ==> r is Ok,
        !old(ctx).outbox_message.outstanding_adapters.is_set(old(ctx).adapter_info.index as int)
            ==> r == Err::<(MessagePickedUp, bool), EndpointError>(
            EndpointError::MessageAlreadyPickedUp,
        ),
        r is Ok ==> pick_up_takes_off(*old(ctx), final(ctx).outbox_message),
{
    proof {
        lemma_pick_up_answer(*old(ctx));
        if old(ctx).outbox_message.outstanding_adapters.is_set(old(ctx).adapter_info.index as int) {
            lemma_pick_up_takes_off(*old(ctx));
        }
    }
    // Get the index of the adapter
    let adapter_index = ctx.adapter_info.index;

    // Check if the message is available for pick up by this adapter
    let outstanding = match ctx.outbox_message.outstanding_adapters.get(adapter_index) {
        Ok(b) => b,
        Err(_) => false,
    };
    if !outstanding {
        return Err(EndpointError::MessageAlreadyPickedUp);
    }

    // Mark the message as picked up by this adapter
    let cleared = ctx.outbox_message.outstanding_adapters.set(adapter_index, false);
    assert(cleared is Ok);

    let msg = ctx.outbox_message;
    let remaining = msg.outstanding_adapters.as_value();
    let event = MessagePickedUp {
        src_addr: UniversalAddress::from_bytes(msg.src_addr).to_bytes(),
        sequence: msg.sequence,
        dst_chain: msg.dst_chain,
        dst_addr: UniversalAddress::from_bytes(msg.dst_addr).to_bytes(),
        payload_hash: msg.payload_hash,
        adapter: args.adapter_program_id,
        remaining_adapters: remaining,
    };

    // Close `outbox_message` account if all adapters have picked up the message
    Ok((event, remaining == 0))
}

/// An adapter picks up a message at most once: after an accepted pick-up the
/// same adapter is refused with `MessageAlreadyPickedUp`.
pub proof fn lemma_pick_up_once(ctx: PickUpMessage)
    requires
        pick_up_error(ctx) is None,
    ensures
        pick_up_error(
            PickUpMessage {
                outbox_message: OutboxMessage {
                    outstanding_adapters: ctx.outbox_message.outstanding_adapters.spec_with(
                        ctx.adapter_info.index,
                        false,
                    ),
                    ..ctx.outbox_message
                },
                ..ctx
            },
        ) == Some(EndpointError::MessageAlreadyPickedUp),
{
    ctx.outbox_message.outstanding_adapters.lemma_with(ctx.adapter_info.index, false);
}

/// The outstanding adapters of a message after the adapters at `picks` have
/// picked it up, in that order.
pub open spec fn outstanding_after(outstanding: Bitmap, picks: Seq<u8>) -> Bitmap
    decreases picks.len(),
{
    if picks.len() == 0 {
        outstanding
    } else {
        outstanding_after(outstanding, picks.drop_last()).spec_with(picks.last(), false)
    }
}

/// Every pick-up in `picks` is accepted: each adapter is outstanding when its
/// turn comes.
pub open spec fn all_accepted(outstanding: Bitmap, picks: Seq<u8>) -> bool {
    forall|k: int|
        0 <= k < picks.len() ==> #[trigger] outstanding_after(outstanding, picks.take(k)).is_set(
            picks[k] as int,
        )
}

proof fn lemma_after_subset(outstanding: Bitmap, picks: Seq<u8>, j: int)
    requires
        forall|k: int| 0 <= k < picks.len() ==> picks[k] < 128,
    ensures
        outstanding_after(outstanding, picks).is_set(j) ==> outstanding.is_set(j),
    decreases picks.len(),
{
    if picks.len() > 0 {
        let p = picks.drop_last();
        lemma_after_subset(outstanding, p, j);
        outstanding_after(outstanding, p).lemma_with(picks.last(), false);
    }
}

/// A run of accepted pick-ups of one message: every adapter that picks it up
/// was outstanding when the message was sent, each accepted pick-up takes
/// exactly one adapter off, so there are at most as many accepted pick-ups as
/// adapters outstanding at the start, and the message is left with none
/// outstanding (and is closed) exactly when there were that many.
pub proof fn lemma_pick_up_run(outstanding: Bitmap, picks: Seq<u8>)
    requires
        all_accepted(outstanding, picks),
    ensures
        forall|k: int| 0 <= k < picks.len() ==> outstanding.is_set(#[trigger] picks[k] as int),
        picks.len() + outstanding_after(outstanding, picks).count() == outstanding.count(),
        picks.len() <= outstanding.count(),
        (outstanding_after(outstanding, picks).count() == 0) <==> (picks.len()
            == outstanding.count()),
    decreases picks.len(),
{
    if picks.len() > 0 {
        let n = picks.len();
        let p = picks.drop_last();
        assert forall|k: int| 0 <= k < p.len() implies #[trigger] outstanding_after(
            outstanding,
            p.take(k),
        ).is_set(p[k] as int) by {
            assert(picks.take(k) =~= p.take(k));
            assert(outstanding_after(outstanding, picks.take(k)).is_set(picks[k] as int));
        }
        lemma_pick_up_run(outstanding, p);
        assert(picks.take(n - 1) =~= p);
        assert(outstanding_after(outstanding, picks.take(n - 1)).is_set(picks[n - 1] as int));
        let mid = outstanding_after(outstanding, p);
        let last = picks.last();
        assert(mid.is_set(last as int));
        assert(last < 128);
        mid.lemma_count_without(last);
        assert forall|k: int| 0 <= k < picks.len() implies outstanding.is_set(
            #[trigger] picks[k] as int,
        ) by {
            if k < n - 1 {
                assert(p[k] == picks[k]);
            } else {
                assert forall|q: int| 0 <= q < p.len() implies p[q] < 128 by {
                    assert(outstanding.is_set(p[q] as int));
                }
                lemma_after_subset(outstanding, p, last as int);
            }
        }
    }
}

} // verus!
