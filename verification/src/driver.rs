use vstd::prelude::*;

use crate::errors::SocketError;
use crate::stack::ConnRequest;
use crate::stack::Datagram;
use crate::stack::NetStack;
use crate::stack::Segment;
use crate::stack::same_config;
use crate::stack::same_registries;

verus! {

/// Performs one processing step of the stack's internal queues: every
/// staged handshake, segment and datagram becomes deliverable, and every
/// carried handshake leaves a completion notice for the connecting side
/// to observe through `poll`.
///
/// The stack has no background execution context, so an external
/// scheduling loop must invoke this repeatedly; while it is not called,
/// staged traffic sits where it is and the stack forwards no progress —
/// connections do not complete and data does not arrive — without
/// crashing.
pub fn ax_poll_interfaces(stack: &mut NetStack) -> (r: Result<(), SocketError>)
    ensures
        r == Ok::<(), SocketError>(()),
        final(stack).pending_conns@ == old(stack).pending_conns@ + old(stack).out_conns@,
        final(stack).out_conns@ == Seq::<ConnRequest>::empty(),
        final(stack).established@.len() == old(stack).established@.len() + old(
            stack,
        ).out_conns@.len(),
        forall|j: int|
            0 <= j < old(stack).established@.len() ==> final(stack).established@[j] == old(
                stack,
            ).established@[j],
        forall|j: int|
            #![trigger old(stack).out_conns@[j]]
            0 <= j < old(stack).out_conns@.len() ==> final(stack).established@[old(
                stack,
            ).established@.len() + j] == old(stack).out_conns@[j].from,
        final(stack).inflight_segments@ == old(stack).inflight_segments@ + old(
            stack,
        ).out_segments@,
        final(stack).out_segments@ == Seq::<Segment>::empty(),
        final(stack).inflight_datagrams@ == old(stack).inflight_datagrams@ + old(
            stack,
        ).out_datagrams@,
        final(stack).out_datagrams@ == Seq::<Datagram>::empty(),
        same_registries(*final(stack), *old(stack)),
        same_config(*final(stack), *old(stack)),
{
    let mut i: usize = 0;
    while i < stack.out_conns.len()
        invariant
            i <= stack.out_conns@.len(),
            stack.out_conns@ == old(stack).out_conns@,
            stack.established@.len() == old(stack).established@.len() + i,
            forall|j: int|
                0 <= j < old(stack).established@.len() ==> stack.established@[j] == old(
                    stack,
                ).established@[j],
            forall|j: int|
                0 <= j < i ==> stack.established@[old(stack).established@.len() + j] == old(
                    stack,
                ).out_conns@[j].from,
            stack.pending_conns == old(stack).pending_conns,
            stack.out_segments == old(stack).out_segments,
            stack.inflight_segments == old(stack).inflight_segments,
            stack.out_datagrams == old(stack).out_datagrams,
            stack.inflight_datagrams == old(stack).inflight_datagrams,
            same_registries(*stack, *old(stack)),
            same_config(*stack, *old(stack)),
        decreases stack.out_conns@.len() - i,
    {
        let from = stack.out_conns[i].from;
        stack.established.push(from);
        i += 1;
    }
    let pending = &mut stack.pending_conns;
    pending.append(&mut stack.out_conns);
    let segs = &mut stack.inflight_segments;
    segs.append(&mut stack.out_segments);
    let dgrams = &mut stack.inflight_datagrams;
    dgrams.append(&mut stack.out_datagrams);
    Ok(())
}

} // verus!
