use vstd::prelude::*;

use crate::addr::GenericAddress;
use crate::addr::InternalAddress;
use crate::addr::spec_to_generic;
use crate::addr::spec_to_internal;
use crate::addr::to_generic;
use crate::addr::to_internal;
use crate::errors::AxPollState;
use crate::errors::SocketError;
use crate::stack::Datagram;
use crate::stack::NetStack;
use crate::addr::InternalIpAddr;
use crate::stack::delivers_to;
use crate::stack::find_addr_with_port;
use crate::stack::same_config;
use crate::stack::same_wire;
use crate::stack::spec_delivers_to;
use crate::stack::spec_effective_port;
use crate::stack::spec_wildcard_ip;
use vstd::slice::slice_to_vec;

verus! {

/// A handle that exclusively owns one datagram socket.
///
/// The handle is created already bound: binding is part of construction,
/// not a separate lifecycle state. Every operation takes the handle (and
/// the stack) by exclusive reference, so at most one operation is in
/// flight per handle at any instant: concurrent callers serialize at the
/// borrow and each observes the state an entire earlier call left behind,
/// never a partial one.
pub struct AxUdpSocketHandle {
    /// The address the socket was bound to at construction.
    pub local: InternalAddress,
    /// The default peer recorded by `connect`, if any.
    pub peer: Option<InternalAddress>,
}

/// The first deliverable datagram a socket bound to `local` would
/// receive, if any.
pub fn find_datagram_for(v: &Vec<Datagram>, local: &InternalAddress) -> (r: Option<usize>)
    ensures
        match r {
            Some(i) => i < v@.len() && spec_delivers_to(v@[i as int].to, *local) && forall|k: int|
                0 <= k < i ==> !spec_delivers_to(v@[k].to, *local),
            None => forall|k: int| 0 <= k < v@.len() ==> !spec_delivers_to(v@[k].to, *local),
        },
{
    let mut i: usize = 0;
    while i < v.len()
        invariant
            i <= v@.len(),
            forall|k: int| 0 <= k < i ==> !spec_delivers_to(v@[k].to, *local),
        decreases v@.len() - i,
    {
        if delivers_to(&v[i].to, local) {
            return Some(i);
        }
        i += 1;
    }
    None
}

/// Constructs a datagram handle already bound to the given address; a
/// requested port of zero asks the stack to allocate one from its
/// ephemeral range.
///
/// A bind failure is surfaced to the caller, never discarded: an address
/// of the wrong family is rejected at the translation boundary, and a
/// port another datagram socket occupies is reported as in use.
pub fn ax_udp_bind(stack: &mut NetStack, addr: &GenericAddress) -> (r: Result<
    AxUdpSocketHandle,
    SocketError,
>)
    ensures
        !(addr.ip is V4) ==> r == Err::<AxUdpSocketHandle, SocketError>(
            SocketError::UnsupportedAddressFamily,
        ) && *final(stack) == *old(stack),
        addr.ip is V4 && (exists|k: int|
            0 <= k < old(stack).udp_bound@.len() && old(stack).udp_bound@[k].port
                == spec_effective_port(addr.port, *old(stack))) ==> r == Err::<
            AxUdpSocketHandle,
            SocketError,
        >(SocketError::AddrInUse) && *final(stack) == *old(stack),
        addr.ip is V4 && (forall|k: int|
            0 <= k < old(stack).udp_bound@.len() ==> old(stack).udp_bound@[k].port
                != spec_effective_port(addr.port, *old(stack))) ==> {
            let bound = (InternalAddress {
                ip: spec_to_internal(*addr).ip,
                port: spec_effective_port(addr.port, *old(stack)),
            });
            &&& r == Ok::<AxUdpSocketHandle, SocketError>(
                (AxUdpSocketHandle { local: bound, peer: None }),
            )
            &&& final(stack).udp_bound@ == old(stack).udp_bound@.push(bound)
            &&& final(stack).next_ephemeral == (if addr.port == 0 {
                crate::stack::spec_next_ephemeral(old(stack).next_ephemeral)
            } else {
                old(stack).next_ephemeral
            })
            &&& final(stack).tcp_bound == old(stack).tcp_bound
            &&& final(stack).listeners == old(stack).listeners
            &&& final(stack).hosts == old(stack).hosts
            &&& same_wire(*final(stack), *old(stack))
        },
{
    let internal = match to_internal(addr) {
        Ok(a) => a,
        Err(e) => {
            return Err(e);
        },
    };
    let port: u16 = if internal.port == 0 {
        stack.next_ephemeral
    } else {
        internal.port
    };
    match find_addr_with_port(&stack.udp_bound, port) {
        Some(_) => Err(SocketError::AddrInUse),
        None => {
            if internal.port == 0 {
                stack.next_ephemeral = if stack.next_ephemeral == 0xFFFF {
                    crate::stack::EPHEMERAL_FIRST
                } else {
                    stack.next_ephemeral + 1
                };
            }
            let bound = InternalAddress { ip: internal.ip, port };
            stack.udp_bound.push(bound);
            Ok(AxUdpSocketHandle { local: bound, peer: None })
        },
    }
}

/// Records a default peer for subsequent unaddressed sends. A datagram
/// `connect` performs no handshake: it only stores the destination.
pub fn ax_udp_connect(h: &mut AxUdpSocketHandle, addr: &GenericAddress) -> (r: Result<
    (),
    SocketError,
>)
    ensures
        !(addr.ip is V4) ==> r == Err::<(), SocketError>(SocketError::UnsupportedAddressFamily)
            && *final(h) == *old(h),
        addr.ip is V4 ==> r == Ok::<(), SocketError>(()) && final(h).local == old(h).local
            && final(h).peer == Some(spec_to_internal(*addr)),
{
    let internal = match to_internal(addr) {
        Ok(a) => a,
        Err(e) => {
            return Err(e);
        },
    };
    h.peer = Some(internal);
    Ok(())
}

/// What one successful datagram send leaves behind: the staged queue has
/// grown by exactly one datagram carrying the given endpoints and bytes,
/// and nothing else in the stack has moved.
pub open spec fn spec_sent_one(
    pre: NetStack,
    post: NetStack,
    from: InternalAddress,
    to: InternalAddress,
    data: Seq<u8>,
) -> bool {
    &&& post.out_datagrams@.len() == pre.out_datagrams@.len() + 1
    &&& post.out_datagrams@.drop_last() == pre.out_datagrams@
    &&& post.out_datagrams@.last().from == from
    &&& post.out_datagrams@.last().to == to
    &&& post.out_datagrams@.last().data@ == data
    &&& post.pending_conns == pre.pending_conns
    &&& post.out_conns == pre.out_conns
    &&& post.established == pre.established
    &&& post.out_segments == pre.out_segments
    &&& post.inflight_segments == pre.inflight_segments
    &&& post.inflight_datagrams == pre.inflight_datagrams
    &&& post.tcp_bound == pre.tcp_bound
    &&& post.udp_bound == pre.udp_bound
    &&& post.listeners == pre.listeners
    &&& same_config(post, pre)
}

/// Sends one datagram to an explicit destination, bypassing any
/// connected default. A destination with port zero or the unspecified
/// address names no reachable endpoint and is rejected. Otherwise the
/// whole payload is staged and its length returned.
pub fn ax_udp_send_to(
    h: &AxUdpSocketHandle,
    stack: &mut NetStack,
    buf: &[u8],
    addr: &GenericAddress,
) -> (r: Result<usize, SocketError>)
    ensures
        !(addr.ip is V4) ==> r == Err::<usize, SocketError>(SocketError::UnsupportedAddressFamily)
            && *final(stack) == *old(stack),
        addr.ip is V4 && (addr.port == 0 || spec_to_internal(*addr).ip == spec_wildcard_ip()) ==> r
            == Err::<usize, SocketError>(SocketError::InvalidInput) && *final(stack) == *old(stack),
        addr.ip is V4 && addr.port != 0 && spec_to_internal(*addr).ip != spec_wildcard_ip() ==> r
            == Ok::<usize, SocketError>(buf@.len() as usize) && spec_sent_one(
            *old(stack),
            *final(stack),
            h.local,
            spec_to_internal(*addr),
            buf@,
        ),
{
    let internal = match to_internal(addr) {
        Ok(a) => a,
        Err(e) => {
            return Err(e);
        },
    };
    if internal.port == 0 || internal.ip == (InternalIpAddr { o0: 0, o1: 0, o2: 0, o3: 0 }) {
        return Err(SocketError::InvalidInput);
    }
    let data = slice_to_vec(buf);
    stack.out_datagrams.push(Datagram { from: h.local, to: internal, data });
    proof {
        assert(stack.out_datagrams@.drop_last() =~= old(stack).out_datagrams@);
    }
    Ok(buf.len())
}

/// Sends one datagram to the peer recorded by `connect`; fails when no
/// default peer is set.
pub fn ax_udp_send(h: &AxUdpSocketHandle, stack: &mut NetStack, buf: &[u8]) -> (r: Result<
    usize,
    SocketError,
>)
    ensures
        h.peer is None ==> r == Err::<usize, SocketError>(SocketError::NotConnected)
            && *final(stack) == *old(stack),
        h.peer is Some ==> r == Ok::<usize, SocketError>(buf@.len() as usize) && spec_sent_one(
            *old(stack),
            *final(stack),
            h.local,
            h.peer->0,
            buf@,
        ),
{
    let peer = match &h.peer {
        Some(p) => *p,
        None => {
            return Err(SocketError::NotConnected);
        },
    };
    let data = slice_to_vec(buf);
    stack.out_datagrams.push(Datagram { from: h.local, to: peer, data });
    proof {
        assert(stack.out_datagrams@.drop_last() =~= old(stack).out_datagrams@);
    }
    Ok(buf.len())
}

/// Receives one deliverable datagram and its sender's address.
///
/// The first deliverable datagram is taken whole: its first bytes
/// overwrite the front of `buf`, whose length does not change, and any
/// excess beyond `buf`'s length is discarded with the datagram. With
/// nothing deliverable the call reports would-block at once — it never
/// suspends the caller, whatever the blocking mode; the caller re-polls
/// after driving the stack.
pub fn ax_udp_recv_from(h: &AxUdpSocketHandle, stack: &mut NetStack, buf: &mut Vec<u8>) -> (r:
    Result<(usize, GenericAddress), SocketError>)
    ensures
        (forall|k: int|
            0 <= k < old(stack).inflight_datagrams@.len() ==> !spec_delivers_to(
                old(stack).inflight_datagrams@[k].to,
                h.local,
            )) ==> r == Err::<(usize, GenericAddress), SocketError>(SocketError::WouldBlock)
            && *final(stack) == *old(stack) && final(buf)@ == old(buf)@,
        (exists|k: int|
            0 <= k < old(stack).inflight_datagrams@.len() && spec_delivers_to(
                old(stack).inflight_datagrams@[k].to,
                h.local,
            )) ==> (exists|i: int|
            {
                &&& 0 <= i < old(stack).inflight_datagrams@.len()
                &&& #[trigger] spec_delivers_to(old(stack).inflight_datagrams@[i].to, h.local)
                &&& forall|k: int|
                    0 <= k < i ==> !spec_delivers_to(old(stack).inflight_datagrams@[k].to, h.local)
                &&& final(stack).inflight_datagrams@ == old(stack).inflight_datagrams@.remove(i)
                &&& final(stack).out_datagrams == old(stack).out_datagrams
                &&& final(stack).pending_conns == old(stack).pending_conns
                &&& final(stack).out_conns == old(stack).out_conns
                &&& final(stack).established == old(stack).established
                &&& final(stack).out_segments == old(stack).out_segments
                &&& final(stack).inflight_segments == old(stack).inflight_segments
                &&& final(stack).tcp_bound == old(stack).tcp_bound
                &&& final(stack).udp_bound == old(stack).udp_bound
                &&& final(stack).listeners == old(stack).listeners
                &&& same_config(*final(stack), *old(stack))
                &&& {
                    let d = old(stack).inflight_datagrams@[i];
                    let n = if d.data@.len() < old(buf)@.len() {
                        d.data@.len() as int
                    } else {
                        old(buf)@.len() as int
                    };
                    &&& r == Ok::<(usize, GenericAddress), SocketError>(
                        ((n as usize, spec_to_generic(d.from, None))),
                    )
                    &&& final(buf)@ == d.data@.take(n) + old(buf)@.skip(n)
                }
            }),
{
    let i = match find_datagram_for(&stack.inflight_datagrams, &h.local) {
        Some(i) => i,
        None => {
            return Err(SocketError::WouldBlock);
        },
    };
    let d = stack.inflight_datagrams.remove(i);
    let cap = buf.len();
    let n = if d.data.len() < cap {
        d.data.len()
    } else {
        cap
    };
    let mut out: Vec<u8> = Vec::new();
    let mut j: usize = 0;
    while j < n
        invariant
            n <= d.data@.len(),
            j <= n,
            out@ == d.data@.take(j as int),
        decreases n - j,
    {
        out.push(d.data[j]);
        j += 1;
    }
    let mut k: usize = n;
    while k < cap
        invariant
            n <= k <= cap,
            cap == buf@.len(),
            out@ == d.data@.take(n as int) + buf@.subrange(n as int, k as int),
        decreases cap - k,
    {
        out.push(buf[k]);
        k += 1;
    }
    *buf = out;
    let sender = to_generic(&d.from, None);
    Ok((n, sender))
}

/// Reports the handle's readiness snapshot: readable exactly when a
/// deliverable datagram is waiting, and always writable, since a
/// datagram send stages its payload without waiting for a peer.
pub fn ax_udp_poll(h: &AxUdpSocketHandle, stack: &NetStack) -> (r: Result<
    AxPollState,
    SocketError,
>)
    ensures
        r == Ok::<AxPollState, SocketError>(
            (AxPollState {
                readable: exists|k: int|
                    0 <= k < stack.inflight_datagrams@.len() && spec_delivers_to(
                        stack.inflight_datagrams@[k].to,
                        h.local,
                    ),
                writable: true,
            }),
        ),
{
    let readable = match find_datagram_for(&stack.inflight_datagrams, &h.local) {
        Some(_) => true,
        None => false,
    };
    Ok(AxPollState { readable, writable: true })
}

/// Reports the address the handle was bound to at construction; a
/// datagram handle is always bound, so this always succeeds.
pub fn ax_udp_socket_addr(h: &AxUdpSocketHandle) -> (r: Result<GenericAddress, SocketError>)
    ensures
        r == Ok::<GenericAddress, SocketError>(spec_to_generic(h.local, None)),
{
    Ok(to_generic(&h.local, None))
}

/// Serialization law for the datagram guard.
///
/// Every operation holds the handle and the stack exclusively for its
/// whole duration, so two concurrent calls execute as whole calls in one
/// of the two serial orders. For two sends, whichever order the guard
/// admits, the staged traffic afterwards holds exactly the same
/// datagrams: no interleaving can corrupt or lose a payload.
pub proof fn lemma_datagram_sends_serialize(wire: Seq<Datagram>, a: Datagram, b: Datagram)
    ensures
        wire.push(a).push(b).to_multiset() =~= wire.push(b).push(a).to_multiset(),
{
    broadcast use vstd::seq_lib::group_to_multiset_ensures;

    assert(wire.push(a).push(b).to_multiset() =~= wire.to_multiset().insert(a).insert(b));
    assert(wire.push(b).push(a).to_multiset() =~= wire.to_multiset().insert(b).insert(a));
    assert(wire.to_multiset().insert(a).insert(b) =~= wire.to_multiset().insert(b).insert(a));
}

} // verus!
