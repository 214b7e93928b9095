use vstd::prelude::*;

use crate::addr::GenericAddress;
use crate::addr::InternalAddress;
use crate::addr::InternalIpAddr;
use crate::addr::spec_to_generic;
use crate::addr::spec_to_internal;
use crate::addr::to_generic;
use crate::addr::to_internal;
use crate::errors::AxPollState;
use crate::errors::SocketError;
use crate::stack::ConnRequest;
use crate::stack::EPHEMERAL_FIRST;
use crate::stack::NetStack;
use crate::stack::Segment;
use crate::stack::delivers_to;
use crate::stack::find_addr_eq;
use crate::stack::find_addr_with_port;
use crate::stack::find_listener_for;
use crate::stack::same_config;
use crate::stack::same_wire;
use crate::stack::spec_delivers_to;
use crate::stack::spec_effective_port;
use crate::stack::spec_next_ephemeral;
use vstd::slice::slice_subrange;
use vstd::slice::slice_to_vec;

verus! {

/// The lifecycle states a stream socket handle moves through.
///
/// A handle is created `Unbound` and follows one of two paths: through
/// `bind` to `Bound`, then `listen` to `Listening` (where `accept`
/// produces new, independently owned `Connected` handles); or through
/// `connect` to `Connecting`, and on to `Connected` once a `poll`
/// observes that the driver has carried the handshake through.
/// `shutdown` ends either path at `Closed`, after which data transfer
/// fails.
#[derive(Clone, Copy, Debug, PartialEq, Eq, Structural)]
pub enum StreamState {
    Unbound,
    Bound,
    Listening,
    Connecting,
    Connected,
    Closed,
}

/// A handle that exclusively owns one stream socket.
///
/// Handles are single-owner: the design assumes no sharing without
/// external synchronization, so operations take the handle by plain
/// (exclusive, where they mutate) reference.
pub struct AxTcpSocketHandle {
    /// Where the handle stands in its lifecycle.
    pub state: StreamState,
    /// Whether operations that cannot progress return a would-block
    /// indication instead of suspending the caller.
    pub nonblocking: bool,
    /// The local address: present from bind or connect until shutdown
    /// clears it.
    pub local: Option<InternalAddress>,
    /// The peer's address: present from connect or accept until shutdown
    /// clears it.
    pub peer: Option<InternalAddress>,
}

impl AxTcpSocketHandle {
    /// Well-formedness: every state past `Unbound` carries the addresses
    /// it needs. Constructors establish this and every operation
    /// preserves it.
    pub open spec fn wf(&self) -> bool {
        &&& ((self.state == StreamState::Bound || self.state == StreamState::Listening)
            ==> self.local is Some)
        &&& ((self.state == StreamState::Connecting || self.state == StreamState::Connected)
            ==> self.local is Some && self.peer is Some)
    }
}

/// The loopback interface's address, handed to sockets that connect
/// without binding first.
pub open spec fn spec_localhost_ip() -> InternalIpAddr {
    InternalIpAddr { o0: 127, o1: 0, o2: 0, o3: 1 }
}

/// The first accepted-but-unclaimed handshake a listener at `local`
/// would take, if any.
pub fn find_pending_for(v: &Vec<ConnRequest>, local: &InternalAddress) -> (r: Option<usize>)
    ensures
        match r {
            Some(i) => i < v@.len() && spec_delivers_to(v@[i as int].to, *local) && forall|k: int|
                0 <= k < i ==> !spec_delivers_to(v@[k].to, *local),
            None => forall|k: int| 0 <= k < v@.len() ==> !spec_delivers_to(v@[k].to, *local),
        },
{
    let mut i: usize = 0;
    while i < v.len()
        invariant
            i <= v@.len(),
            forall|k: int| 0 <= k < i ==> !spec_delivers_to(v@[k].to, *local),
        decreases v@.len() - i,
    {
        if delivers_to(&v[i].to, local) {
            return Some(i);
        }
        i += 1;
    }
    None
}

/// Whether a segment is deliverable to the connected socket with the
/// given endpoints: addressed to its local address and sent by its peer.
pub open spec fn spec_segment_for(
    seg: Segment,
    local: InternalAddress,
    peer: InternalAddress,
) -> bool {
    &&& spec_delivers_to(seg.to, local)
    &&& seg.from == peer
}

/// The first deliverable segment for the connection with the given
/// endpoints, if any.
pub fn find_segment_for(v: &Vec<Segment>, local: &InternalAddress, peer: &InternalAddress) -> (r:
    Option<usize>)
    ensures
        match r {
            Some(i) => i < v@.len() && spec_segment_for(v@[i as int], *local, *peer) && forall|
                k: int,
            | 0 <= k < i ==> !spec_segment_for(v@[k], *local, *peer),
            None => forall|k: int| 0 <= k < v@.len() ==> !spec_segment_for(v@[k], *local, *peer),
        },
{
    let mut i: usize = 0;
    while i < v.len()
        invariant
            i <= v@.len(),
            forall|k: int| 0 <= k < i ==> !spec_segment_for(v@[k], *local, *peer),
        decreases v@.len() - i,
    {
        if delivers_to(&v[i].to, local) && v[i].from == *peer {
            return Some(i);
        }
        i += 1;
    }
    None
}

/// The registry `post` is `pre` with the first occurrence of `x`
/// removed, or `pre` itself when `x` does not occur.
pub open spec fn spec_first_removed(
    pre: Seq<InternalAddress>,
    x: InternalAddress,
    post: Seq<InternalAddress>,
) -> bool {
    if exists|k: int| 0 <= k < pre.len() && pre[k] == x {
        exists|i: int|
            {
                &&& 0 <= i < pre.len()
                &&& pre[i] == x
                &&& (forall|k: int| 0 <= k < i ==> pre[k] != x)
                &&& post == pre.remove(i)
            }
    } else {
        post == pre
    }
}

/// Removes the first occurrence of an address from a registry, if one is
/// there.
pub fn remove_addr(v: &mut Vec<InternalAddress>, a: &InternalAddress)
    ensures
        spec_first_removed(old(v)@, *a, final(v)@),
{
    match find_addr_eq(v, a) {
        Some(i) => {
            v.remove(i);
        },
        None => {},
    }
}

/// Creates a stream socket handle. Always succeeds and always yields an
/// `Unbound` handle in blocking mode with no addresses attached.
pub fn ax_tcp_socket() -> (h: AxTcpSocketHandle)
    ensures
        h == (AxTcpSocketHandle {
            state: StreamState::Unbound,
            nonblocking: false,
            local: None,
            peer: None,
        }),
{
    AxTcpSocketHandle { state: StreamState::Unbound, nonblocking: false, local: None, peer: None }
}

/// Reports the handle's local address, valid once bound or connecting
/// or connected, and no longer once the handle is closed.
pub fn ax_tcp_socket_addr(h: &AxTcpSocketHandle) -> (r: Result<GenericAddress, SocketError>)
    ensures
        match h.local {
            Some(a) => r == Ok::<GenericAddress, SocketError>(spec_to_generic(a, None)),
            None => r == Err::<GenericAddress, SocketError>(SocketError::NotBound),
        },
{
    match &h.local {
        Some(a) => Ok(to_generic(a, None)),
        None => Err(SocketError::NotBound),
    }
}

/// Reports the peer's address, valid once connecting or connected, and
/// no longer once the handle is closed.
pub fn ax_tcp_peer_addr(h: &AxTcpSocketHandle) -> (r: Result<GenericAddress, SocketError>)
    ensures
        match h.peer {
            Some(a) => r == Ok::<GenericAddress, SocketError>(spec_to_generic(a, None)),
            None => r == Err::<GenericAddress, SocketError>(SocketError::NotConnected),
        },
{
    match &h.peer {
        Some(a) => Ok(to_generic(a, None)),
        None => Err(SocketError::NotConnected),
    }
}

/// Toggles whether operations that cannot progress return a would-block
/// indication instead of suspending. Always succeeds; nothing else about
/// the handle changes.
pub fn ax_tcp_set_nonblocking(h: &mut AxTcpSocketHandle, nonblocking: bool) -> (r: Result<
    (),
    SocketError,
>)
    ensures
        r == Ok::<(), SocketError>(()),
        final(h).nonblocking == nonblocking,
        final(h).state == old(h).state,
        final(h).local == old(h).local,
        final(h).peer == old(h).peer,
{
    h.nonblocking = nonblocking;
    Ok(())
}

/// Binds an unbound handle to a local address; a requested port of zero
/// asks the stack to allocate one from its ephemeral range.
///
/// An IPv6-form address is rejected at the translation boundary; binding
/// twice is a state error; a port another stream socket occupies is
/// reported in use. On success the handle is `Bound` and the address
/// registered.
pub fn ax_tcp_bind(h: &mut AxTcpSocketHandle, stack: &mut NetStack, addr: &GenericAddress) -> (r:
    Result<(), SocketError>)
    requires
        old(h).wf(),
    ensures
        final(h).wf(),
        !(addr.ip is V4) ==> r == Err::<(), SocketError>(SocketError::UnsupportedAddressFamily)
            && *final(h) == *old(h) && *final(stack) == *old(stack),
        addr.ip is V4 && old(h).state != StreamState::Unbound ==> r == Err::<(), SocketError>(
            SocketError::InvalidState,
        ) && *final(h) == *old(h) && *final(stack) == *old(stack),
        addr.ip is V4 && old(h).state == StreamState::Unbound && (exists|k: int|
            0 <= k < old(stack).tcp_bound@.len() && old(stack).tcp_bound@[k].port
                == spec_effective_port(addr.port, *old(stack))) ==> r == Err::<(), SocketError>(
            SocketError::AddrInUse,
        ) && *final(h) == *old(h) && *final(stack) == *old(stack),
        addr.ip is V4 && old(h).state == StreamState::Unbound && (forall|k: int|
            0 <= k < old(stack).tcp_bound@.len() ==> old(stack).tcp_bound@[k].port
                != spec_effective_port(addr.port, *old(stack))) ==> {
            let bound = (InternalAddress {
                ip: spec_to_internal(*addr).ip,
                port: spec_effective_port(addr.port, *old(stack)),
            });
            &&& r == Ok::<(), SocketError>(())
            &&& final(h).state == StreamState::Bound
            &&& final(h).local == Some(bound)
            &&& final(h).peer == old(h).peer
            &&& final(h).nonblocking == old(h).nonblocking
            &&& final(stack).tcp_bound@ == old(stack).tcp_bound@.push(bound)
            &&& final(stack).next_ephemeral == (if addr.port == 0 {
                spec_next_ephemeral(old(stack).next_ephemeral)
            } else {
                old(stack).next_ephemeral
            })
            &&& final(stack).udp_bound == old(stack).udp_bound
            &&& final(stack).listeners == old(stack).listeners
            &&& final(stack).hosts == old(stack).hosts
            &&& same_wire(*final(stack), *old(stack))
        },
{
    let internal = match to_internal(addr) {
        Ok(a) => a,
        Err(e) => {
            return Err(e);
        },
    };
    if !matches!(h.state, StreamState::Unbound) {
        return Err(SocketError::InvalidState);
    }
    let port: u16 = if internal.port == 0 {
        stack.next_ephemeral
    } else {
        internal.port
    };
    match find_addr_with_port(&stack.tcp_bound, port) {
        Some(_) => Err(SocketError::AddrInUse),
        None => {
            if internal.port == 0 {
                stack.next_ephemeral = if stack.next_ephemeral == 0xFFFF {
                    EPHEMERAL_FIRST
                } else {
                    stack.next_ephemeral + 1
                };
            }
            let bound = InternalAddress { ip: internal.ip, port };
            stack.tcp_bound.push(bound);
            h.state = StreamState::Bound;
            h.local = Some(bound);
            Ok(())
        },
    }
}

/// Moves a bound handle to the `Listening` state and registers it as a
/// listener.
///
/// The backlog argument is accepted for interface compatibility only:
/// this layer does not enforce a queue-depth limit, leaving queue
/// management to the underlying stack. Callers must not rely on the
/// backlog bounding pending connections.
pub fn ax_tcp_listen(h: &mut AxTcpSocketHandle, stack: &mut NetStack, _backlog: usize) -> (r:
    Result<(), SocketError>)
    requires
        old(h).wf(),
    ensures
        final(h).wf(),
        old(h).state != StreamState::Bound ==> r == Err::<(), SocketError>(
            SocketError::InvalidState,
        ) && *final(h) == *old(h) && *final(stack) == *old(stack),
        old(h).state == StreamState::Bound ==> {
            &&& r == Ok::<(), SocketError>(())
            &&& final(h).state == StreamState::Listening
            &&& final(h).local == old(h).local
            &&& final(h).peer == old(h).peer
            &&& final(h).nonblocking == old(h).nonblocking
            &&& final(stack).listeners@ == old(stack).listeners@.push(old(h).local->0)
            &&& final(stack).tcp_bound == old(stack).tcp_bound
            &&& final(stack).udp_bound == old(stack).udp_bound
            &&& same_wire(*final(stack), *old(stack))
            &&& same_config(*final(stack), *old(stack))
        },
{
    if !matches!(h.state, StreamState::Bound) {
        return Err(SocketError::InvalidState);
    }
    let local = match &h.local {
        Some(a) => *a,
        None => {
            return Err(SocketError::NotBound);
        },
    };
    stack.listeners.push(local);
    h.state = StreamState::Listening;
    Ok(())
}

/// Starts connecting an unbound handle to a destination.
///
/// An IPv6-form destination is rejected at the translation boundary, and
/// connecting from any state past `Unbound` is a state error. The
/// destination must have a live listener, else the connection is
/// refused. Otherwise the handle takes a fresh ephemeral loopback
/// address as its local endpoint and the handshake is staged on the
/// wire; the call returns at once with a would-block indication — the
/// connection is in progress, not complete. The handshake is carried
/// through when the interface driver next runs (until then it cannot
/// complete), and the handle reaches `Connected` when a `poll` observes
/// the completion. A caller in blocking mode waits by driving the stack
/// and polling in its scheduling loop.
pub fn ax_tcp_connect(h: &mut AxTcpSocketHandle, stack: &mut NetStack, addr: &GenericAddress) -> (r:
    Result<(), SocketError>)
    requires
        old(h).wf(),
    ensures
        final(h).wf(),
        !(addr.ip is V4) ==> r == Err::<(), SocketError>(SocketError::UnsupportedAddressFamily)
            && *final(h) == *old(h) && *final(stack) == *old(stack),
        addr.ip is V4 && old(h).state != StreamState::Unbound ==> r == Err::<(), SocketError>(
            SocketError::InvalidState,
        ) && *final(h) == *old(h) && *final(stack) == *old(stack),
        addr.ip is V4 && old(h).state == StreamState::Unbound && (forall|k: int|
            0 <= k < old(stack).listeners@.len() ==> !spec_delivers_to(
                spec_to_internal(*addr),
                old(stack).listeners@[k],
            )) ==> r == Err::<(), SocketError>(SocketError::ConnectionRefused) && *final(h) == *old(h) && *final(stack) == *old(stack),
        addr.ip is V4 && old(h).state == StreamState::Unbound && (exists|k: int|
            0 <= k < old(stack).listeners@.len() && spec_delivers_to(
                spec_to_internal(*addr),
                old(stack).listeners@[k],
            )) ==> {
            let eph = (InternalAddress {
                ip: spec_localhost_ip(),
                port: old(stack).next_ephemeral,
            });
            &&& r == Err::<(), SocketError>(SocketError::WouldBlock)
            &&& final(h).state == StreamState::Connecting
            &&& final(h).local == Some(eph)
            &&& final(h).peer == Some(spec_to_internal(*addr))
            &&& final(h).nonblocking == old(h).nonblocking
            &&& final(stack).out_conns@ == old(stack).out_conns@.push(
                (ConnRequest { from: eph, to: spec_to_internal(*addr) }),
            )
            &&& final(stack).next_ephemeral == spec_next_ephemeral(old(stack).next_ephemeral)
            &&& final(stack).pending_conns == old(stack).pending_conns
            &&& final(stack).established == old(stack).established
            &&& final(stack).out_segments == old(stack).out_segments
            &&& final(stack).inflight_segments == old(stack).inflight_segments
            &&& final(stack).out_datagrams == old(stack).out_datagrams
            &&& final(stack).inflight_datagrams == old(stack).inflight_datagrams
            &&& final(stack).tcp_bound == old(stack).tcp_bound
            &&& final(stack).udp_bound == old(stack).udp_bound
            &&& final(stack).listeners == old(stack).listeners
            &&& final(stack).hosts == old(stack).hosts
        },
{
    let internal = match to_internal(addr) {
        Ok(a) => a,
        Err(e) => {
            return Err(e);
        },
    };
    if !matches!(h.state, StreamState::Unbound) {
        return Err(SocketError::InvalidState);
    }
    match find_listener_for(&stack.listeners, &internal) {
        None => Err(SocketError::ConnectionRefused),
        Some(_) => {
            let eph = InternalAddress {
                ip: InternalIpAddr { o0: 127, o1: 0, o2: 0, o3: 1 },
                port: stack.next_ephemeral,
            };
            stack.next_ephemeral = if stack.next_ephemeral == 0xFFFF {
                EPHEMERAL_FIRST
            } else {
                stack.next_ephemeral + 1
            };
            stack.out_conns.push(ConnRequest { from: eph, to: internal });
            h.state = StreamState::Connecting;
            h.local = Some(eph);
            h.peer = Some(internal);
            Err(SocketError::WouldBlock)
        },
    }
}

/// Accepts one pending connection on a listening handle.
///
/// Valid only in the `Listening` state. When a completed handshake is
/// waiting, it is claimed and a new, independently owned handle is
/// returned together with the peer's address; the new handle is always
/// `Connected` — no other state can come out of a successful accept.
/// With nothing pending the call reports would-block at once — it never
/// suspends the caller, whatever the blocking mode; the caller re-polls
/// after driving the stack.
pub fn ax_tcp_accept(h: &AxTcpSocketHandle, stack: &mut NetStack) -> (r: Result<
    (AxTcpSocketHandle, GenericAddress),
    SocketError,
>)
    requires
        h.wf(),
    ensures
        r is Ok ==> (r->Ok_0).0.state == StreamState::Connected && (r->Ok_0).0.wf(),
        h.state != StreamState::Listening ==> r == Err::<
            (AxTcpSocketHandle, GenericAddress),
            SocketError,
        >(SocketError::InvalidState) && *final(stack) == *old(stack),
        h.state == StreamState::Listening && (forall|k: int|
            0 <= k < old(stack).pending_conns@.len() ==> !spec_delivers_to(
                old(stack).pending_conns@[k].to,
                h.local->0,
            )) ==> r == Err::<(AxTcpSocketHandle, GenericAddress), SocketError>(
            SocketError::WouldBlock,
        ) && *final(stack) == *old(stack),
        h.state == StreamState::Listening && (exists|k: int|
            0 <= k < old(stack).pending_conns@.len() && spec_delivers_to(
                old(stack).pending_conns@[k].to,
                h.local->0,
            )) ==> (exists|i: int|
            {
                let req = old(stack).pending_conns@[i];
                &&& 0 <= i < old(stack).pending_conns@.len()
                &&& #[trigger] spec_delivers_to(old(stack).pending_conns@[i].to, h.local->0)
                &&& forall|k: int|
                    0 <= k < i ==> !spec_delivers_to(old(stack).pending_conns@[k].to, h.local->0)
                &&& final(stack).pending_conns@ == old(stack).pending_conns@.remove(i)
                &&& final(stack).out_conns == old(stack).out_conns
                &&& final(stack).established == old(stack).established
                &&& final(stack).out_segments == old(stack).out_segments
                &&& final(stack).inflight_segments == old(stack).inflight_segments
                &&& final(stack).out_datagrams == old(stack).out_datagrams
                &&& final(stack).inflight_datagrams == old(stack).inflight_datagrams
                &&& final(stack).tcp_bound == old(stack).tcp_bound
                &&& final(stack).udp_bound == old(stack).udp_bound
                &&& final(stack).listeners == old(stack).listeners
                &&& same_config(*final(stack), *old(stack))
                &&& r == Ok::<(AxTcpSocketHandle, GenericAddress), SocketError>(
                    ((
                        AxTcpSocketHandle {
                            state: StreamState::Connected,
                            nonblocking: false,
                            local: Some(req.to),
                            peer: Some(req.from),
                        },
                        spec_to_generic(req.from, None),
                    )),
                )
            }),
{
    if !matches!(h.state, StreamState::Listening) {
        return Err(SocketError::InvalidState);
    }
    let local = match &h.local {
        Some(a) => *a,
        None => {
            return Err(SocketError::NotBound);
        },
    };
    let i = match find_pending_for(&stack.pending_conns, &local) {
        Some(i) => i,
        None => {
            return Err(SocketError::WouldBlock);
        },
    };
    let req = stack.pending_conns.remove(i);
    let peer_addr = to_generic(&req.from, None);
    let new_handle = AxTcpSocketHandle {
        state: StreamState::Connected,
        nonblocking: false,
        local: Some(req.to),
        peer: Some(req.from),
    };
    Ok((new_handle, peer_addr))
}

/// What one successful stream send leaves behind: the staged queue has
/// grown by exactly one segment carrying the given endpoints and bytes,
/// and nothing else in the stack has moved.
pub open spec fn spec_stream_sent_one(
    pre: NetStack,
    post: NetStack,
    from: InternalAddress,
    to: InternalAddress,
    data: Seq<u8>,
) -> bool {
    &&& post.out_segments@.len() == pre.out_segments@.len() + 1
    &&& post.out_segments@.drop_last() == pre.out_segments@
    &&& post.out_segments@.last().from == from
    &&& post.out_segments@.last().to == to
    &&& post.out_segments@.last().data@ == data
    &&& post.pending_conns == pre.pending_conns
    &&& post.out_conns == pre.out_conns
    &&& post.established == pre.established
    &&& post.inflight_segments == pre.inflight_segments
    &&& post.out_datagrams == pre.out_datagrams
    &&& post.inflight_datagrams == pre.inflight_datagrams
    &&& post.tcp_bound == pre.tcp_bound
    &&& post.udp_bound == pre.udp_bound
    &&& post.listeners == pre.listeners
    &&& same_config(post, pre)
}

/// Sends bytes over a connected stream.
///
/// On any handle that is not `Connected` — including one that never
/// reached that state — the call fails with a state error and leaves the
/// stack untouched: no stack operation is attempted. On success the
/// whole payload is staged for the peer and its length returned.
pub fn ax_tcp_send(h: &AxTcpSocketHandle, stack: &mut NetStack, buf: &[u8]) -> (r: Result<
    usize,
    SocketError,
>)
    requires
        h.wf(),
    ensures
        h.state != StreamState::Connected ==> r == Err::<usize, SocketError>(
            SocketError::NotConnected,
        ) && *final(stack) == *old(stack),
        h.state == StreamState::Connected ==> r == Ok::<usize, SocketError>(buf@.len() as usize)
            && spec_stream_sent_one(*old(stack), *final(stack), h.local->0, h.peer->0, buf@),
{
    if !matches!(h.state, StreamState::Connected) {
        return Err(SocketError::NotConnected);
    }
    let (local, peer) = match (&h.local, &h.peer) {
        (Some(l), Some(p)) => (*l, *p),
        _ => {
            return Err(SocketError::NotConnected);
        },
    };
    let data = slice_to_vec(buf);
    stack.out_segments.push(Segment { from: local, to: peer, data });
    proof {
        assert(stack.out_segments@.drop_last() =~= old(stack).out_segments@);
    }
    Ok(buf.len())
}

/// Receives bytes from a connected stream.
///
/// On any handle that is not `Connected` the call fails with a state
/// error and leaves the stack untouched: no stack operation is
/// attempted. Otherwise the first deliverable segment is consumed up to
/// `buf`'s length: the received bytes overwrite the front of `buf`,
/// whose length does not change, and any remainder of the segment stays
/// on the wire, in place, for the next receive. With no data deliverable
/// the call reports would-block at once — it never suspends the caller,
/// whatever the blocking mode; the caller re-polls after driving the
/// stack.
pub fn ax_tcp_recv(h: &AxTcpSocketHandle, stack: &mut NetStack, buf: &mut Vec<u8>) -> (r: Result<
    usize,
    SocketError,
>)
    requires
        h.wf(),
    ensures
        h.state != StreamState::Connected ==> r == Err::<usize, SocketError>(
            SocketError::NotConnected,
        ) && *final(stack) == *old(stack) && final(buf)@ == old(buf)@,
        h.state == StreamState::Connected && (forall|k: int|
            0 <= k < old(stack).inflight_segments@.len() ==> !spec_segment_for(
                old(stack).inflight_segments@[k],
                h.local->0,
                h.peer->0,
            )) ==> r == Err::<usize, SocketError>(SocketError::WouldBlock) && *final(stack) == *old(stack) && final(buf)@ == old(buf)@,
        h.state == StreamState::Connected && (exists|k: int|
            0 <= k < old(stack).inflight_segments@.len() && spec_segment_for(
                old(stack).inflight_segments@[k],
                h.local->0,
                h.peer->0,
            )) ==> (exists|i: int|
            {
                let s = old(stack).inflight_segments@[i];
                let n = if s.data@.len() < old(buf)@.len() {
                    s.data@.len() as int
                } else {
                    old(buf)@.len() as int
                };
                &&& 0 <= i < old(stack).inflight_segments@.len()
                &&& #[trigger] spec_segment_for(
                    old(stack).inflight_segments@[i],
                    h.local->0,
                    h.peer->0,
                )
                &&& forall|k: int|
                    0 <= k < i ==> !spec_segment_for(
                        old(stack).inflight_segments@[k],
                        h.local->0,
                        h.peer->0,
                    )
                &&& r == Ok::<usize, SocketError>(n as usize)
                &&& final(buf)@ == s.data@.take(n) + old(buf)@.skip(n)
                &&& (if n == s.data@.len() {
                    final(stack).inflight_segments@ == old(stack).inflight_segments@.remove(i)
                } else {
                    &&& final(stack).inflight_segments@.len() == old(stack).inflight_segments@.len()
                    &&& (forall|j: int|
                        0 <= j < old(stack).inflight_segments@.len() && j != i ==> final(stack).inflight_segments@[j] == old(stack).inflight_segments@[j])
                    &&& final(stack).inflight_segments@[i].from == s.from
                    &&& final(stack).inflight_segments@[i].to == s.to
                    &&& final(stack).inflight_segments@[i].data@ == s.data@.skip(n)
                })
                &&& final(stack).out_segments == old(stack).out_segments
                &&& final(stack).pending_conns == old(stack).pending_conns
                &&& final(stack).out_conns == old(stack).out_conns
                &&& final(stack).established == old(stack).established
                &&& final(stack).out_datagrams == old(stack).out_datagrams
                &&& final(stack).inflight_datagrams == old(stack).inflight_datagrams
                &&& final(stack).tcp_bound == old(stack).tcp_bound
                &&& final(stack).udp_bound == old(stack).udp_bound
                &&& final(stack).listeners == old(stack).listeners
                &&& same_config(*final(stack), *old(stack))
            }),
{
    if !matches!(h.state, StreamState::Connected) {
        return Err(SocketError::NotConnected);
    }
    let (local, peer) = match (&h.local, &h.peer) {
        (Some(l), Some(p)) => (*l, *p),
        _ => {
            return Err(SocketError::NotConnected);
        },
    };
    let i = match find_segment_for(&stack.inflight_segments, &local, &peer) {
        Some(i) => i,
        None => {
            return Err(SocketError::WouldBlock);
        },
    };
    let seg = stack.inflight_segments.remove(i);
    let cap = buf.len();
    let n = if seg.data.len() < cap {
        seg.data.len()
    } else {
        cap
    };
    let mut out: Vec<u8> = Vec::new();
    let mut j: usize = 0;
    while j < n
        invariant
            n <= seg.data@.len(),
            j <= n,
            out@ == seg.data@.take(j as int),
        decreases n - j,
    {
        out.push(seg.data[j]);
        j += 1;
    }
    let mut k: usize = n;
    while k < cap
        invariant
            n <= k <= cap,
            cap == buf@.len(),
            out@ == seg.data@.take(n as int) + buf@.subrange(n as int, k as int),
        decreases cap - k,
    {
        out.push(buf[k]);
        k += 1;
    }
    *buf = out;
    if n < seg.data.len() {
        let rest_slice = slice_subrange(seg.data.as_slice(), n, seg.data.len());
        let rest = slice_to_vec(rest_slice);
        stack.inflight_segments.insert(i, Segment { from: seg.from, to: seg.to, data: rest });
        proof {
            let pre = old(stack).inflight_segments@;
            let post = stack.inflight_segments@;
            assert forall|j2: int| 0 <= j2 < pre.len() && j2 != i implies post[j2] == pre[j2] by {
                if j2 < i {
                    assert(post[j2] == pre.remove(i as int)[j2]);
                } else {
                    assert(post[j2] == pre.remove(i as int)[j2 - 1]);
                    assert(pre.remove(i as int)[j2 - 1] == pre[j2]);
                }
            }
        }
    }
    Ok(n)
}

/// Whether the handle currently has something to take without
/// suspending: a claimable handshake for a listener, deliverable bytes
/// for a connected socket, nothing otherwise.
pub open spec fn spec_tcp_readable(h: AxTcpSocketHandle, stack: NetStack) -> bool {
    match h.state {
        StreamState::Listening => exists|k: int|
            0 <= k < stack.pending_conns@.len() && spec_delivers_to(
                stack.pending_conns@[k].to,
                h.local->0,
            ),
        StreamState::Connected => exists|k: int|
            0 <= k < stack.inflight_segments@.len() && spec_segment_for(
                stack.inflight_segments@[k],
                h.local->0,
                h.peer->0,
            ),
        _ => false,
    }
}

/// Reports the handle's readiness snapshot without blocking, whatever
/// the blocking mode: readable per [`spec_tcp_readable`], writable
/// exactly when connected.
///
/// For a handle in the middle of its handshake, the poll is also where
/// completion is observed: when the driver has carried the handshake
/// through, the handle's completion notice is consumed and the handle
/// becomes `Connected` — and with it writable.
pub fn ax_tcp_poll(h: &mut AxTcpSocketHandle, stack: &mut NetStack) -> (r: Result<
    AxPollState,
    SocketError,
>)
    requires
        old(h).wf(),
    ensures
        final(h).wf(),
        final(h).local == old(h).local,
        final(h).peer == old(h).peer,
        final(h).nonblocking == old(h).nonblocking,
        old(h).state != StreamState::Connecting ==> *final(h) == *old(h) && *final(stack) == *old(stack),
        old(h).state == StreamState::Connecting && (forall|k: int|
            0 <= k < old(stack).established@.len() ==> old(stack).established@[k] != old(h).local->0)
            ==> final(h).state == StreamState::Connecting && *final(stack) == *old(stack),
        old(h).state == StreamState::Connecting && (exists|k: int|
            0 <= k < old(stack).established@.len() && old(stack).established@[k] == old(h).local->0)
            ==> {
            &&& final(h).state == StreamState::Connected
            &&& (exists|i: int|
                {
                    &&& 0 <= i < old(stack).established@.len()
                    &&& #[trigger] old(stack).established@[i] == old(h).local->0
                    &&& forall|k: int| 0 <= k < i ==> old(stack).established@[k] != old(h).local->0
                    &&& final(stack).established@ == old(stack).established@.remove(i)
                })
            &&& final(stack).out_conns == old(stack).out_conns
            &&& final(stack).pending_conns == old(stack).pending_conns
            &&& final(stack).out_segments == old(stack).out_segments
            &&& final(stack).inflight_segments == old(stack).inflight_segments
            &&& final(stack).out_datagrams == old(stack).out_datagrams
            &&& final(stack).inflight_datagrams == old(stack).inflight_datagrams
            &&& final(stack).tcp_bound == old(stack).tcp_bound
            &&& final(stack).udp_bound == old(stack).udp_bound
            &&& final(stack).listeners == old(stack).listeners
            &&& same_config(*final(stack), *old(stack))
        },
        r == Ok::<AxPollState, SocketError>(
            (AxPollState {
                readable: spec_tcp_readable(*final(h), *final(stack)),
                writable: final(h).state == StreamState::Connected,
            }),
        ),
{
    if matches!(h.state, StreamState::Connecting) {
        let local = match &h.local {
            Some(a) => *a,
            None => {
                return Err(SocketError::NotBound);
            },
        };
        match find_addr_eq(&stack.established, &local) {
            Some(i) => {
                stack.established.remove(i);
                h.state = StreamState::Connected;
            },
            None => {},
        }
    }
    let readable: bool = match h.state {
        StreamState::Listening => {
            let local = match &h.local {
                Some(a) => *a,
                None => {
                    return Err(SocketError::NotBound);
                },
            };
            match find_pending_for(&stack.pending_conns, &local) {
                Some(_) => true,
                None => false,
            }
        },
        StreamState::Connected => {
            let (local, peer) = match (&h.local, &h.peer) {
                (Some(l), Some(p)) => (*l, *p),
                _ => {
                    return Err(SocketError::NotConnected);
                },
            };
            match find_segment_for(&stack.inflight_segments, &local, &peer) {
                Some(_) => true,
                None => false,
            }
        },
        _ => false,
    };
    let writable = matches!(h.state, StreamState::Connected);
    Ok(AxPollState { readable, writable })
}

/// Shuts a handle down, moving it to `Closed`: its registrations are
/// released and its addresses cleared, so further sends and receives
/// fail with a state error and the address getters report the handle as
/// no longer bound or connected. Only a handle that holds a stack
/// resource — one that is bound, listening, connecting or connected —
/// can be shut down.
pub fn ax_tcp_shutdown(h: &mut AxTcpSocketHandle, stack: &mut NetStack) -> (r: Result<
    (),
    SocketError,
>)
    requires
        old(h).wf(),
    ensures
        final(h).wf(),
        (old(h).state == StreamState::Unbound || old(h).state == StreamState::Closed) ==> r
            == Err::<(), SocketError>(SocketError::InvalidState) && *final(h) == *old(h) && *final(stack) == *old(stack),
        (old(h).state == StreamState::Bound || old(h).state == StreamState::Listening || old(h).state == StreamState::Connecting || old(h).state == StreamState::Connected) ==> {
            &&& r == Ok::<(), SocketError>(())
            &&& final(h).state == StreamState::Closed
            &&& final(h).local is None
            &&& final(h).peer is None
            &&& final(h).nonblocking == old(h).nonblocking
            &&& spec_first_removed(old(stack).tcp_bound@, old(h).local->0, final(stack).tcp_bound@)
            &&& spec_first_removed(old(stack).listeners@, old(h).local->0, final(stack).listeners@)
            &&& final(stack).udp_bound == old(stack).udp_bound
            &&& same_wire(*final(stack), *old(stack))
            &&& same_config(*final(stack), *old(stack))
        },
{
    match h.state {
        StreamState::Unbound | StreamState::Closed => Err(SocketError::InvalidState),
        StreamState::Bound | StreamState::Listening | StreamState::Connecting
        | StreamState::Connected => {
            let local = match &h.local {
                Some(a) => *a,
                None => {
                    return Err(SocketError::NotBound);
                },
            };
            remove_addr(&mut stack.tcp_bound, &local);
            remove_addr(&mut stack.listeners, &local);
            h.state = StreamState::Closed;
            h.local = None;
            h.peer = None;
            Ok(())
        },
    }
}

} // verus!
