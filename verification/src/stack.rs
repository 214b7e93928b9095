use vstd::prelude::*;

use crate::addr::InternalAddress;
use crate::addr::InternalIpAddr;

verus! {

/// A completed stream handshake waiting to be accepted by a listener.
#[derive(Clone, Copy, Debug, PartialEq, Eq, Structural)]
pub struct ConnRequest {
    /// The connecting side's local address.
    pub from: InternalAddress,
    /// The address the connecting side dialed.
    pub to: InternalAddress,
}

/// A run of stream bytes in flight from one connected endpoint to another.
pub struct Segment {
    pub from: InternalAddress,
    pub to: InternalAddress,
    pub data: Vec<u8>,
}

/// One datagram in flight, carrying its sender and destination.
pub struct Datagram {
    pub from: InternalAddress,
    pub to: InternalAddress,
    pub data: Vec<u8>,
}

/// One resolver table entry: a host name and the portless addresses it
/// resolves to.
pub struct HostEntry {
    pub name: String,
    pub addrs: Vec<InternalIpAddr>,
}

/// The first port of the range handed out to sockets that connect
/// without binding first.
pub const EPHEMERAL_FIRST: u16 = 49152;

/// The internal network stack's shared state, passed explicitly to every
/// operation so that ownership and initialization order are visible in
/// the signatures rather than hidden behind ambient globals.
///
/// The stack has no background execution context: staged (`out_`) traffic
/// moves to the deliverable (`inflight_`) queues only when the interface
/// poll driver is invoked.
pub struct NetStack {
    /// Addresses bound by stream sockets.
    pub tcp_bound: Vec<InternalAddress>,
    /// Addresses bound by datagram sockets.
    pub udp_bound: Vec<InternalAddress>,
    /// Addresses with a live stream listener.
    pub listeners: Vec<InternalAddress>,
    /// Handshakes staged by `connect`, not yet visible to listeners.
    pub out_conns: Vec<ConnRequest>,
    /// Handshakes a listener can accept.
    pub pending_conns: Vec<ConnRequest>,
    /// Completion notices for the connecting side: the local address of
    /// every handshake the stack has carried through, not yet observed
    /// by a poll of the connecting handle.
    pub established: Vec<InternalAddress>,
    /// Stream bytes staged by `send`, not yet deliverable.
    pub out_segments: Vec<Segment>,
    /// Stream bytes a receiver can take.
    pub inflight_segments: Vec<Segment>,
    /// Datagrams staged by `send`/`send_to`, not yet deliverable.
    pub out_datagrams: Vec<Datagram>,
    /// Datagrams a receiver can take.
    pub inflight_datagrams: Vec<Datagram>,
    /// The resolver's host table.
    pub hosts: Vec<HostEntry>,
    /// The next port to hand out to an unbound connecting socket.
    pub next_ephemeral: u16,
}

/// The two stacks hold the same in-flight traffic, staged and deliverable.
pub open spec fn same_wire(a: NetStack, b: NetStack) -> bool {
    &&& a.out_conns == b.out_conns
    &&& a.pending_conns == b.pending_conns
    &&& a.established == b.established
    &&& a.out_segments == b.out_segments
    &&& a.inflight_segments == b.inflight_segments
    &&& a.out_datagrams == b.out_datagrams
    &&& a.inflight_datagrams == b.inflight_datagrams
}

/// The two stacks agree on every bound or listening address.
pub open spec fn same_registries(a: NetStack, b: NetStack) -> bool {
    &&& a.tcp_bound == b.tcp_bound
    &&& a.udp_bound == b.udp_bound
    &&& a.listeners == b.listeners
}

/// The two stacks agree on the resolver table and the ephemeral counter.
pub open spec fn same_config(a: NetStack, b: NetStack) -> bool {
    &&& a.hosts == b.hosts
    &&& a.next_ephemeral == b.next_ephemeral
}

/// The address every octet of which is zero, which binds a socket to all
/// local interfaces at once.
pub open spec fn spec_wildcard_ip() -> InternalIpAddr {
    InternalIpAddr { o0: 0, o1: 0, o2: 0, o3: 0 }
}

/// The ephemeral port counter after one port is handed out: the next
/// port up, wrapping back to the start of the range at the top.
pub open spec fn spec_next_ephemeral(p: u16) -> u16 {
    if p == 0xFFFF {
        EPHEMERAL_FIRST
    } else {
        (p + 1) as u16
    }
}

/// The port a bind with the given requested port takes: port zero asks
/// the stack to allocate one, served from the ephemeral counter; any
/// other port is taken literally.
pub open spec fn spec_effective_port(port: u16, s: NetStack) -> u16 {
    if port == 0 {
        s.next_ephemeral
    } else {
        port
    }
}

/// Whether traffic addressed to `dest` is delivered to a socket whose
/// local address is `local`: the ports must agree, and the socket must be
/// bound either to the wildcard address or to the destination's own.
pub open spec fn spec_delivers_to(dest: InternalAddress, local: InternalAddress) -> bool {
    &&& dest.port == local.port
    &&& (local.ip == spec_wildcard_ip() || dest.ip == local.ip)
}

/// Executable form of [`spec_delivers_to`].
pub fn delivers_to(dest: &InternalAddress, local: &InternalAddress) -> (r: bool)
    ensures
        r == spec_delivers_to(*dest, *local),
{
    dest.port == local.port && (local.ip == (InternalIpAddr { o0: 0, o1: 0, o2: 0, o3: 0 })
        || dest.ip == local.ip)
}

/// The first registry slot holding an address with the given port, if any.
pub fn find_addr_with_port(v: &Vec<InternalAddress>, port: u16) -> (r: Option<usize>)
    ensures
        match r {
            Some(i) => i < v@.len() && v@[i as int].port == port && forall|k: int|
                0 <= k < i ==> v@[k].port != port,
            None => forall|k: int| 0 <= k < v@.len() ==> v@[k].port != port,
        },
{
    let mut i: usize = 0;
    while i < v.len()
        invariant
            i <= v@.len(),
            forall|k: int| 0 <= k < i ==> v@[k].port != port,
        decreases v@.len() - i,
    {
        if v[i].port == port {
            return Some(i);
        }
        i += 1;
    }
    None
}

/// The first registry slot holding exactly the given address, if any.
pub fn find_addr_eq(v: &Vec<InternalAddress>, a: &InternalAddress) -> (r: Option<usize>)
    ensures
        match r {
            Some(i) => i < v@.len() && v@[i as int] == *a && forall|k: int|
                0 <= k < i ==> v@[k] != *a,
            None => forall|k: int| 0 <= k < v@.len() ==> v@[k] != *a,
        },
{
    let mut i: usize = 0;
    while i < v.len()
        invariant
            i <= v@.len(),
            forall|k: int| 0 <= k < i ==> v@[k] != *a,
        decreases v@.len() - i,
    {
        if v[i] == *a {
            return Some(i);
        }
        i += 1;
    }
    None
}

/// The first registered listener that traffic addressed to `dest` would
/// reach, if any.
pub fn find_listener_for(v: &Vec<InternalAddress>, dest: &InternalAddress) -> (r: Option<usize>)
    ensures
        match r {
            Some(i) => i < v@.len() && spec_delivers_to(*dest, v@[i as int]) && forall|k: int|
                0 <= k < i ==> !spec_delivers_to(*dest, v@[k]),
            None => forall|k: int| 0 <= k < v@.len() ==> !spec_delivers_to(*dest, v@[k]),
        },
{
    let mut i: usize = 0;
    while i < v.len()
        invariant
            i <= v@.len(),
            forall|k: int| 0 <= k < i ==> !spec_delivers_to(*dest, v@[k]),
        decreases v@.len() - i,
    {
        if delivers_to(dest, &v[i]) {
            return Some(i);
        }
        i += 1;
    }
    None
}

impl NetStack {
    /// A freshly initialized stack: nothing bound, nothing listening,
    /// nothing in flight, an empty resolver table, and the ephemeral port
    /// counter at the start of its range.
    pub fn new() -> (s: NetStack)
        ensures
            s.tcp_bound@ == Seq::<InternalAddress>::empty(),
            s.udp_bound@ == Seq::<InternalAddress>::empty(),
            s.listeners@ == Seq::<InternalAddress>::empty(),
            s.out_conns@ == Seq::<ConnRequest>::empty(),
            s.pending_conns@ == Seq::<ConnRequest>::empty(),
            s.established@ == Seq::<InternalAddress>::empty(),
            s.out_segments@ == Seq::<Segment>::empty(),
            s.inflight_segments@ == Seq::<Segment>::empty(),
            s.out_datagrams@ == Seq::<Datagram>::empty(),
            s.inflight_datagrams@ == Seq::<Datagram>::empty(),
            s.hosts@ == Seq::<HostEntry>::empty(),
            s.next_ephemeral == EPHEMERAL_FIRST,
    {
        NetStack {
            tcp_bound: Vec::new(),
            udp_bound: Vec::new(),
            listeners: Vec::new(),
            out_conns: Vec::new(),
            pending_conns: Vec::new(),
            established: Vec::new(),
            out_segments: Vec::new(),
            inflight_segments: Vec::new(),
            out_datagrams: Vec::new(),
            inflight_datagrams: Vec::new(),
            hosts: Vec::new(),
            next_ephemeral: EPHEMERAL_FIRST,
        }
    }

    /// Records one resolver entry: the host name and the portless
    /// addresses it resolves to.
    pub fn add_host_entry(&mut self, name: String, addrs: Vec<InternalIpAddr>)
        ensures
            final(self).hosts@.len() == old(self).hosts@.len() + 1,
            forall|k: int|
                0 <= k < old(self).hosts@.len() ==> final(self).hosts@[k] == old(self).hosts@[k],
            final(self).hosts@.last().name == name,
            final(self).hosts@.last().addrs == addrs,
            same_wire(*final(self), *old(self)),
            same_registries(*final(self), *old(self)),
            final(self).next_ephemeral == old(self).next_ephemeral,
    {
        self.hosts.push(HostEntry { name, addrs });
    }
}

} // verus!
