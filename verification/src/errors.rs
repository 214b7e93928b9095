use vstd::prelude::*;

verus! {

/// The error taxonomy of the socket layer.
///
/// Every fallible operation reports why it failed through one of these
/// variants; no failure is silently discarded.
#[derive(Clone, Copy, Debug, PartialEq, Eq, Structural)]
pub enum SocketError {
    /// The address carries a family the internal stack cannot represent.
    /// The stack understands IPv4 only; an IPv6-form address is rejected
    /// at the translation boundary instead of being treated as fatal.
    UnsupportedAddressFamily,
    /// The operation is not valid in the handle's current lifecycle state.
    InvalidState,
    /// An argument is unusable: a destination with port zero or the
    /// unspecified address names no endpoint a datagram could reach.
    InvalidInput,
    /// The handle has no local address yet.
    NotBound,
    /// The handle has no peer to exchange data with.
    NotConnected,
    /// Another socket already occupies the requested port.
    AddrInUse,
    /// The operation cannot make progress right now; the caller must
    /// re-poll after the interface driver has advanced the stack.
    WouldBlock,
    /// No listener is reachable at the destination address.
    ConnectionRefused,
    /// The resolver has no entry for the requested host name.
    HostNotFound,
}

/// A point-in-time readiness snapshot for one handle.
///
/// This is not a subscription: the snapshot describes the moment of the
/// call only, and callers must poll again for updated state.
#[derive(Clone, Copy, Debug, PartialEq, Eq, Structural)]
pub struct AxPollState {
    /// A receive (or accept, for a listener) can currently make progress.
    pub readable: bool,
    /// A send can currently make progress.
    pub writable: bool,
}

} // verus!
