//! A verified socket abstraction layer.
//!
//! The layer sits between a family-agnostic caller-facing socket API and
//! an internal network stack that understands a single address family.
//! It owns the bidirectional address translation and its family
//! restriction, the lifecycle of stream and datagram socket handles, the
//! exclusive-access discipline on datagram handles, and the explicit
//! entry point that drives the stack's internal processing forward.
//!
//! The stack's own state is an explicitly passed [`stack::NetStack`]
//! context, so ownership and initialization order are visible in every
//! signature. The stack has no background execution context: an external
//! scheduling loop must repeatedly invoke
//! [`driver::ax_poll_interfaces`], and operations that cannot progress
//! return a would-block indication instead of suspending, which the
//! caller answers by driving the stack and polling again.

use vstd::prelude::*;

pub mod addr;
pub mod datagram;
pub mod driver;
pub mod errors;
pub mod resolver;
pub mod stack;
pub mod stream;

verus! {

/// The caller-visible union of the two handle kinds, letting generic
/// code hold either behind one type.
pub enum AxSocketHandle {
    Tcp(crate::stream::AxTcpSocketHandle),
    Udp(crate::datagram::AxUdpSocketHandle),
}

} // verus!
