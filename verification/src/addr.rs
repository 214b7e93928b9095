use vstd::prelude::*;

use crate::errors::SocketError;

verus! {

/// A caller-facing IP address: a tagged union of the IPv4 and IPv6 forms.
#[derive(Clone, Copy, Debug, PartialEq, Eq, Structural)]
pub enum GenericIpAddr {
    /// An IPv4 address as four octets.
    V4 { o0: u8, o1: u8, o2: u8, o3: u8 },
    /// An IPv6 address as eight 16-bit segments.
    V6 { s0: u16, s1: u16, s2: u16, s3: u16, s4: u16, s5: u16, s6: u16, s7: u16 },
}

/// A caller-facing socket address: an IP address of either family plus a port.
#[derive(Clone, Copy, Debug, PartialEq, Eq, Structural)]
pub struct GenericAddress {
    pub ip: GenericIpAddr,
    pub port: u16,
}

/// An IP address in the internal stack's representation.
/// The stack supports a single family, so this is always four octets.
#[derive(Clone, Copy, Debug, PartialEq, Eq, Structural)]
pub struct InternalIpAddr {
    pub o0: u8,
    pub o1: u8,
    pub o2: u8,
    pub o3: u8,
}

/// A socket address in the internal stack's representation.
#[derive(Clone, Copy, Debug, PartialEq, Eq, Structural)]
pub struct InternalAddress {
    pub ip: InternalIpAddr,
    pub port: u16,
}

/// The internal octets of an IPv4-form generic address.
/// (The IPv6 arm yields a placeholder; the executable translator never
/// uses it, since it rejects that family before converting.)
pub open spec fn spec_to_internal_ip(ip: GenericIpAddr) -> InternalIpAddr {
    match ip {
        GenericIpAddr::V4 { o0, o1, o2, o3 } => InternalIpAddr { o0, o1, o2, o3 },
        GenericIpAddr::V6 { .. } => InternalIpAddr { o0: 0, o1: 0, o2: 0, o3: 0 },
    }
}

/// The generic form of an internal IP address: always the IPv4 arm,
/// carrying the same four octets.
pub open spec fn spec_to_generic_ip(ip: InternalIpAddr) -> GenericIpAddr {
    GenericIpAddr::V4 { o0: ip.o0, o1: ip.o1, o2: ip.o2, o3: ip.o3 }
}

/// The internal form of an IPv4-form generic socket address.
pub open spec fn spec_to_internal(a: GenericAddress) -> InternalAddress {
    InternalAddress { ip: spec_to_internal_ip(a.ip), port: a.port }
}

/// The port an optional override selects: the override when present,
/// otherwise the given default.
pub open spec fn spec_port_or(p: Option<u16>, dflt: u16) -> u16 {
    match p {
        Some(v) => v,
        None => dflt,
    }
}

/// The generic form of an internal socket address. The port is taken from
/// the address unless the caller substitutes one (used by resolution,
/// where the stack returns addresses without a meaningful port).
pub open spec fn spec_to_generic(a: InternalAddress, port_override: Option<u16>) -> GenericAddress {
    GenericAddress { ip: spec_to_generic_ip(a.ip), port: spec_port_or(port_override, a.port) }
}

/// Translates a generic IP address into the stack's representation.
/// Only the IPv4 form can be represented; the IPv6 form is rejected with
/// a typed error rather than treated as a fatal invariant break.
pub fn to_internal_ip(ip: &GenericIpAddr) -> (r: Result<InternalIpAddr, SocketError>)
    ensures
        ip is V4 ==> r == Ok::<InternalIpAddr, SocketError>(spec_to_internal_ip(*ip)),
        !(ip is V4) ==> r == Err::<InternalIpAddr, SocketError>(
            SocketError::UnsupportedAddressFamily,
        ),
{
    match ip {
        GenericIpAddr::V4 { o0, o1, o2, o3 } => Ok(
            InternalIpAddr { o0: *o0, o1: *o1, o2: *o2, o3: *o3 },
        ),
        GenericIpAddr::V6 { .. } => Err(SocketError::UnsupportedAddressFamily),
    }
}

/// Translates an internal IP address back to the generic form.
/// Total: every internal address has an IPv4 generic form with the same octets.
pub fn to_generic_ip(ip: &InternalIpAddr) -> (r: GenericIpAddr)
    ensures
        r == spec_to_generic_ip(*ip),
{
    GenericIpAddr::V4 { o0: ip.o0, o1: ip.o1, o2: ip.o2, o3: ip.o3 }
}

/// Translates a generic socket address into the stack's representation,
/// rejecting any family the stack cannot carry.
pub fn to_internal(addr: &GenericAddress) -> (r: Result<InternalAddress, SocketError>)
    ensures
        addr.ip is V4 ==> r == Ok::<InternalAddress, SocketError>(spec_to_internal(*addr)),
        !(addr.ip is V4) ==> r == Err::<InternalAddress, SocketError>(
            SocketError::UnsupportedAddressFamily,
        ),
{
    match to_internal_ip(&addr.ip) {
        Ok(ip) => Ok(InternalAddress { ip, port: addr.port }),
        Err(e) => Err(e),
    }
}

/// Translates an internal socket address back to the generic form.
/// Total: reproduces the IPv4 octets exactly; the port is the address's own
/// unless the caller substitutes a default.
pub fn to_generic(addr: &InternalAddress, port_override: Option<u16>) -> (r: GenericAddress)
    ensures
        r == spec_to_generic(*addr, port_override),
{
    let port: u16 = match port_override {
        Some(p) => p,
        None => addr.port,
    };
    GenericAddress { ip: to_generic_ip(&addr.ip), port }
}

/// Round-trip law: translating an IPv4 generic address into the internal
/// representation and back reproduces the original address exactly,
/// octets and port included.
pub proof fn lemma_translation_round_trip(a: GenericAddress)
    requires
        a.ip is V4,
    ensures
        spec_to_generic(spec_to_internal(a), None) == a,
{
}

} // verus!
