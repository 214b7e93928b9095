use vstd::prelude::*;

use crate::addr::GenericAddress;
use crate::addr::InternalIpAddr;
use crate::addr::spec_port_or;
use crate::addr::spec_to_generic_ip;
use crate::addr::to_generic_ip;
use crate::errors::SocketError;
use crate::stack::HostEntry;
use crate::stack::NetStack;

verus! {

/// The resolver table entry whose name matches, if any: the first one.
pub fn find_host(v: &Vec<HostEntry>, name: &String) -> (r: Option<usize>)
    ensures
        match r {
            Some(i) => i < v@.len() && v@[i as int].name@ == name@ && forall|k: int|
                0 <= k < i ==> v@[k].name@ != name@,
            None => forall|k: int| 0 <= k < v@.len() ==> v@[k].name@ != name@,
        },
{
    let mut i: usize = 0;
    while i < v.len()
        invariant
            i <= v@.len(),
            forall|k: int| 0 <= k < i ==> v@[k].name@ != name@,
        decreases v@.len() - i,
    {
        if v[i].name == *name {
            return Some(i);
        }
        i += 1;
    }
    None
}

/// Maps the stack resolver's portless results into caller-facing
/// addresses, attaching the caller's port — or 0 when none was supplied —
/// to every one.
pub fn attach_port(addrs: &Vec<InternalIpAddr>, port: Option<u16>) -> (r: Vec<GenericAddress>)
    ensures
        r@.len() == addrs@.len(),
        forall|j: int|
            0 <= j < r@.len() ==> r@[j] == (GenericAddress {
                ip: spec_to_generic_ip(addrs@[j]),
                port: spec_port_or(port, 0),
            }),
{
    let p: u16 = match port {
        Some(v) => v,
        None => 0,
    };
    let mut r: Vec<GenericAddress> = Vec::new();
    let mut i: usize = 0;
    while i < addrs.len()
        invariant
            i <= addrs@.len(),
            r@.len() == i,
            p == spec_port_or(port, 0),
            forall|j: int|
                0 <= j < i ==> r@[j] == (GenericAddress {
                    ip: spec_to_generic_ip(addrs@[j]),
                    port: spec_port_or(port, 0),
                }),
        decreases addrs@.len() - i,
    {
        let ip = to_generic_ip(&addrs[i]);
        r.push(GenericAddress { ip, port: p });
        i += 1;
    }
    r
}

/// Resolves a host name through the stack's resolver table and returns
/// every address it maps to, in table order, each carrying the
/// caller-supplied port — or port 0 when none was supplied — since the
/// stack resolver itself does not associate ports with host names.
/// A name the table does not hold is reported as not found.
pub fn ax_get_addr_info(stack: &NetStack, domain_name: &str, port: Option<u16>) -> (r: Result<
    Vec<GenericAddress>,
    SocketError,
>)
    ensures
        (forall|k: int| 0 <= k < stack.hosts@.len() ==> stack.hosts@[k].name@ != domain_name@)
            ==> r == Err::<Vec<GenericAddress>, SocketError>(SocketError::HostNotFound),
        (exists|k: int| 0 <= k < stack.hosts@.len() && stack.hosts@[k].name@ == domain_name@)
            ==> (exists|i: int|
            {
                let entry = stack.hosts@[i];
                &&& 0 <= i < stack.hosts@.len()
                &&& #[trigger] stack.hosts@[i].name@ == domain_name@
                &&& forall|k: int| 0 <= k < i ==> stack.hosts@[k].name@ != domain_name@
                &&& r is Ok
                &&& (r->Ok_0)@.len() == entry.addrs@.len()
                &&& forall|j: int|
                    0 <= j < entry.addrs@.len() ==> (r->Ok_0)@[j] == (GenericAddress {
                        ip: spec_to_generic_ip(entry.addrs@[j]),
                        port: spec_port_or(port, 0),
                    })
            }),
{
    let owned = domain_name.to_owned();
    match find_host(&stack.hosts, &owned) {
        None => Err(SocketError::HostNotFound),
        Some(i) => {
            let addrs = attach_port(&stack.hosts[i].addrs, port);
            Ok(addrs)
        },
    }
}

} // verus!
