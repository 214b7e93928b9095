use axsock::addr::GenericAddress;
use axsock::addr::GenericIpAddr;
use axsock::addr::InternalIpAddr;
use axsock::driver::ax_poll_interfaces;
use axsock::errors::SocketError;
use axsock::resolver::ax_get_addr_info;
use axsock::stack::NetStack;

fn v4(o0: u8, o1: u8, o2: u8, o3: u8, port: u16) -> GenericAddress {
    GenericAddress { ip: GenericIpAddr::V4 { o0, o1, o2, o3 }, port }
}

#[test]
fn resolve_attaches_the_callers_port_to_every_address() {
    let mut stack = NetStack::new();
    stack.add_host_entry(
        String::from("host"),
        vec![
            InternalIpAddr { o0: 93, o1: 184, o2: 216, o3: 34 },
            InternalIpAddr { o0: 10, o1: 0, o2: 0, o3: 1 },
        ],
    );
    let addrs = ax_get_addr_info(&stack, "host", Some(53)).unwrap();
    assert_eq!(addrs.len(), 2);
    for a in &addrs {
        assert_eq!(a.port, 53);
    }
    assert_eq!(addrs[0], v4(93, 184, 216, 34, 53));
    assert_eq!(addrs[1], v4(10, 0, 0, 1, 53));
}

#[test]
fn resolve_without_a_port_attaches_zero() {
    let mut stack = NetStack::new();
    stack.add_host_entry(String::from("host"), vec![InternalIpAddr { o0: 1, o1: 2, o2: 3, o3: 4 }]);
    let addrs = ax_get_addr_info(&stack, "host", None).unwrap();
    assert_eq!(addrs, vec![v4(1, 2, 3, 4, 0)]);
}

#[test]
fn resolve_unknown_host_reports_not_found() {
    let stack = NetStack::new();
    match ax_get_addr_info(&stack, "nowhere", Some(80)) {
        Err(SocketError::HostNotFound) => {}
        other => panic!("unknown host must not resolve, got {:?}", other.map(|v| v.len())),
    }
}

#[test]
fn resolve_picks_the_first_entry_for_a_name() {
    let mut stack = NetStack::new();
    stack.add_host_entry(String::from("host"), vec![InternalIpAddr { o0: 1, o1: 1, o2: 1, o3: 1 }]);
    stack.add_host_entry(String::from("host"), vec![InternalIpAddr { o0: 2, o1: 2, o2: 2, o3: 2 }]);
    let addrs = ax_get_addr_info(&stack, "host", Some(7)).unwrap();
    assert_eq!(addrs, vec![v4(1, 1, 1, 1, 7)]);
}

#[test]
fn driver_step_always_succeeds_and_moves_staged_traffic() {
    let mut stack = NetStack::new();
    assert_eq!(ax_poll_interfaces(&mut stack), Ok(()));
    let tx = axsock::datagram::ax_udp_bind(&mut stack, &v4(0, 0, 0, 0, 9000)).unwrap();
    axsock::datagram::ax_udp_send_to(&tx, &mut stack, &[1, 2], &v4(127, 0, 0, 1, 9001)).unwrap();
    assert_eq!(stack.out_datagrams.len(), 1);
    assert_eq!(stack.inflight_datagrams.len(), 0);
    assert_eq!(ax_poll_interfaces(&mut stack), Ok(()));
    assert_eq!(stack.out_datagrams.len(), 0);
    assert_eq!(stack.inflight_datagrams.len(), 1);
}
