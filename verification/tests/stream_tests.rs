use axsock::addr::GenericAddress;
use axsock::addr::GenericIpAddr;
use axsock::driver::ax_poll_interfaces;
use axsock::errors::SocketError;
use axsock::stack::NetStack;
use axsock::stream::AxTcpSocketHandle;
use axsock::stream::StreamState;
use axsock::stream::ax_tcp_accept;
use axsock::stream::ax_tcp_bind;
use axsock::stream::ax_tcp_connect;
use axsock::stream::ax_tcp_listen;
use axsock::stream::ax_tcp_peer_addr;
use axsock::stream::ax_tcp_poll;
use axsock::stream::ax_tcp_recv;
use axsock::stream::ax_tcp_send;
use axsock::stream::ax_tcp_set_nonblocking;
use axsock::stream::ax_tcp_shutdown;
use axsock::stream::ax_tcp_socket;
use axsock::stream::ax_tcp_socket_addr;

fn v4(o0: u8, o1: u8, o2: u8, o3: u8, port: u16) -> GenericAddress {
    GenericAddress { ip: GenericIpAddr::V4 { o0, o1, o2, o3 }, port }
}

fn v6(port: u16) -> GenericAddress {
    GenericAddress {
        ip: GenericIpAddr::V6 { s0: 0, s1: 0, s2: 0, s3: 0, s4: 0, s5: 0, s6: 0, s7: 1 },
        port,
    }
}

/// Starts a connect and carries the handshake through: stage, drive,
/// then poll until the handle observes completion.
fn connect_completed(h: &mut AxTcpSocketHandle, stack: &mut NetStack, addr: &GenericAddress) {
    assert_eq!(ax_tcp_connect(h, stack, addr), Err(SocketError::WouldBlock));
    assert_eq!(h.state, StreamState::Connecting);
    ax_poll_interfaces(stack).unwrap();
    ax_tcp_poll(h, stack).unwrap();
    assert_eq!(h.state, StreamState::Connected);
}

#[test]
fn new_handle_is_unbound_and_blocking() {
    let h = ax_tcp_socket();
    assert_eq!(h.state, StreamState::Unbound);
    assert!(!h.nonblocking);
    assert_eq!(ax_tcp_socket_addr(&h), Err(SocketError::NotBound));
    assert_eq!(ax_tcp_peer_addr(&h), Err(SocketError::NotConnected));
}

#[test]
fn send_and_recv_before_connected_fail_without_stack_call() {
    let mut stack = NetStack::new();
    let h = ax_tcp_socket();
    assert_eq!(ax_tcp_send(&h, &mut stack, &[1, 2, 3]), Err(SocketError::NotConnected));
    let mut buf = vec![0u8; 4];
    assert_eq!(ax_tcp_recv(&h, &mut stack, &mut buf), Err(SocketError::NotConnected));
    // the stack saw nothing: nothing was staged or consumed
    assert!(stack.out_segments.is_empty());
    assert!(stack.inflight_segments.is_empty());
    assert_eq!(buf, vec![0u8; 4]);
}

#[test]
fn send_while_still_connecting_fails_with_state_error() {
    let mut stack = NetStack::new();
    let mut listener = ax_tcp_socket();
    ax_tcp_bind(&mut listener, &mut stack, &v4(0, 0, 0, 0, 8080)).unwrap();
    ax_tcp_listen(&mut listener, &mut stack, 16).unwrap();
    let mut client = ax_tcp_socket();
    assert_eq!(
        ax_tcp_connect(&mut client, &mut stack, &v4(127, 0, 0, 1, 8080)),
        Err(SocketError::WouldBlock)
    );
    assert_eq!(client.state, StreamState::Connecting);
    let staged = stack.out_segments.len();
    assert_eq!(ax_tcp_send(&client, &mut stack, &[1]), Err(SocketError::NotConnected));
    assert_eq!(stack.out_segments.len(), staged);
}

#[test]
fn handshake_completes_only_after_the_driver_runs() {
    let mut stack = NetStack::new();
    let mut listener = ax_tcp_socket();
    ax_tcp_bind(&mut listener, &mut stack, &v4(0, 0, 0, 0, 8080)).unwrap();
    ax_tcp_listen(&mut listener, &mut stack, 16).unwrap();
    let mut client = ax_tcp_socket();
    assert_eq!(
        ax_tcp_connect(&mut client, &mut stack, &v4(127, 0, 0, 1, 8080)),
        Err(SocketError::WouldBlock)
    );
    // polling before the driver ran observes no completion
    let idle = ax_tcp_poll(&mut client, &mut stack).unwrap();
    assert_eq!(client.state, StreamState::Connecting);
    assert!(!idle.writable);
    ax_poll_interfaces(&mut stack).unwrap();
    let ready = ax_tcp_poll(&mut client, &mut stack).unwrap();
    assert_eq!(client.state, StreamState::Connected);
    assert!(ready.writable);
}

#[test]
fn bind_listen_accept_with_nothing_pending_would_block() {
    let mut stack = NetStack::new();
    let mut h = ax_tcp_socket();
    assert_eq!(ax_tcp_bind(&mut h, &mut stack, &v4(0, 0, 0, 0, 8080)), Ok(()));
    assert_eq!(h.state, StreamState::Bound);
    assert_eq!(ax_tcp_listen(&mut h, &mut stack, 16), Ok(()));
    assert_eq!(h.state, StreamState::Listening);
    assert_eq!(ax_tcp_set_nonblocking(&mut h, true), Ok(()));
    match ax_tcp_accept(&h, &mut stack) {
        Err(SocketError::WouldBlock) => {}
        other => panic!("accept with nothing pending must would-block, got {:?}", other.map(|_| ())),
    }
}

#[test]
fn bind_twice_is_a_state_error() {
    let mut stack = NetStack::new();
    let mut h = ax_tcp_socket();
    assert_eq!(ax_tcp_bind(&mut h, &mut stack, &v4(0, 0, 0, 0, 8080)), Ok(()));
    assert_eq!(ax_tcp_bind(&mut h, &mut stack, &v4(0, 0, 0, 0, 8081)), Err(SocketError::InvalidState));
}

#[test]
fn bind_to_occupied_port_reports_addr_in_use() {
    let mut stack = NetStack::new();
    let mut a = ax_tcp_socket();
    let mut b = ax_tcp_socket();
    assert_eq!(ax_tcp_bind(&mut a, &mut stack, &v4(0, 0, 0, 0, 8080)), Ok(()));
    assert_eq!(ax_tcp_bind(&mut b, &mut stack, &v4(127, 0, 0, 1, 8080)), Err(SocketError::AddrInUse));
    assert_eq!(b.state, StreamState::Unbound);
}

#[test]
fn bind_to_port_zero_allocates_an_ephemeral_port() {
    let mut stack = NetStack::new();
    let mut a = ax_tcp_socket();
    let mut b = ax_tcp_socket();
    assert_eq!(ax_tcp_bind(&mut a, &mut stack, &v4(0, 0, 0, 0, 0)), Ok(()));
    assert_eq!(ax_tcp_socket_addr(&a), Ok(v4(0, 0, 0, 0, 49152)));
    assert_eq!(ax_tcp_bind(&mut b, &mut stack, &v4(0, 0, 0, 0, 0)), Ok(()));
    assert_eq!(ax_tcp_socket_addr(&b), Ok(v4(0, 0, 0, 0, 49153)));
}

#[test]
fn bind_ipv6_rejected() {
    let mut stack = NetStack::new();
    let mut h = ax_tcp_socket();
    assert_eq!(ax_tcp_bind(&mut h, &mut stack, &v6(8080)), Err(SocketError::UnsupportedAddressFamily));
    assert_eq!(h.state, StreamState::Unbound);
}

#[test]
fn connect_without_listener_is_refused() {
    let mut stack = NetStack::new();
    let mut h = ax_tcp_socket();
    assert_eq!(
        ax_tcp_connect(&mut h, &mut stack, &v4(127, 0, 0, 1, 4444)),
        Err(SocketError::ConnectionRefused)
    );
    assert_eq!(h.state, StreamState::Unbound);
}

#[test]
fn connect_ipv6_rejected() {
    let mut stack = NetStack::new();
    let mut h = ax_tcp_socket();
    assert_eq!(ax_tcp_connect(&mut h, &mut stack, &v6(4444)), Err(SocketError::UnsupportedAddressFamily));
}

#[test]
fn listen_before_bind_is_a_state_error() {
    let mut stack = NetStack::new();
    let mut h = ax_tcp_socket();
    assert_eq!(ax_tcp_listen(&mut h, &mut stack, 16), Err(SocketError::InvalidState));
}

#[test]
fn accept_on_unbound_handle_is_a_state_error() {
    let mut stack = NetStack::new();
    let h = ax_tcp_socket();
    match ax_tcp_accept(&h, &mut stack) {
        Err(SocketError::InvalidState) => {}
        other => panic!("expected a state error, got {:?}", other.map(|_| ())),
    }
}

#[test]
fn accepted_handle_is_always_connected_and_blocking() {
    let mut stack = NetStack::new();
    let mut listener = ax_tcp_socket();
    ax_tcp_bind(&mut listener, &mut stack, &v4(0, 0, 0, 0, 8080)).unwrap();
    ax_tcp_listen(&mut listener, &mut stack, 16).unwrap();
    ax_tcp_set_nonblocking(&mut listener, true).unwrap();

    let mut client = ax_tcp_socket();
    assert_eq!(
        ax_tcp_connect(&mut client, &mut stack, &v4(127, 0, 0, 1, 8080)),
        Err(SocketError::WouldBlock)
    );

    // the handshake becomes visible to the listener once the driver runs
    match ax_tcp_accept(&listener, &mut stack) {
        Err(SocketError::WouldBlock) => {}
        other => panic!("undriven handshake must not be acceptable, got {:?}", other.map(|_| ())),
    }
    ax_poll_interfaces(&mut stack).unwrap();
    let (server, peer) = ax_tcp_accept(&listener, &mut stack).unwrap();
    assert_eq!(server.state, StreamState::Connected);
    // a fresh accepted handle starts in blocking mode, whatever the listener's
    assert!(!server.nonblocking);
    assert_eq!(peer, v4(127, 0, 0, 1, 49152));
    assert_eq!(ax_tcp_socket_addr(&server), Ok(v4(127, 0, 0, 1, 8080)));
    assert_eq!(ax_tcp_peer_addr(&server), Ok(v4(127, 0, 0, 1, 49152)));

    ax_tcp_poll(&mut client, &mut stack).unwrap();
    assert_eq!(client.state, StreamState::Connected);
    assert_eq!(ax_tcp_peer_addr(&client), Ok(v4(127, 0, 0, 1, 8080)));
}

#[test]
fn stream_data_flows_both_ways() {
    let mut stack = NetStack::new();
    let mut listener = ax_tcp_socket();
    ax_tcp_bind(&mut listener, &mut stack, &v4(0, 0, 0, 0, 8080)).unwrap();
    ax_tcp_listen(&mut listener, &mut stack, 16).unwrap();
    let mut client = ax_tcp_socket();
    connect_completed(&mut client, &mut stack, &v4(127, 0, 0, 1, 8080));
    let (server, _) = ax_tcp_accept(&listener, &mut stack).unwrap();

    assert_eq!(ax_tcp_send(&client, &mut stack, b"hello"), Ok(5));
    ax_poll_interfaces(&mut stack).unwrap();
    let mut buf = vec![0u8; 8];
    assert_eq!(ax_tcp_recv(&server, &mut stack, &mut buf), Ok(5));
    assert_eq!(&buf[..5], b"hello");
    assert_eq!(buf.len(), 8);

    assert_eq!(ax_tcp_send(&server, &mut stack, b"ok"), Ok(2));
    ax_poll_interfaces(&mut stack).unwrap();
    let mut reply = vec![0u8; 2];
    assert_eq!(ax_tcp_recv(&client, &mut stack, &mut reply), Ok(2));
    assert_eq!(reply, b"ok".to_vec());
}

#[test]
fn short_buffer_leaves_segment_remainder_in_order() {
    let mut stack = NetStack::new();
    let mut listener = ax_tcp_socket();
    ax_tcp_bind(&mut listener, &mut stack, &v4(0, 0, 0, 0, 8080)).unwrap();
    ax_tcp_listen(&mut listener, &mut stack, 16).unwrap();
    let mut client = ax_tcp_socket();
    connect_completed(&mut client, &mut stack, &v4(127, 0, 0, 1, 8080));
    let (server, _) = ax_tcp_accept(&listener, &mut stack).unwrap();

    assert_eq!(ax_tcp_send(&client, &mut stack, b"abcde"), Ok(5));
    ax_poll_interfaces(&mut stack).unwrap();
    let mut buf = vec![0u8; 3];
    assert_eq!(ax_tcp_recv(&server, &mut stack, &mut buf), Ok(3));
    assert_eq!(buf, b"abc".to_vec());
    assert_eq!(ax_tcp_recv(&server, &mut stack, &mut buf), Ok(2));
    assert_eq!(&buf[..2], b"de");
}

#[test]
fn recv_with_no_data_would_blocks_and_never_hangs() {
    let mut stack = NetStack::new();
    let mut listener = ax_tcp_socket();
    ax_tcp_bind(&mut listener, &mut stack, &v4(0, 0, 0, 0, 8080)).unwrap();
    ax_tcp_listen(&mut listener, &mut stack, 16).unwrap();
    let mut client = ax_tcp_socket();
    ax_tcp_set_nonblocking(&mut client, true).unwrap();
    connect_completed(&mut client, &mut stack, &v4(127, 0, 0, 1, 8080));
    let mut buf = vec![0u8; 4];
    assert_eq!(ax_tcp_recv(&client, &mut stack, &mut buf), Err(SocketError::WouldBlock));
    assert_eq!(buf, vec![0u8; 4]);
}

#[test]
fn poll_reflects_pending_and_connected_readiness() {
    let mut stack = NetStack::new();
    let mut listener = ax_tcp_socket();
    ax_tcp_bind(&mut listener, &mut stack, &v4(0, 0, 0, 0, 8080)).unwrap();
    ax_tcp_listen(&mut listener, &mut stack, 16).unwrap();
    let idle = ax_tcp_poll(&mut listener, &mut stack).unwrap();
    assert!(!idle.readable);
    assert!(!idle.writable);

    let mut client = ax_tcp_socket();
    assert_eq!(
        ax_tcp_connect(&mut client, &mut stack, &v4(127, 0, 0, 1, 8080)),
        Err(SocketError::WouldBlock)
    );
    ax_poll_interfaces(&mut stack).unwrap();
    let ready = ax_tcp_poll(&mut listener, &mut stack).unwrap();
    assert!(ready.readable);

    let client_state = ax_tcp_poll(&mut client, &mut stack).unwrap();
    assert!(client_state.writable);
    assert!(!client_state.readable);
}

#[test]
fn shutdown_closes_clears_addresses_and_frees_the_port() {
    let mut stack = NetStack::new();
    let mut h = ax_tcp_socket();
    ax_tcp_bind(&mut h, &mut stack, &v4(0, 0, 0, 0, 8080)).unwrap();
    ax_tcp_listen(&mut h, &mut stack, 16).unwrap();
    assert_eq!(ax_tcp_shutdown(&mut h, &mut stack), Ok(()));
    assert_eq!(h.state, StreamState::Closed);
    assert_eq!(ax_tcp_send(&h, &mut stack, b"x"), Err(SocketError::NotConnected));
    let mut buf = vec![0u8; 1];
    assert_eq!(ax_tcp_recv(&h, &mut stack, &mut buf), Err(SocketError::NotConnected));

    // the addresses are cleared: the getters no longer report them
    assert_eq!(ax_tcp_socket_addr(&h), Err(SocketError::NotBound));
    assert_eq!(ax_tcp_peer_addr(&h), Err(SocketError::NotConnected));

    // the registrations are gone: the port can be bound again
    let mut again = ax_tcp_socket();
    assert_eq!(ax_tcp_bind(&mut again, &mut stack, &v4(0, 0, 0, 0, 8080)), Ok(()));
}

#[test]
fn shutdown_clears_peer_of_a_connected_handle() {
    let mut stack = NetStack::new();
    let mut listener = ax_tcp_socket();
    ax_tcp_bind(&mut listener, &mut stack, &v4(0, 0, 0, 0, 8080)).unwrap();
    ax_tcp_listen(&mut listener, &mut stack, 16).unwrap();
    let mut client = ax_tcp_socket();
    connect_completed(&mut client, &mut stack, &v4(127, 0, 0, 1, 8080));
    assert_eq!(ax_tcp_shutdown(&mut client, &mut stack), Ok(()));
    assert_eq!(ax_tcp_socket_addr(&client), Err(SocketError::NotBound));
    assert_eq!(ax_tcp_peer_addr(&client), Err(SocketError::NotConnected));
}

#[test]
fn shutdown_on_unbound_handle_is_a_state_error() {
    let mut stack = NetStack::new();
    let mut h = ax_tcp_socket();
    assert_eq!(ax_tcp_shutdown(&mut h, &mut stack), Err(SocketError::InvalidState));
    assert_eq!(ax_tcp_shutdown(&mut h, &mut stack), Err(SocketError::InvalidState));
}
