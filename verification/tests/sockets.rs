use wasmx::engine::wasi::sockets::tcp::{SocketView,
    duration_nanos, keep_alive_count_arg, keep_alive_idle_time_arg, keep_alive_interval_arg,
    TcpSocket, TcpState, DEFAULT_BACKLOG, MAX_BACKLOG,
};
use wasmx::engine::wasi::sockets::{ErrorCode, IpAddressFamily, SocketAddressFamily};

type State = TcpState<&'static str, &'static str, &'static str, &'static str, &'static str>;

#[test]
fn bind_then_listen_then_accept() {
    let mut s: State = TcpState::Default("sock");
    assert_eq!(s.start_bind(true, |_| Ok(())), Ok(()));
    assert!(matches!(s, TcpState::BindStarted("sock")));
    assert_eq!(s.finish_bind(), Ok(()));
    assert!(matches!(s, TcpState::Bound("sock")));
    assert_eq!(s.finish_bind(), Err(ErrorCode::NotInProgress));
    assert_eq!(s.start_listen(5, |_, n| if n == 5 { Ok("listener") } else { Err(ErrorCode::Unknown) }), Ok(()));
    assert!(matches!(s, TcpState::ListenStarted("listener")));
    assert_eq!(s.start_listen(5, |_, _| Ok("again")), Err(ErrorCode::ConcurrencyConflict));
    assert_eq!(s.finish_listen(), Ok(()));
    assert!(s.is_listening());
    assert_eq!(s.accept(|_| None), Err(ErrorCode::WouldBlock));
    assert_eq!(s.accept(|_| Some(Ok("conn"))), Ok("conn"));
}

#[test]
fn invalid_addresses_and_states() {
    let mut s: State = TcpState::Default("sock");
    assert_eq!(s.start_bind(false, |_| Ok(())), Err(ErrorCode::InvalidArgument));
    assert_eq!(s.start_bind(true, |_| Err(ErrorCode::AddressInUse)), Err(ErrorCode::AddressInUse));
    assert!(matches!(s, TcpState::Default("sock")));
    assert_eq!(s.start_listen(1, |_, _| Ok("l")), Err(ErrorCode::InvalidState));
    assert_eq!(s.accept(|_| None), Err(ErrorCode::InvalidState));
    let mut closed: State = TcpState::Closed;
    assert_eq!(closed.start_bind(true, |_| Ok(())), Err(ErrorCode::InvalidState));
}

#[test]
fn failed_listen_closes_socket() {
    let mut s: State = TcpState::Bound("sock");
    assert_eq!(s.start_listen(1, |_, _| Err(ErrorCode::AccessDenied)), Err(ErrorCode::AccessDenied));
    assert!(matches!(s, TcpState::Closed));
}

#[test]
fn connect() {
    let mut s: State = TcpState::Default("sock");
    assert_eq!(s.start_connect(true, |_| "pending"), Ok(()));
    assert_eq!(s.finish_connect(|f| Err(f), |_| ()), Err(ErrorCode::WouldBlock));
    assert!(matches!(s, TcpState::ConnectStarted("pending")));
    assert_eq!(s.finish_connect(|_| Ok(Ok("stream")), |t| t.len()), Ok(6));
    assert!(matches!(s, TcpState::Connected("stream")));
    assert!(s.remote_address().is_ok());
    let mut refused: State = TcpState::ConnectReady(Err(ErrorCode::ConnectionRefused));
    assert_eq!(refused.finish_connect(|_| unreachable!(), |_| ()), Err(ErrorCode::ConnectionRefused));
    assert!(matches!(refused, TcpState::Closed));
}

#[test]
fn socket_wrapper() {
    let mut sock = TcpSocket::from_state(TcpState::<&str, &str, &str, &str, &str>::Bound("s"), SocketAddressFamily::Ipv6);
    assert_eq!(sock.listen_backlog_size, DEFAULT_BACKLOG);
    assert_eq!(sock.address_family(), IpAddressFamily::Ipv6);
    assert_eq!(sock.set_listen_backlog_size(0, |_, _| true), Err(ErrorCode::InvalidArgument));
    assert_eq!(sock.set_listen_backlog_size(10, |_, _| true), Ok(()));
    assert_eq!(sock.listen_backlog_size, 10);
    assert_eq!(sock.start_listen(|_, n| if n == 10 { Ok("l") } else { Err(ErrorCode::Unknown) }), Ok(()));
    assert_eq!(sock.tcp_state.finish_listen(), Ok(()));
    assert_eq!(sock.set_listen_backlog_size(u64::MAX, |_, n| n == MAX_BACKLOG as i32), Ok(()));
    assert_eq!(sock.listen_backlog_size, MAX_BACKLOG);
    match sock.accept(|_| Some(Ok("a")), |a| (a, 7)) {
        Ok((child, streams)) => {
            assert_eq!(streams, 7);
            assert_eq!(child.family, SocketAddressFamily::Ipv6);
            assert!(matches!(child.tcp_state, TcpState::Connected("a")));
        }
        Err(_) => panic!("accept failed"),
    }
}

#[test]
fn keep_alive_arguments() {
    assert_eq!(keep_alive_idle_time_arg(0), Err(ErrorCode::InvalidArgument));
    assert_eq!(keep_alive_idle_time_arg(1), Ok(1_000_000_000));
    assert_eq!(keep_alive_idle_time_arg(5_000_000_000), Ok(5_000_000_000));
    assert_eq!(keep_alive_idle_time_arg(u64::MAX), Ok(32_767_000_000_000));
    assert_eq!(keep_alive_interval_arg(2_000_000_000), Ok(2_000_000_000));
    assert_eq!(keep_alive_count_arg(0), Err(ErrorCode::InvalidArgument));
    assert_eq!(keep_alive_count_arg(200), Ok(127));
    assert_eq!(keep_alive_count_arg(3), Ok(3));
    assert_eq!(duration_nanos(5), 5);
    assert_eq!(duration_nanos(u128::MAX), u64::MAX);
}

#[test]
fn socket_options_need_a_descriptor() {
    let sock = TcpSocket::from_state(TcpState::<&str, &str, &str, &str, &str>::Listening { listener: "l", pending_accept: None }, SocketAddressFamily::Ipv4);
    let r = sock.socket_option(|v| match v {
        SocketView::Listener(l) => Ok(l.len() as u64),
        _ => Err(ErrorCode::Unknown),
    });
    assert_eq!(r, Ok(1));
    assert_eq!(sock.set_keep_alive_idle_time(0, |_, _| Ok(())), Err(ErrorCode::InvalidArgument));
    assert_eq!(sock.set_keep_alive_idle_time(5, |_, n| if n == 1_000_000_000 { Ok(()) } else { Err(ErrorCode::Unknown) }), Ok(()));
    assert_eq!(sock.set_keep_alive_interval(u64::MAX, |_, n| if n == 32_767_000_000_000 { Ok(()) } else { Err(ErrorCode::Unknown) }), Ok(()));
    assert_eq!(sock.set_keep_alive_count(500, |_, n| if n == 127 { Ok(()) } else { Err(ErrorCode::Unknown) }), Ok(()));
    assert_eq!(sock.keep_alive_duration(|_| Ok(u128::MAX)), Ok(u64::MAX));
    assert_eq!(sock.keep_alive_duration(|_| Ok(7)), Ok(7));

    let closed = TcpSocket::from_state(TcpState::<&str, &str, &str, &str, &str>::Closed, SocketAddressFamily::Ipv4);
    assert_eq!(closed.socket_option(|_| Ok(())), Err(ErrorCode::InvalidState));
    // The state is checked before the value.
    assert_eq!(closed.set_keep_alive_idle_time(0, |_, _| Ok(())), Err(ErrorCode::InvalidState));
    assert_eq!(closed.set_keep_alive_count(0, |_, _| Ok(())), Err(ErrorCode::InvalidState));
    assert_eq!(closed.keep_alive_duration(|_| Ok(1)), Err(ErrorCode::InvalidState));
}

#[test]
fn named_socket_options() {
    let sock = TcpSocket::from_state(TcpState::<&str, &str, &str, &str, &str>::Connected("stream"), SocketAddressFamily::Ipv4);
    let stream_only = |v: SocketView<'_, &str, &str, &str>| match v {
        SocketView::Stream(t) => Ok(t.len() as u64),
        _ => Err(ErrorCode::Unknown),
    };
    assert_eq!(sock.receive_buffer_size(stream_only), Ok(6));
    assert_eq!(sock.send_buffer_size(|_| Ok(4096)), Ok(4096));
    assert_eq!(sock.keep_alive_enabled(|_| Ok(true)), Ok(true));
    assert_eq!(sock.set_keep_alive_enabled(true, |_, on| if on { Ok(()) } else { Err(ErrorCode::Unknown) }), Ok(()));
    assert_eq!(sock.hop_limit(|_| Ok(64)), Ok(64));
    assert_eq!(sock.set_hop_limit(0, |_, n| if n == 0 { Err(ErrorCode::InvalidArgument) } else { Ok(()) }), Err(ErrorCode::InvalidArgument));
    assert_eq!(sock.set_hop_limit(64, |_, n| if n == 0 { Err(ErrorCode::InvalidArgument) } else { Ok(()) }), Ok(()));
    assert_eq!(sock.set_receive_buffer_size(8192, |_, n| if n == 8192 { Ok(()) } else { Err(ErrorCode::Unknown) }), Ok(()));
    assert_eq!(sock.set_send_buffer_size(4096, |_, n| if n == 4096 { Ok(()) } else { Err(ErrorCode::Unknown) }), Ok(()));
    assert_eq!(sock.set_socket_option(7u32, |_, n| if n == 7 { Ok(()) } else { Err(ErrorCode::Unknown) }), Ok(()));
    assert_eq!(sock.keep_alive_count(|_| Ok(9)), Ok(9));
    assert_eq!(sock.keep_alive_idle_time(|_| Ok(u128::MAX)), Ok(u64::MAX));
    assert_eq!(sock.keep_alive_interval(|_| Ok(75_000_000_000)), Ok(75_000_000_000));

    let pending = TcpSocket::from_state(TcpState::<&str, &str, &str, &str, &str>::ConnectStarted("f"), SocketAddressFamily::Ipv4);
    assert_eq!(pending.hop_limit(|_| Ok(1)), Err(ErrorCode::InvalidState));
    assert_eq!(pending.set_hop_limit(1, |_, _| Ok(())), Err(ErrorCode::InvalidState));
    assert_eq!(pending.keep_alive_interval(|_| Ok(1)), Err(ErrorCode::InvalidState));
}

#[test]
fn state_debug_names() {
    assert_eq!(TcpState::<&str, &str, &str, &str, &str>::Default("s").debug_name(), "Default");
    assert_eq!(TcpState::<&str, &str, &str, &str, &str>::Listening { listener: "l", pending_accept: None }.debug_name(), "Listening");
    assert_eq!(TcpState::<&str, &str, &str, &str, &str>::ConnectReady(Err(ErrorCode::Unknown)).debug_name(), "ConnectReady");
    assert_eq!(TcpState::<&str, &str, &str, &str, &str>::Closed.debug_name(), "Closed");
}
