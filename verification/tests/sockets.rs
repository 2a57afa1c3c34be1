use tokio_icmp_echo::net::IpAddr;
use tokio_icmp_echo::socket::{
    incomplete_message, Attempt, Domain, Protocol, SendError, Socket, SocketConfig, Sockets, Step,
    Type,
};

fn socket() -> Socket<u8> {
    match Socket::new(Domain::IPV4, Type::RAW, Protocol::ICMPV4, Ok::<u8, u8>(3)) {
        Ok(socket) => socket,
        Err(e) => panic!("{}", e),
    }
}

#[test]
fn a_socket_is_what_it_was_opened_as() {
    let socket = socket();
    assert_eq!(
        socket.config,
        SocketConfig { domain: Domain::IPV4, type_: Type::RAW, protocol: Protocol::ICMPV4 }
    );
    assert_eq!(socket.handle, 3);
    let failed = Socket::<u8>::new(Domain::IPV6, Type::DGRAM, Protocol::ICMPV6, Err("no"));
    assert!(matches!(failed, Err("no")));
}

#[test]
fn sending() {
    let socket = socket();
    let buf = [0u8; 32];
    assert_eq!(socket.send_to::<u8>(&buf, Attempt::WouldBlock), Step::Again);
    assert_eq!(socket.send_to::<u8>(&buf, Attempt::Done(Ok(32))), Step::Return(Ok(())));
    assert_eq!(
        socket.send_to::<u8>(&buf, Attempt::Done(Ok(31))),
        Step::Return(Err(SendError::Incomplete))
    );
    assert_eq!(
        socket.send_to(&buf, Attempt::Done(Err(7))),
        Step::Return(Err(SendError::Io(7)))
    );
    assert_eq!(
        socket.send_to(&buf, Attempt::NotReady(8)),
        Step::Return(Err(SendError::Io(8)))
    );
    assert_eq!(incomplete_message(), "failed to send entire packet");
}

#[test]
fn receiving() {
    let socket = socket();
    assert_eq!(socket.recv::<u8>(Attempt::WouldBlock), Step::Again);
    assert_eq!(socket.recv::<u8>(Attempt::Done(Ok(5))), Step::Return(Ok(5)));
    assert_eq!(socket.recv(Attempt::Done(Err(7))), Step::Return(Err(7)));
    assert_eq!(socket.recv(Attempt::NotReady(8)), Step::Return(Err(8)));
}

#[test]
fn a_socket_that_blocks_is_tried_again() {
    let socket = socket();
    let mut tries = 0;
    let attempts = vec![
        Attempt::WouldBlock,
        Attempt::WouldBlock,
        Attempt::<u8>::Done(Ok(4)),
        Attempt::Done(Ok(1)),
    ];
    for attempt in attempts {
        tries += 1;
        match socket.send_to(&[0; 4], attempt) {
            Step::Again => continue,
            Step::Return(result) => {
                assert_eq!(result, Ok(()));
                break;
            }
        }
    }
    assert_eq!(tries, 3);
}

#[test]
fn configs() {
    let (v4, v6) = Sockets::<u8>::unprivileged_configs();
    assert_eq!((v4.domain, v4.type_, v4.protocol), (Domain::IPV4, Type::DGRAM, Protocol::ICMPV4));
    assert_eq!((v6.domain, v6.type_, v6.protocol), (Domain::IPV6, Type::DGRAM, Protocol::ICMPV6));
    let (v4, v6) = Sockets::<u8>::privileged_configs();
    assert_eq!((v4.domain, v4.type_, v4.protocol), (Domain::IPV4, Type::RAW, Protocol::ICMPV4));
    assert_eq!((v6.domain, v6.type_, v6.protocol), (Domain::IPV6, Type::RAW, Protocol::ICMPV6));
}

#[test]
fn both_sockets_open() {
    let sockets = match Sockets::unprivileged::<&str>(Ok(4), Ok(6)) {
        Ok(sockets) => sockets,
        Err(e) => panic!("{}", e),
    };
    assert!(matches!(sockets, Sockets::Both { .. }));
    assert_eq!(sockets.v4().map(|s| (s.handle, s.config.domain)), Some((4, Domain::IPV4)));
    assert_eq!(sockets.v6().map(|s| (s.handle, s.config.domain)), Some((6, Domain::IPV6)));
    assert_eq!(sockets.for_addr(IpAddr::V4(0)).map(|s| s.handle), Some(4));
    assert_eq!(sockets.for_addr(IpAddr::V6(0)).map(|s| s.handle), Some(6));
}

#[test]
fn one_socket_opens() {
    match Sockets::privileged(Ok(4), Err("six")) {
        Ok(sockets) => {
            assert_eq!(sockets.v4().map(|s| (s.handle, s.config.type_)), Some((4, Type::RAW)));
            assert!(sockets.v6().is_none());
            assert!(sockets.for_addr(IpAddr::V6(1)).is_none());
        }
        Err(e) => panic!("{}", e),
    }
    match Sockets::unprivileged(Err("four"), Ok(6)) {
        Ok(sockets) => {
            assert!(sockets.v4().is_none());
            assert_eq!(sockets.v6().map(|s| (s.handle, s.config.type_)), Some((6, Type::DGRAM)));
        }
        Err(e) => panic!("{}", e),
    }
}

#[test]
fn no_socket_opens() {
    assert!(matches!(Sockets::<u8>::unprivileged(Err("four"), Err("six")), Err("four")));
    assert!(matches!(Sockets::<u8>::privileged(Err("four"), Err("six")), Err("four")));
}
