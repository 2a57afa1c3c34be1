//! Which sockets pings go through, and when sending and receiving are over.

use vstd::prelude::*;

use crate::net::{IpAddr, SocketAddr};
use crate::socket::{
    incomplete_message, Attempt, Domain, Protocol, SendError, Socket, SocketConfig, Sockets, Step,
    Type,
};

verus! {

use super::{recv_outcome, send_outcome};

/// What a socket received is handed on as it is, and so is every failure. A socket that
/// would block is tried again.
pub proof fn law_recv<H, E>(socket: Socket<H>, attempt: Attempt<E>, step: Step<usize, E>)
    requires
        call_ensures(Socket::<H>::recv::<E>, (&socket, attempt), step),
    ensures
        step is Again <==> attempt is WouldBlock,
        attempt matches Attempt::Done(result) ==> step == Step::<usize, E>::Return(result),
        attempt matches Attempt::NotReady(e) ==> step == Step::<usize, E>::Return(Err(e)),
{
}

/// A packet counts as sent if and only if all of it was sent. Every failure is handed on
/// as it is. A socket that would block is tried again.
pub proof fn law_send_to<H, E>(
    socket: Socket<H>,
    buf: &[u8],
    attempt: Attempt<E>,
    step: Step<(), SendError<E>>,
)
    requires
        call_ensures(Socket::<H>::send_to::<E>, (&socket, buf, attempt), step),
    ensures
        step is Again <==> attempt is WouldBlock,
        attempt matches Attempt::Done(Ok(n)) ==> step == Step::<(), SendError<E>>::Return(
            if n == buf@.len() {
                Ok(())
            } else {
                Err(SendError::Incomplete)
            },
        ),
        attempt matches Attempt::Done(Err(e)) ==> step == Step::<(), SendError<E>>::Return(
            Err(SendError::Io(e)),
        ),
        attempt matches Attempt::NotReady(e) ==> step == Step::<(), SendError<E>>::Return(
            Err(SendError::Io(e)),
        ),
{
}

/// However often a socket would block, receiving comes to just what the first other attempt
/// came to.
pub proof fn law_received<E>(attempts: Seq<Attempt<E>>, blocked: int)
    requires
        0 <= blocked < attempts.len(),
        forall|i: int| 0 <= i < blocked ==> #[trigger] attempts[i] is WouldBlock,
        !(attempts[blocked] is WouldBlock),
    ensures
        attempts[blocked] matches Attempt::Done(result) ==> recv_outcome(attempts) == Some(result),
        attempts[blocked] matches Attempt::NotReady(e) ==> recv_outcome(attempts) == Some(
            Err::<usize, E>(e),
        ),
    decreases blocked,
{
    if blocked > 0 {
        let rest = attempts.skip(1);
        assert(attempts[0] is WouldBlock);
        assert(rest[blocked - 1] == attempts[blocked]);
        assert forall|i: int| 0 <= i < blocked - 1 implies #[trigger] rest[i] is WouldBlock by {
            assert(attempts[i + 1] is WouldBlock);
        }
        law_received(rest, blocked - 1);
    }
}

/// However often a socket would block, sending is decided by the first other attempt: it
/// succeeds if all of the packet was sent, fails as incomplete if a part of it was, and
/// fails as that attempt did if nothing was.
pub proof fn law_sent<E>(size: nat, attempts: Seq<Attempt<E>>, blocked: int)
    requires
        0 <= blocked < attempts.len(),
        forall|i: int| 0 <= i < blocked ==> #[trigger] attempts[i] is WouldBlock,
        !(attempts[blocked] is WouldBlock),
    ensures
        attempts[blocked] matches Attempt::Done(Ok(n)) ==> send_outcome(size, attempts) == Some(
            if n == size {
                Ok::<(), SendError<E>>(())
            } else {
                Err(SendError::Incomplete)
            },
        ),
        attempts[blocked] matches Attempt::Done(Err(e)) ==> send_outcome(size, attempts) == Some(
            Err::<(), SendError<E>>(SendError::Io(e)),
        ),
        attempts[blocked] matches Attempt::NotReady(e) ==> send_outcome(size, attempts) == Some(
            Err::<(), SendError<E>>(SendError::Io(e)),
        ),
    decreases blocked,
{
    if blocked > 0 {
        let rest = attempts.skip(1);
        assert(attempts[0] is WouldBlock);
        assert(rest[blocked - 1] == attempts[blocked]);
        assert forall|i: int| 0 <= i < blocked - 1 implies #[trigger] rest[i] is WouldBlock by {
            assert(attempts[i + 1] is WouldBlock);
        }
        law_sent(size, rest, blocked - 1);
    }
}

/// As long as a socket would block, neither sending nor receiving is over.
pub proof fn law_blocked<E>(size: nat, attempts: Seq<Attempt<E>>)
    requires
        forall|i: int| 0 <= i < attempts.len() ==> #[trigger] attempts[i] is WouldBlock,
    ensures
        send_outcome(size, attempts) is None,
        recv_outcome(attempts) is None,
    decreases attempts.len(),
{
    if attempts.len() > 0 {
        let rest = attempts.skip(1);
        assert(attempts[0] is WouldBlock);
        assert forall|i: int| 0 <= i < rest.len() implies #[trigger] rest[i] is WouldBlock by {
            assert(attempts[i + 1] is WouldBlock);
        }
        law_blocked(size, rest);
    }
}

/// What is said of a packet of which only a part was sent.
pub proof fn law_incomplete_message(message: &'static str)
    requires
        call_ensures(incomplete_message, (), message),
    ensures
        message@ == "failed to send entire packet"@,
{
}

/// A socket holds the handle that was opened and tells what it was opened as. If none was
/// opened, it is told why.
pub proof fn law_new_socket<H, E>(
    domain: Domain,
    type_: Type,
    protocol: Protocol,
    handle: Result<H, E>,
    result: Result<Socket<H>, E>,
)
    requires
        call_ensures(Socket::<H>::new::<E>, (domain, type_, protocol, handle), result),
    ensures
        handle matches Ok(h) ==> result matches Ok(socket) && {
            &&& socket.handle == h
            &&& socket.config.domain == domain
            &&& socket.config.type_ == type_
            &&& socket.config.protocol == protocol
        },
        handle matches Err(e) ==> result == Err::<Socket<H>, E>(e),
{
}

/// Hosts of a family are pinged through the socket of that family, if there is one, and
/// through no other.
pub proof fn law_for_addr<H>(sockets: Sockets<H>, addr: IpAddr, found: Option<&Socket<H>>)
    requires
        call_ensures(Sockets::<H>::for_addr, (&sockets, addr), found),
    ensures
        sockets.socket_for(addr) == (match found {
            Some(socket) => Some(*socket),
            None => None,
        }),
        addr is V4 ==> match sockets {
            Sockets::V4(socket) => found == Some(&socket),
            Sockets::V6(_) => found is None,
            Sockets::Both { v4, .. } => found == Some(&v4),
        },
        addr is V6 ==> match sockets {
            Sockets::V4(_) => found is None,
            Sockets::V6(socket) => found == Some(&socket),
            Sockets::Both { v6, .. } => found == Some(&v6),
        },
{
}

/// The IPv4 socket is the one that IPv4 hosts are pinged through, and the IPv6 socket the
/// one that IPv6 hosts are pinged through.
pub proof fn law_v4_and_v6<H>(
    sockets: Sockets<H>,
    v4: Option<&Socket<H>>,
    v6: Option<&Socket<H>>,
    v4_host: u32,
    v6_host: u128,
    for_v4: Option<&Socket<H>>,
    for_v6: Option<&Socket<H>>,
)
    requires
        call_ensures(Sockets::<H>::v4, (&sockets,), v4),
        call_ensures(Sockets::<H>::v6, (&sockets,), v6),
        call_ensures(Sockets::<H>::for_addr, (&sockets, IpAddr::V4(v4_host)), for_v4),
        call_ensures(Sockets::<H>::for_addr, (&sockets, IpAddr::V6(v6_host)), for_v6),
    ensures
        v4 == for_v4,
        v6 == for_v6,
        match sockets {
            Sockets::V4(socket) => v4 == Some(&socket) && v6 is None,
            Sockets::V6(socket) => v4 is None && v6 == Some(&socket),
            Sockets::Both { v4: first, v6: second } => v4 == Some(&first) && v6 == Some(&second),
        },
{
}

/// Whether sockets of the given style come from two attempts to open them: a host can be
/// pinged if and only if the socket for its family opened, and that is then the very socket
/// it is pinged through, opened as an ICMP socket of this family and style. If neither
/// opened, it is told why the IPv4 one did not.
pub open spec fn come_from<H, E>(
    type_: Type,
    v4: Result<H, E>,
    v6: Result<H, E>,
    result: Result<Sockets<H>, E>,
) -> bool {
    &&& result is Ok <==> v4 is Ok || v6 is Ok
    &&& result matches Err(e) ==> v4 == Err::<H, E>(e)
    &&& result matches Ok(sockets) ==> {
        &&& forall|host: u32|
            (#[trigger] sockets.socket_for(IpAddr::V4(host))) == (match v4 {
                Ok(handle) => Some(
                    Socket {
                        config: SocketConfig {
                            domain: Domain::IPV4,
                            type_,
                            protocol: Protocol::ICMPV4,
                        },
                        handle,
                    },
                ),
                Err(_) => None,
            })
        &&& forall|host: u128|
            (#[trigger] sockets.socket_for(IpAddr::V6(host))) == (match v6 {
                Ok(handle) => Some(
                    Socket {
                        config: SocketConfig {
                            domain: Domain::IPV6,
                            type_,
                            protocol: Protocol::ICMPV6,
                        },
                        handle,
                    },
                ),
                Err(_) => None,
            })
    }
}

/// The sockets of a style come from the attempts to open them.
pub proof fn law_available<H, E>(type_: Type, v4: Result<H, E>, v6: Result<H, E>)
    ensures
        come_from(type_, v4, v6, Sockets::available(type_, v4, v6)),
{
}

/// Unprivileged pings go through datagram sockets.
pub proof fn law_unprivileged<H, E>(
    v4: Result<H, E>,
    v6: Result<H, E>,
    result: Result<Sockets<H>, E>,
)
    requires
        call_ensures(Sockets::<H>::unprivileged::<E>, (v4, v6), result),
    ensures
        come_from(Type::DGRAM, v4, v6, result),
{
    law_available(Type::DGRAM, v4, v6);
}

/// Privileged pings go through raw sockets.
pub proof fn law_privileged<H, E>(
    v4: Result<H, E>,
    v6: Result<H, E>,
    result: Result<Sockets<H>, E>,
)
    requires
        call_ensures(Sockets::<H>::privileged::<E>, (v4, v6), result),
    ensures
        come_from(Type::RAW, v4, v6, result),
{
    law_available(Type::RAW, v4, v6);
}

/// The handle that opened for a family is the handle of the socket that hosts of this
/// family are pinged through, be the sockets raw or not.
pub proof fn law_handles<H, E>(
    raw: bool,
    v4: Result<H, E>,
    v6: Result<H, E>,
    sockets: Sockets<H>,
    addr: IpAddr,
    found: Option<&Socket<H>>,
)
    requires
        raw ==> call_ensures(Sockets::<H>::privileged::<E>, (v4, v6), Ok(sockets)),
        !raw ==> call_ensures(Sockets::<H>::unprivileged::<E>, (v4, v6), Ok(sockets)),
        call_ensures(Sockets::<H>::for_addr, (&sockets, addr), found),
    ensures
        match (if addr is V4 {
            v4
        } else {
            v6
        }) {
            Ok(handle) => found matches Some(socket) && {
                &&& socket.handle == handle
                &&& socket.config.domain == (if addr is V4 {
                    Domain::IPV4
                } else {
                    Domain::IPV6
                })
                &&& socket.config.protocol == (if addr is V4 {
                    Protocol::ICMPV4
                } else {
                    Protocol::ICMPV6
                })
                &&& socket.config.type_ == (if raw {
                    Type::RAW
                } else {
                    Type::DGRAM
                })
            },
            Err(_) => found is None,
        },
{
}

/// The sockets to open are those that pings then go through: an ICMP socket for each
/// family, the IPv4 one first, datagram sockets for unprivileged pings and raw sockets for
/// privileged ones.
pub proof fn law_configs<H>(
    unprivileged: (SocketConfig, SocketConfig),
    privileged: (SocketConfig, SocketConfig),
)
    requires
        call_ensures(Sockets::<H>::unprivileged_configs, (), unprivileged),
        call_ensures(Sockets::<H>::privileged_configs, (), privileged),
    ensures
        unprivileged.0.domain == Domain::IPV4 && unprivileged.0.protocol == Protocol::ICMPV4,
        unprivileged.1.domain == Domain::IPV6 && unprivileged.1.protocol == Protocol::ICMPV6,
        unprivileged.0.type_ == Type::DGRAM && unprivileged.1.type_ == Type::DGRAM,
        privileged.0 == (SocketConfig { type_: Type::RAW, ..unprivileged.0 }),
        privileged.1 == (SocketConfig { type_: Type::RAW, ..unprivileged.1 }),
{
}

/// An address is made of the IP address and the port that it was given.
pub proof fn law_address(ip: IpAddr, port: u16, addr: SocketAddr, is_ipv4: bool)
    requires
        call_ensures(SocketAddr::new, (ip, port), addr),
        call_ensures(SocketAddr::is_ipv4, (&addr,), is_ipv4),
    ensures
        addr.ip == ip,
        addr.port == port,
        is_ipv4 <==> ip is V4,
{
}

} // verus!
