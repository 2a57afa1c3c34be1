//! The sockets that requests leave and replies arrive through.

use vstd::prelude::*;

use crate::net::IpAddr;

verus! {

/// The address family of a socket.
#[derive(Clone, Copy, Debug, PartialEq, Eq, Structural)]
pub enum Domain {
    IPV4,
    IPV6,
}

/// The communication style of a socket. Only the privileged may open `RAW` ones.
#[derive(Clone, Copy, Debug, PartialEq, Eq, Structural)]
pub enum Type {
    DGRAM,
    RAW,
}

/// The protocol of a socket.
#[derive(Clone, Copy, Debug, PartialEq, Eq, Structural)]
pub enum Protocol {
    ICMPV4,
    ICMPV6,
}

/// What a socket is opened as.
#[derive(Clone, Copy, Debug, PartialEq, Eq, Structural)]
pub struct SocketConfig {
    pub domain: Domain,
    pub type_: Type,
    pub protocol: Protocol,
}

/// How one attempt to use a socket went.
#[derive(Debug, PartialEq, Eq)]
pub enum Attempt<E> {
    /// The wait for the socket to become ready failed.
    NotReady(E),
    /// The socket was not ready after all.
    WouldBlock,
    /// The operation was carried out on this many bytes, or failed.
    Done(Result<usize, E>),
}

/// What to do after an attempt.
#[derive(Debug, PartialEq, Eq)]
pub enum Step<T, E> {
    /// Wait for the socket and try again.
    Again,
    /// Be done with this result.
    Return(Result<T, E>),
}

/// Why a packet was not sent.
#[derive(Debug, PartialEq, Eq)]
pub enum SendError<E> {
    /// The socket failed.
    Io(E),
    /// Only a part of the packet was sent.
    Incomplete,
}

/// What is said of a packet of which only a part was sent.
pub fn incomplete_message() -> (message: &'static str)
    ensures
        message@ == "failed to send entire packet"@,
{
    "failed to send entire packet"
}

/// What follows from one attempt to send a packet of `size` bytes.
pub open spec fn send_step<E>(size: nat, attempt: Attempt<E>) -> Step<(), SendError<E>> {
    match attempt {
        Attempt::WouldBlock => Step::Again,
        Attempt::NotReady(e) => Step::Return(Err(SendError::Io(e))),
        Attempt::Done(Err(e)) => Step::Return(Err(SendError::Io(e))),
        Attempt::Done(Ok(n)) => if n == size {
            Step::Return(Ok(()))
        } else {
            Step::Return(Err(SendError::Incomplete))
        },
    }
}

/// What follows from one attempt to receive.
pub open spec fn recv_step<E>(attempt: Attempt<E>) -> Step<usize, E> {
    match attempt {
        Attempt::WouldBlock => Step::Again,
        Attempt::NotReady(e) => Step::Return(Err(e)),
        Attempt::Done(result) => Step::Return(result),
    }
}

/// An open socket: what it was opened as, and the handle to it.
pub struct Socket<H> {
    pub config: SocketConfig,
    pub handle: H,
}

impl<H> Socket<H> {
    /// The socket that an attempt to open one came to.
    pub open spec fn opened<E>(config: SocketConfig, handle: Result<H, E>) -> Result<Self, E> {
        match handle {
            Ok(handle) => Ok(Socket { config, handle }),
            Err(e) => Err(e),
        }
    }

    /// Makes a socket out of the handle that opening one of this family, style and
    /// protocol came to, or passes on why it could not be opened.
    pub fn new<E>(domain: Domain, type_: Type, protocol: Protocol, handle: Result<H, E>) -> (result:
        Result<Self, E>)
        ensures
            result == Self::opened(SocketConfig { domain, type_, protocol }, handle),
    {
        match handle {
            Ok(handle) => Ok(Socket { config: SocketConfig { domain, type_, protocol }, handle }),
            Err(e) => Err(e),
        }
    }

    /// What follows from one attempt to send all of `buf`: a socket that would
    /// block is tried again, every other outcome is final, and only a packet that
    /// left whole counts as sent.
    pub fn send_to<E>(&self, buf: &[u8], attempt: Attempt<E>) -> (step: Step<(), SendError<E>>)
        ensures
            step == send_step(buf@.len(), attempt),
    {
        match attempt {
            Attempt::NotReady(e) => Step::Return(Err(SendError::Io(e))),
            Attempt::WouldBlock => Step::Again,
            Attempt::Done(Err(e)) => Step::Return(Err(SendError::Io(e))),
            Attempt::Done(Ok(n)) => {
                if n != buf.len() {
                    Step::Return(Err(SendError::Incomplete))
                } else {
                    Step::Return(Ok(()))
                }
            },
        }
    }

    /// What follows from one attempt to receive: a socket that would block is tried
    /// again, every other outcome is final.
    pub fn recv<E>(&self, attempt: Attempt<E>) -> (step: Step<usize, E>)
        ensures
            step == recv_step(attempt),
    {
        match attempt {
            Attempt::NotReady(e) => Step::Return(Err(e)),
            Attempt::WouldBlock => Step::Again,
            Attempt::Done(result) => Step::Return(result),
        }
    }
}

/// The sockets of a pinger: one for IPv4, one for IPv6, or one for each.
pub enum Sockets<H> {
    V4(Socket<H>),
    V6(Socket<H>),
    Both { v4: Socket<H>, v6: Socket<H> },
}

/// The IPv4 socket of the given style that pings go through.
pub open spec fn v4_config(type_: Type) -> SocketConfig {
    SocketConfig { domain: Domain::IPV4, type_, protocol: Protocol::ICMPV4 }
}

/// The IPv6 socket of the given style that pings go through.
pub open spec fn v6_config(type_: Type) -> SocketConfig {
    SocketConfig { domain: Domain::IPV6, type_, protocol: Protocol::ICMPV6 }
}

/// The two sockets of the given style that pings go through, the IPv4 one first.
fn configs(type_: Type) -> (configs: (SocketConfig, SocketConfig))
    ensures
        configs == (v4_config(type_), v6_config(type_)),
{
    (
        SocketConfig { domain: Domain::IPV4, type_, protocol: Protocol::ICMPV4 },
        SocketConfig { domain: Domain::IPV6, type_, protocol: Protocol::ICMPV6 },
    )
}

impl<H> Sockets<H> {
    /// The sockets of the given style that two attempts to open them came to: those
    /// that opened, or, if neither did, why the IPv4 one did not.
    pub open spec fn available<E>(type_: Type, v4: Result<H, E>, v6: Result<H, E>) -> Result<
        Self,
        E,
    > {
        match (v4, v6) {
            (Ok(h4), Ok(h6)) => Ok(
                Sockets::Both {
                    v4: Socket { config: v4_config(type_), handle: h4 },
                    v6: Socket { config: v6_config(type_), handle: h6 },
                },
            ),
            (Ok(h4), Err(_)) => Ok(Sockets::V4(Socket { config: v4_config(type_), handle: h4 })),
            (Err(_), Ok(h6)) => Ok(Sockets::V6(Socket { config: v6_config(type_), handle: h6 })),
            (Err(e), Err(_)) => Err(e),
        }
    }

    /// The IPv4 socket, if there is one.
    pub open spec fn v4_socket(self) -> Option<Socket<H>> {
        match self {
            Sockets::V4(socket) => Some(socket),
            Sockets::Both { v4, .. } => Some(v4),
            Sockets::V6(_) => None,
        }
    }

    /// The IPv6 socket, if there is one.
    pub open spec fn v6_socket(self) -> Option<Socket<H>> {
        match self {
            Sockets::V4(_) => None,
            Sockets::Both { v6, .. } => Some(v6),
            Sockets::V6(socket) => Some(socket),
        }
    }

    /// The socket for the family of `addr`, if there is one.
    pub open spec fn socket_for(self, addr: IpAddr) -> Option<Socket<H>> {
        match addr {
            IpAddr::V4(_) => self.v4_socket(),
            IpAddr::V6(_) => self.v6_socket(),
        }
    }

    /// The two sockets to open for unprivileged pings, the IPv4 one first.
    pub fn unprivileged_configs() -> (configs: (SocketConfig, SocketConfig))
        ensures
            configs == (v4_config(Type::DGRAM), v6_config(Type::DGRAM)),
    {
        configs(Type::DGRAM)
    }

    /// The two sockets to open for privileged pings, the IPv4 one first.
    pub fn privileged_configs() -> (configs: (SocketConfig, SocketConfig))
        ensures
            configs == (v4_config(Type::RAW), v6_config(Type::RAW)),
    {
        configs(Type::RAW)
    }

    /// The sockets of one style, given what opening each of them came to.
    fn of_type<E>(type_: Type, v4: Result<H, E>, v6: Result<H, E>) -> (result: Result<Self, E>)
        ensures
            result == Self::available(type_, v4, v6),
    {
        let mb_v4socket = Socket::new(Domain::IPV4, type_, Protocol::ICMPV4, v4);
        let mb_v6socket = Socket::new(Domain::IPV6, type_, Protocol::ICMPV6, v6);
        match (mb_v4socket, mb_v6socket) {
            (Ok(v4_socket), Ok(v6_socket)) => Ok(Sockets::Both { v4: v4_socket, v6: v6_socket }),
            (Ok(v4_socket), Err(_)) => Ok(Sockets::V4(v4_socket)),
            (Err(_), Ok(v6_socket)) => Ok(Sockets::V6(v6_socket)),
            (Err(err), Err(_)) => Err(err),
        }
    }

    /// The sockets for unprivileged pings, given what opening each of them came to.
    /// Fails only if neither could be opened.
    pub fn unprivileged<E>(v4: Result<H, E>, v6: Result<H, E>) -> (result: Result<Self, E>)
        ensures
            result == Self::available(Type::DGRAM, v4, v6),
    {
        Self::of_type(Type::DGRAM, v4, v6)
    }

    /// The sockets for privileged pings, given what opening each of them came to.
    /// Fails only if neither could be opened.
    pub fn privileged<E>(v4: Result<H, E>, v6: Result<H, E>) -> (result: Result<Self, E>)
        ensures
            result == Self::available(Type::RAW, v4, v6),
    {
        Self::of_type(Type::RAW, v4, v6)
    }

    /// The IPv4 socket, if there is one.
    pub fn v4(&self) -> (socket: Option<&Socket<H>>)
        ensures
            socket == (match self.v4_socket() {
                Some(s) => Some(&s),
                None => None,
            }),
    {
        match self {
            Sockets::V4(socket) => Some(socket),
            Sockets::Both { v4, .. } => Some(v4),
            Sockets::V6(_) => None,
        }
    }

    /// The IPv6 socket, if there is one.
    pub fn v6(&self) -> (socket: Option<&Socket<H>>)
        ensures
            socket == (match self.v6_socket() {
                Some(s) => Some(&s),
                None => None,
            }),
    {
        match self {
            Sockets::V4(_) => None,
            Sockets::Both { v6, .. } => Some(v6),
            Sockets::V6(socket) => Some(socket),
        }
    }

    /// The socket for the family of `addr`, if there is one.
    pub fn for_addr(&self, addr: IpAddr) -> (socket: Option<&Socket<H>>)
        ensures
            socket == (match self.socket_for(addr) {
                Some(s) => Some(&s),
                None => None,
            }),
    {
        match addr {
            IpAddr::V4(_) => self.v4(),
            IpAddr::V6(_) => self.v6(),
        }
    }
}

} // verus!
