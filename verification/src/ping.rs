//! Pings: requests that went out and wait for their replies.

use vstd::prelude::*;

use futures::channel::oneshot;

use crate::channel::open_channel;
use crate::errors::Error;
use crate::net::{IpAddr, SocketAddr};
use crate::packet::{EchoRequest, IcmpV4, IcmpV6, ICMP_HEADER_SIZE};
use crate::random::{random_ident, random_token, Token, TOKEN_SIZE};
use crate::receiver::ReplyReceiver;
use crate::socket::Sockets;
use crate::state::PingState;
use crate::time::{Clock, Duration, Instant};

verus! {

use crate::channel::connected;
use crate::random::{drawn_ident, drawn_token};
use crate::socket::Type;
use crate::time::{MAX_NANOS, NANOS_PER_SEC};

/// The length of an echo request that carries a token.
pub const ECHO_REQUEST_BUFFER_SIZE: usize = ICMP_HEADER_SIZE + TOKEN_SIZE;

/// Room for an echo request that carries a token.
pub type EchoRequestBuffer = [u8; ECHO_REQUEST_BUFFER_SIZE];

/// A request to be sent, and where to.
pub struct Outgoing {
    pub packet: EchoRequestBuffer,
    pub dest: SocketAddr,
}

/// Why no request goes out.
#[derive(Clone, Copy, Debug, PartialEq, Eq, Structural)]
pub enum Refusal {
    /// There is no socket for the address family of the host.
    InvalidProtocol,
    /// The request does not fit into its buffer.
    PacketEncodeError,
}

/// The bytes of the request to `hostname` that carries `token`.
pub open spec fn request_packet(
    hostname: IpAddr,
    ident: u16,
    seq_cnt: u16,
    token: Seq<u8>,
) -> Seq<u8> {
    match hostname {
        IpAddr::V4(_) => crate::packet::echo::request_bytes::<IcmpV4>(ident, seq_cnt, token),
        IpAddr::V6(_) => crate::packet::echo::request_bytes::<IcmpV6>(ident, seq_cnt, token),
    }
}

/// What pings are sent with, and what waits for their replies.
pub struct Pinger<H> {
    pub sockets: Sockets<H>,
    pub state: PingState<oneshot::Sender<Instant>>,
    pub clock: Clock,
}

impl<H> Pinger<H> {
    /// Whether this has the sockets of `other` and a clock that counts from the same origin.
    pub open spec fn same_setup(self, other: Self) -> bool {
        self.sockets == other.sockets && self.clock.origin() == other.clock.origin()
    }

    /// Lets `sender` wait for the reply that carries `token`, and makes the request
    /// for it. The sender waits even if no request can go out.
    pub fn request(
        &mut self,
        hostname: IpAddr,
        ident: u16,
        seq_cnt: u16,
        token: Token,
        sender: oneshot::Sender<Instant>,
    ) -> (result: Result<Outgoing, Refusal>)
        ensures
            final(self).sockets == old(self).sockets,
            final(self).clock == old(self).clock,
            final(self).state@ == old(self).state@.insert(token@, sender),
            match result {
                Ok(outgoing) => {
                    &&& old(self).sockets.socket_for(hostname) is Some
                    &&& outgoing.packet@ == request_packet(hostname, ident, seq_cnt, token@)
                    &&& outgoing.dest == (SocketAddr { ip: hostname, port: 0 })
                },
                Err(refusal) => {
                    &&& old(self).sockets.socket_for(hostname) is None
                    &&& refusal == Refusal::InvalidProtocol
                },
            },
    {
        self.state.insert(token, sender);
        let dest = SocketAddr::new(hostname, 0);
        let mut buffer: EchoRequestBuffer = [0; ECHO_REQUEST_BUFFER_SIZE];
        let request = EchoRequest { ident, seq_cnt, payload: token.as_slice() };
        let (encode_result, mb_socket) = if dest.is_ipv4() {
            (request.encode::<IcmpV4>(&mut buffer), self.sockets.v4())
        } else {
            (request.encode::<IcmpV6>(&mut buffer), self.sockets.v6())
        };
        if mb_socket.is_none() {
            return Err(Refusal::InvalidProtocol);
        }
        if encode_result.is_err() {
            return Err(Refusal::PacketEncodeError);
        }
        assert(buffer@ =~= request_packet(hostname, ident, seq_cnt, token@));
        Ok(Outgoing { packet: buffer, dest })
    }

    /// When a ping that took a pinger from `before` to `after` was called for: the first
    /// reading of the clock that it took.
    pub open spec fn called_at(before: Self, after: Self) -> Instant {
        after.clock.readings()[before.clock.readings().len() as int]
    }

    /// Whether `future` is a ping of `hostname` that took a pinger from `before` to
    /// `after`: a token was drawn, one half of a channel of its own waits for it, and
    /// the future holds the other half, unless there is no socket for the host. The
    /// deadline counts from the first reading of the clock, the response time from the
    /// second, which is the last.
    pub open spec fn pinged(
        before: Self,
        after: Self,
        hostname: IpAddr,
        ident: u16,
        seq_cnt: u16,
        timeout: Duration,
        future: PingFuture,
    ) -> bool {
        let called = Self::called_at(before, after);
        &&& after.same_setup(before)
        &&& before.clock.reads(called)
        &&& before.clock.reaches(called, timeout)
        &&& exists|
            token: Token,
            sender: oneshot::Sender<Instant>,
            receiver: oneshot::Receiver<Instant>,
        | #![trigger drawn_token(token), connected(sender, receiver)]
            {
                &&& drawn_token(token)
                &&& connected(sender, receiver)
                &&& after.state@ == before.state@.insert(token@, sender)
                &&& match before.sockets.socket_for(hostname) {
                    None => {
                        &&& future.inner is InvalidProtocol
                        &&& after.clock.readings() == before.clock.readings().push(called)
                    },
                    Some(_) => {
                        &&& future.inner matches PingFutureKind::Normal(normal)
                        &&& after.clock.readings() == before.clock.readings().push(called).push(
                            normal.start_time,
                        )
                        &&& before.clock.reads(normal.start_time)
                        &&& normal.token == token
                        &&& called.later(timeout) == Some(normal.deadline)
                        &&& normal.send matches Some(outgoing)
                        &&& outgoing.packet@ == request_packet(hostname, ident, seq_cnt, token@)
                        &&& outgoing.dest == (SocketAddr { ip: hostname, port: 0 })
                        &&& normal.receiver == receiver
                    },
                }
            }
    }

    /// Whether a ping that took a pinger from `before` to `after` was given up because
    /// the clock cannot tell its deadline: the clock was read once, and nothing waits
    /// that did not wait before.
    pub open spec fn given_up(before: Self, after: Self, timeout: Duration) -> bool {
        let called = Self::called_at(before, after);
        &&& after.sockets == before.sockets
        &&& after.state == before.state
        &&& after.clock.origin() == before.clock.origin()
        &&& after.clock.readings() == before.clock.readings().push(called)
        &&& before.clock.reads(called)
        &&& before.clock.falls_short(called, timeout)
    }

    /// Send ICMP request and wait for response. There is no ping, whatever the host, if
    /// the clock cannot tell when it would time out.
    pub fn ping(&mut self, hostname: IpAddr, ident: u16, seq_cnt: u16, timeout: Duration) -> (result:
        Option<PingFuture>)
        ensures
            match result {
                Some(future) => Self::pinged(
                    *old(self),
                    *final(self),
                    hostname,
                    ident,
                    seq_cnt,
                    timeout,
                    future,
                ),
                None => Self::given_up(*old(self), *final(self), timeout),
            },
    {
        let (sender, receiver) = open_channel();
        let called = self.clock.now();
        if self.clock.after(called, timeout).is_none() {
            return None;
        }
        let token = random_token();
        match self.request(hostname, ident, seq_cnt, token, sender) {
            Ok(outgoing) => {
                let started = self.clock.now();
                Some(PingFuture::launch(outgoing, token, receiver, called, timeout, started))
            },
            Err(refusal) => Some(PingFuture::refused(refusal)),
        }
    }

    /// Makes a pinger with these sockets, and a receiver for each of them, which are
    /// raw sockets if `privileged`.
    fn assemble<E>(clock: Clock, sockets: Result<Sockets<H>, E>, privileged: bool) -> (result:
        Result<(Self, Receivers), E>)
        ensures
            Self::assembled(clock, sockets, privileged, result),
    {
        match sockets {
            Ok(sockets) => {
                let v4 = if sockets.v4().is_some() {
                    Some(ReplyReceiver::new(privileged))
                } else {
                    None
                };
                let v6 = if sockets.v6().is_some() {
                    Some(ReplyReceiver::new(privileged))
                } else {
                    None
                };
                Ok((Pinger { sockets, state: PingState::new(), clock }, Receivers { v4, v6 }))
            },
            Err(e) => Err(e),
        }
    }

    /// Whether `result` is a pinger with these sockets, for which nothing waits, and a
    /// receiver for each socket; or the error that there are no sockets.
    pub open spec fn assembled<E>(
        clock: Clock,
        sockets: Result<Sockets<H>, E>,
        privileged: bool,
        result: Result<(Self, Receivers), E>,
    ) -> bool {
        match sockets {
            Ok(sockets) => {
                &&& result matches Ok((pinger, receivers))
                &&& pinger.sockets == sockets
                &&& pinger.clock == clock
                &&& pinger.state@ == Map::<Seq<u8>, oneshot::Sender<Instant>>::empty()
                &&& receivers.v4 is Some <==> sockets.v4_socket() is Some
                &&& receivers.v6 is Some <==> sockets.v6_socket() is Some
                &&& receivers.v4 matches Some(receiver) ==> receiver.privileged == privileged
                &&& receivers.v6 matches Some(receiver) ==> receiver.privileged == privileged
            },
            Err(e) => result == Err::<(Self, Receivers), E>(e),
        }
    }

    /// Create new `Pinger` instance using DGRAM type, this can be run unprivileged.
    /// `v4` and `v6` are what opening the sockets of `Sockets::unprivileged_configs`
    /// came to. Will fail if unable to create both IPv4 and IPv6 sockets.
    pub fn new<E>(clock: Clock, v4: Result<H, E>, v6: Result<H, E>) -> (result: Result<
        (Self, Receivers),
        E,
    >)
        ensures
            Self::assembled(clock, Sockets::available(Type::DGRAM, v4, v6), false, result),
    {
        Self::dgram(clock, v4, v6)
    }

    /// Create new `Pinger` instance using DGRAM type, this can be run unprivileged.
    /// `v4` and `v6` are what opening the sockets of `Sockets::unprivileged_configs`
    /// came to. Will fail if unable to create both IPv4 and IPv6 sockets.
    pub fn dgram<E>(clock: Clock, v4: Result<H, E>, v6: Result<H, E>) -> (result: Result<
        (Self, Receivers),
        E,
    >)
        ensures
            Self::assembled(clock, Sockets::available(Type::DGRAM, v4, v6), false, result),
    {
        Self::assemble(clock, Sockets::unprivileged(v4, v6), false)
    }

    /// Create new `Pinger` instance using RAW sockets, this requires privileges to run.
    /// `v4` and `v6` are what opening the sockets of `Sockets::privileged_configs`
    /// came to. Will fail if unable to create both IPv4 and IPv6 sockets.
    pub fn raw<E>(clock: Clock, v4: Result<H, E>, v6: Result<H, E>) -> (result: Result<
        (Self, Receivers),
        E,
    >)
        ensures
            Self::assembled(clock, Sockets::available(Type::RAW, v4, v6), true, result),
    {
        Self::assemble(clock, Sockets::privileged(v4, v6), true)
    }

    /// Ping the same host several times.
    pub fn chain(&self, hostname: IpAddr) -> (chain: PingChain)
        ensures
            chain == (PingChain { hostname, ident: None, seq_cnt: None, timeout: None }),
    {
        PingChain::new(hostname)
    }
}

/// The receivers of a pinger, one for each of its sockets.
pub struct Receivers {
    pub v4: Option<ReplyReceiver<IcmpV4>>,
    pub v6: Option<ReplyReceiver<IcmpV6>>,
}

/// How far something is that may take a while.
#[derive(Debug, PartialEq, Eq)]
pub enum Poll<T> {
    Ready(T),
    Pending,
}

/// Represent a future that resolves into ping response time, resolves into `None` if timed out.
#[must_use]
pub struct PingFuture {
    pub inner: PingFutureKind,
}

/// What a ping came to so far.
pub enum PingFutureKind {
    Normal(NormalPingFutureKind),
    PacketEncodeError,
    InvalidProtocol,
}

/// A ping whose request could be made.
pub struct NormalPingFutureKind {
    /// When the ping started.
    pub start_time: Instant,
    /// What its reply carries.
    pub token: Token,
    /// When it times out.
    pub deadline: Instant,
    /// The request, as long as it has not left.
    pub send: Option<Outgoing>,
    /// Where the time of the reply arrives.
    pub receiver: oneshot::Receiver<Instant>,
}

/// What a ping that is polled learns.
#[derive(Debug, PartialEq, Eq)]
pub enum PollEvent {
    /// The poll begins.
    Start,
    /// How far the sending of the request is.
    Send(Poll<Result<(), ()>>),
    /// When the reply came, if it came. An error tells that none can come any more.
    Receiver(Poll<Result<Instant, oneshot::Canceled>>),
    /// Whether the deadline has passed.
    Sleep(Poll<()>),
}

/// What a ping that is polled asks for.
#[derive(Debug, PartialEq, Eq)]
pub enum PollAction {
    /// Poll the sending of the request.
    PollSend,
    /// Poll for the reply.
    PollReceiver,
    /// Poll for the deadline.
    PollSleep,
    /// End the poll.
    Return(Poll<Result<Option<Duration>, Error>>),
}

impl PingFutureKind {
    /// What is asked for after `event`.
    pub open spec fn action_after(self, event: PollEvent) -> PollAction {
        match self {
            PingFutureKind::InvalidProtocol => PollAction::Return(
                Poll::Ready(Err(Error::InvalidProtocol)),
            ),
            PingFutureKind::PacketEncodeError => PollAction::Return(
                Poll::Ready(Err(Error::InternalError)),
            ),
            PingFutureKind::Normal(normal) => match event {
                PollEvent::Start => if normal.send is Some {
                    PollAction::PollSend
                } else {
                    PollAction::PollReceiver
                },
                PollEvent::Send(Poll::Ready(Err(_))) => PollAction::Return(
                    Poll::Ready(Err(Error::InternalError)),
                ),
                PollEvent::Send(_) => PollAction::PollReceiver,
                PollEvent::Receiver(Poll::Ready(Ok(stop_time))) => PollAction::Return(
                    Poll::Ready(Ok(Some(stop_time.since(normal.start_time)))),
                ),
                PollEvent::Receiver(Poll::Ready(Err(_))) => PollAction::Return(
                    Poll::Ready(Err(Error::InternalError)),
                ),
                PollEvent::Receiver(Poll::Pending) => PollAction::PollSleep,
                PollEvent::Sleep(Poll::Ready(_)) => PollAction::Return(Poll::Ready(Ok(None))),
                PollEvent::Sleep(Poll::Pending) => PollAction::Return(Poll::Pending),
            },
        }
    }

    /// What the ping is after `event`: a request that has left is not sent again.
    pub open spec fn after(self, event: PollEvent) -> PingFutureKind {
        match self {
            PingFutureKind::Normal(normal) => match event {
                PollEvent::Send(Poll::Ready(Ok(_))) => PingFutureKind::Normal(
                    NormalPingFutureKind { send: None, ..normal },
                ),
                _ => self,
            },
            _ => self,
        }
    }
}

impl PingFutureKind {
    /// Whether letting go of the ping took a pinger from `before` to `after`: the
    /// ping, if it waited, waits no more.
    pub open spec fn released<H>(self, before: Pinger<H>, after: Pinger<H>) -> bool {
        &&& after.sockets == before.sockets
        &&& after.clock == before.clock
        &&& after.state@ == (match self {
            PingFutureKind::Normal(normal) => before.state@.remove(normal.token@),
            _ => before.state@,
        })
    }
}

impl PingFuture {
    /// The ping with this request, called for at `called` and started at `started`.
    pub fn launch(
        outgoing: Outgoing,
        token: Token,
        receiver: oneshot::Receiver<Instant>,
        called: Instant,
        timeout: Duration,
        started: Instant,
    ) -> (future: PingFuture)
        requires
            called@ + timeout@ <= MAX_NANOS,
        ensures
            future.inner matches PingFutureKind::Normal(normal) && {
                &&& normal.start_time == started
                &&& called.later(timeout) == Some(normal.deadline)
                &&& normal.token == token
                &&& normal.send == Some(outgoing)
                &&& normal.receiver == receiver
            },
    {
        PingFuture {
            inner: PingFutureKind::Normal(
                NormalPingFutureKind {
                    start_time: started,
                    token,
                    deadline: called.plus(timeout),
                    send: Some(outgoing),
                    receiver,
                },
            ),
        }
    }

    /// The ping without a request.
    pub fn refused(refusal: Refusal) -> (future: PingFuture)
        ensures
            future.inner == match refusal {
                Refusal::InvalidProtocol => PingFutureKind::InvalidProtocol,
                Refusal::PacketEncodeError => PingFutureKind::PacketEncodeError,
            },
    {
        let inner = match refusal {
            Refusal::InvalidProtocol => PingFutureKind::InvalidProtocol,
            Refusal::PacketEncodeError => PingFutureKind::PacketEncodeError,
        };
        PingFuture { inner }
    }

    /// Takes the poll of a ping one step further.
    pub fn poll(&mut self, event: PollEvent) -> (action: PollAction)
        ensures
            action == old(self).inner.action_after(event),
            final(self).inner == old(self).inner.after(event),
    {
        match &mut self.inner {
            PingFutureKind::Normal(normal) => match event {
                PollEvent::Start => {
                    if normal.send.is_some() {
                        PollAction::PollSend
                    } else {
                        PollAction::PollReceiver
                    }
                },
                PollEvent::Send(Poll::Pending) => PollAction::PollReceiver,
                PollEvent::Send(Poll::Ready(Ok(_))) => {
                    normal.send = None;
                    PollAction::PollReceiver
                },
                PollEvent::Send(Poll::Ready(Err(_))) => PollAction::Return(
                    Poll::Ready(Err(Error::InternalError)),
                ),
                PollEvent::Receiver(Poll::Pending) => PollAction::PollSleep,
                PollEvent::Receiver(Poll::Ready(Ok(stop_time))) => {
                    let elapsed = stop_time.saturating_duration_since(normal.start_time);
                    PollAction::Return(Poll::Ready(Ok(Some(elapsed))))
                },
                PollEvent::Receiver(Poll::Ready(Err(_))) => PollAction::Return(
                    Poll::Ready(Err(Error::InternalError)),
                ),
                PollEvent::Sleep(Poll::Pending) => PollAction::Return(Poll::Pending),
                PollEvent::Sleep(Poll::Ready(_)) => PollAction::Return(Poll::Ready(Ok(None))),
            },
            PingFutureKind::InvalidProtocol => PollAction::Return(
                Poll::Ready(Err(Error::InvalidProtocol)),
            ),
            PingFutureKind::PacketEncodeError => PollAction::Return(
                Poll::Ready(Err(Error::InternalError)),
            ),
        }
    }

    /// Gives up the wait for a reply. To be called when the ping is let go of. What
    /// waited for it, if it still did, comes back.
    pub fn release<H>(&self, pinger: &mut Pinger<H>) -> (waiting: Option<oneshot::Sender<Instant>>)
        ensures
            self.inner.released(*old(pinger), *final(pinger)),
            waiting == (match self.inner {
                PingFutureKind::Normal(normal) => if old(pinger).state@.dom().contains(
                    normal.token@,
                ) {
                    Some(old(pinger).state@[normal.token@])
                } else {
                    None
                },
                _ => None,
            }),
    {
        match &self.inner {
            PingFutureKind::Normal(normal) => pinger.state.remove(normal.token.as_slice()),
            PingFutureKind::InvalidProtocol | PingFutureKind::PacketEncodeError => None,
        }
    }
}

/// After how many seconds a ping times out, unless told otherwise.
pub const DEFAULT_TIMEOUT: u64 = 2;

/// Ping the same host several times.
pub struct PingChain {
    pub hostname: IpAddr,
    pub ident: Option<u16>,
    pub seq_cnt: Option<u16>,
    pub timeout: Option<Duration>,
}

impl PingChain {
    /// A chain of pings of `hostname` for which nothing else is settled.
    pub fn new(hostname: IpAddr) -> (chain: Self)
        ensures
            chain == (PingChain { hostname, ident: None, seq_cnt: None, timeout: None }),
    {
        PingChain { hostname, ident: None, seq_cnt: None, timeout: None }
    }

    /// Set ICMP ident. Default value is randomized.
    pub fn ident(self, ident: u16) -> (chain: Self)
        ensures
            chain == (PingChain { ident: Some(ident), ..self }),
    {
        PingChain { ident: Some(ident), ..self }
    }

    /// Set ICMP seq_cnt, this value will be incremented by one for every `send`.
    /// Default value is 0.
    pub fn seq_cnt(self, seq_cnt: u16) -> (chain: Self)
        ensures
            chain == (PingChain { seq_cnt: Some(seq_cnt), ..self }),
    {
        PingChain { seq_cnt: Some(seq_cnt), ..self }
    }

    /// Set ping timeout. Default timeout is two seconds.
    pub fn timeout(self, timeout: Duration) -> (chain: Self)
        ensures
            chain == (PingChain { timeout: Some(timeout), ..self }),
    {
        PingChain { timeout: Some(timeout), ..self }
    }

    /// The sequence number of the next ping.
    pub open spec fn next_seq_cnt(self) -> u16 {
        match self.seq_cnt {
            Some(seq_cnt) => seq_cnt,
            None => 0,
        }
    }

    /// The timeout of the next ping.
    pub open spec fn next_timeout(self) -> Duration {
        match self.timeout {
            Some(timeout) => timeout,
            None => Duration::of_nanos((DEFAULT_TIMEOUT * NANOS_PER_SEC) as nat),
        }
    }

    /// The chain after a ping with the identifier `ident`.
    pub open spec fn after_ping(self, ident: u16) -> PingChain {
        PingChain {
            hostname: self.hostname,
            ident: Some(ident),
            seq_cnt: Some(((self.next_seq_cnt() + 1) % 0x1_0000) as u16),
            timeout: Some(self.next_timeout()),
        }
    }

    /// Settles the next ping, which has the identifier `ident`: its sequence number
    /// and its timeout.
    pub fn advance(&mut self, ident: u16) -> (settled: (u16, Duration))
        ensures
            settled == (old(self).next_seq_cnt(), old(self).next_timeout()),
            *final(self) == old(self).after_ping(ident),
    {
        self.ident = Some(ident);
        let seq_cnt: u16 = match self.seq_cnt {
            Some(seq_cnt) => {
                self.seq_cnt = Some(seq_cnt.wrapping_add(1));
                seq_cnt
            },
            None => {
                self.seq_cnt = Some(1);
                0
            },
        };
        let timeout = match self.timeout {
            Some(timeout) => timeout,
            None => {
                let timeout = Duration::from_secs(DEFAULT_TIMEOUT);
                self.timeout = Some(timeout);
                timeout
            },
        };
        (seq_cnt, timeout)
    }

    /// Whether `result` is what a ping came to that took a chain from `before` to `after`
    /// and a pinger from `pinger_before` to `pinger_after`. Its identifier is that of the
    /// chain, or drawn at random where the chain has none yet.
    pub open spec fn sent<H>(
        before: PingChain,
        after: PingChain,
        pinger_before: Pinger<H>,
        pinger_after: Pinger<H>,
        result: Option<PingFuture>,
    ) -> bool {
        &&& after.ident matches Some(ident)
        &&& match before.ident {
            Some(settled) => ident == settled,
            None => drawn_ident(ident),
        }
        &&& after == before.after_ping(ident)
        &&& match result {
            Some(future) => Pinger::pinged(
                pinger_before,
                pinger_after,
                before.hostname,
                ident,
                before.next_seq_cnt(),
                before.next_timeout(),
                future,
            ),
            None => Pinger::given_up(pinger_before, pinger_after, before.next_timeout()),
        }
    }

    /// Send ICMP request and wait for response. There is no ping if the clock cannot
    /// tell when it would time out.
    pub fn send<H>(&mut self, pinger: &mut Pinger<H>) -> (result: Option<PingFuture>)
        ensures
            Self::sent(*old(self), *final(self), *old(pinger), *final(pinger), result),
    {
        let ident: u16 = match self.ident {
            Some(ident) => ident,
            None => random_ident(),
        };
        let (seq_cnt, timeout) = self.advance(ident);
        pinger.ping(self.hostname, ident, seq_cnt, timeout)
    }

    /// Create infinite stream of ping response times.
    pub fn stream<F>(self) -> (stream: PingChainStream<F>)
        ensures
            stream == (PingChainStream::<F> { chain: self, future: None }),
    {
        PingChainStream::new(self)
    }
}

/// Stream of sequential ping response times, iterates `None` if timed out.
/// `F` is what a ping under way is polled by.
pub struct PingChainStream<F> {
    pub chain: PingChain,
    pub future: Option<F>,
}

/// The ping that a stream is to poll.
pub enum InFlight<F> {
    /// One that was polled before and is not done.
    Resumed(F),
    /// A new one, or `None` if the clock cannot tell when it would time out.
    Fresh(Option<PingFuture>),
}

impl<F> PingChainStream<F> {
    /// The stream of the pings of `chain`.
    pub fn new(chain: PingChain) -> (stream: Self)
        ensures
            stream == (PingChainStream::<F> { chain, future: None }),
    {
        PingChainStream { chain, future: None }
    }

    /// Whether the begin of a poll took a stream from `before` to `after` and a pinger
    /// from `pinger_before` to `pinger_after`.
    pub open spec fn begun<H>(
        before: Self,
        after: Self,
        pinger_before: Pinger<H>,
        pinger_after: Pinger<H>,
        in_flight: InFlight<F>,
    ) -> bool {
        &&& after.future is None
        &&& match before.future {
            Some(future) => {
                &&& in_flight == InFlight::Resumed(future)
                &&& after.chain == before.chain
                &&& pinger_after == pinger_before
            },
            None => {
                &&& in_flight matches InFlight::Fresh(result)
                &&& PingChain::sent(
                    before.chain,
                    after.chain,
                    pinger_before,
                    pinger_after,
                    result,
                )
            },
        }
    }

    /// Whether the end of a poll took a stream from `before` to `after`.
    pub open spec fn ended<R>(
        before: Self,
        after: Self,
        future: F,
        polled: Poll<R>,
        item: Poll<Option<R>>,
    ) -> bool {
        &&& after.chain == before.chain
        &&& match polled {
            Poll::Ready(result) => {
                &&& item == Poll::Ready(Some(result))
                &&& after.future == before.future
            },
            Poll::Pending => {
                &&& item == Poll::<Option<R>>::Pending
                &&& after.future == Some(future)
            },
        }
    }

    /// Begins a poll: takes out the ping that is under way, or sends the next one.
    pub fn begin<H>(&mut self, pinger: &mut Pinger<H>) -> (in_flight: InFlight<F>)
        ensures
            Self::begun(*old(self), *final(self), *old(pinger), *final(pinger), in_flight),
    {
        match self.future.take() {
            Some(future) => InFlight::Resumed(future),
            None => InFlight::Fresh(self.chain.send(pinger)),
        }
    }

    /// Ends a poll: hands on the result of a ping that is done, and keeps a ping
    /// that is not for the next poll.
    pub fn poll_next<R>(&mut self, future: F, polled: Poll<R>) -> (item: Poll<Option<R>>)
        ensures
            Self::ended(*old(self), *final(self), future, polled, item),
    {
        match polled {
            Poll::Ready(result) => Poll::Ready(Some(result)),
            Poll::Pending => {
                self.future = Some(future);
                Poll::Pending
            },
        }
    }
}

} // verus!
