//! What making a pinger and a ping comes to, and what letting go of a ping does.

use vstd::prelude::*;

use futures::channel::oneshot;

use crate::net::IpAddr;
use crate::ping::{
    Outgoing, PingFuture, PingFutureKind, Pinger, Receivers, Refusal, ECHO_REQUEST_BUFFER_SIZE,
};
use crate::random::Token;
use crate::receiver::RECEIVE_BUFFER_SIZE;
use crate::socket::{Sockets, Type};
use crate::state::PingState;
use crate::time::{Clock, Duration, Instant};

verus! {

use super::messages::law_request_packet;
use super::sockets::{come_from, law_available};
use super::{law_every_ping_draws_a_token, waits_under};
use crate::channel::connected;
use crate::packet::checksum::checksum_of;
use crate::random::drawn_token;
use crate::time::{out_of_reach, read_from, within_reach};

/// Whether a pinger of the given style comes from two attempts to open its sockets: it has
/// the sockets that opened, a receiver for each of them, which expects an IPv4 header if and
/// only if the sockets are raw, the clock it was given, and nothing waits. There is none only
/// if neither socket opened, and then it is told why the IPv4 one did not.
pub open spec fn pinger_comes_from<H, E>(
    type_: Type,
    clock: Clock,
    v4: Result<H, E>,
    v6: Result<H, E>,
    result: Result<(Pinger<H>, Receivers), E>,
) -> bool {
    match result {
        Ok((pinger, receivers)) => {
            &&& come_from(type_, v4, v6, Ok::<Sockets<H>, E>(pinger.sockets))
            &&& receivers.v4 is Some <==> v4 is Ok
            &&& receivers.v6 is Some <==> v6 is Ok
            &&& receivers.v4 matches Some(receiver) ==> (receiver.privileged <==> type_ == Type::RAW)
            &&& receivers.v6 matches Some(receiver) ==> (receiver.privileged <==> type_ == Type::RAW)
            &&& pinger.clock == clock
            &&& forall|token: Seq<u8>| !(#[trigger] pinger.state@.dom().contains(token))
        },
        Err(e) => v4 == Err::<H, E>(e) && v6 is Err,
    }
}

/// A pinger over datagram sockets comes from the attempts to open them.
pub proof fn law_dgram<H, E>(
    clock: Clock,
    v4: Result<H, E>,
    v6: Result<H, E>,
    result: Result<(Pinger<H>, Receivers), E>,
)
    requires
        call_ensures(Pinger::<H>::dgram::<E>, (clock, v4, v6), result),
    ensures
        pinger_comes_from(Type::DGRAM, clock, v4, v6, result),
{
    law_available(Type::DGRAM, v4, v6);
}

/// A pinger is one over datagram sockets unless told otherwise.
pub proof fn law_new<H, E>(
    clock: Clock,
    v4: Result<H, E>,
    v6: Result<H, E>,
    result: Result<(Pinger<H>, Receivers), E>,
)
    requires
        call_ensures(Pinger::<H>::new::<E>, (clock, v4, v6), result),
    ensures
        pinger_comes_from(Type::DGRAM, clock, v4, v6, result),
{
    law_available(Type::DGRAM, v4, v6);
}

/// A pinger over raw sockets comes from the attempts to open them.
pub proof fn law_raw<H, E>(
    clock: Clock,
    v4: Result<H, E>,
    v6: Result<H, E>,
    result: Result<(Pinger<H>, Receivers), E>,
)
    requires
        call_ensures(Pinger::<H>::raw::<E>, (clock, v4, v6), result),
    ensures
        pinger_comes_from(Type::RAW, clock, v4, v6, result),
{
    law_available(Type::RAW, v4, v6);
}

/// Whether `outgoing` is the request that carries `token` to `hostname`.
pub open spec fn is_request(
    outgoing: Outgoing,
    hostname: IpAddr,
    ident: u16,
    seq_cnt: u16,
    token: Seq<u8>,
) -> bool {
    let message = outgoing.packet@;
    &&& outgoing.dest.ip == hostname
    &&& outgoing.dest.port == 0
    &&& message.len() == 32
    &&& message[0] == (if hostname is V4 {
        8u8
    } else {
        128u8
    })
    &&& message[1] == 0
    &&& message[2] * 256 + message[3] == checksum_of(message.update(2, 0).update(3, 0))
    &&& message[4] * 256 + message[5] == ident
    &&& message[6] * 256 + message[7] == seq_cnt
    &&& message.skip(8) == token
}

/// Whether there is no socket for the family of the host.
pub open spec fn cannot_be_reached<H>(sockets: Sockets<H>, hostname: IpAddr) -> bool {
    match hostname {
        IpAddr::V4(_) => sockets is V6,
        IpAddr::V6(_) => sockets is V4,
    }
}

/// What a request says, and that it is made if and only if there is a socket for the family
/// of the host. Whether or not it is made, the sender waits under the token, and everything
/// else is as it was.
pub proof fn law_request<H>(
    pinger: &mut Pinger<H>,
    hostname: IpAddr,
    ident: u16,
    seq_cnt: u16,
    token: Token,
    sender: oneshot::Sender<Instant>,
    result: Result<Outgoing, Refusal>,
)
    requires
        call_ensures(
            Pinger::<H>::request,
            (pinger, hostname, ident, seq_cnt, token, sender),
            result,
        ),
    ensures
        result is Err <==> cannot_be_reached(old(pinger).sockets, hostname),
        result matches Ok(outgoing) ==> is_request(outgoing, hostname, ident, seq_cnt, token@),
        result matches Err(refusal) ==> refusal == Refusal::InvalidProtocol,
        final(pinger).sockets == old(pinger).sockets,
        final(pinger).clock == old(pinger).clock,
        final(pinger).state@.dom().contains(token@),
        final(pinger).state@[token@] == sender,
        forall|other: Seq<u8>|
            other != token@ ==> {
                &&& #[trigger] final(pinger).state@.dom().contains(other)
                    == old(pinger).state@.dom().contains(other)
                &&& final(pinger).state@.dom().contains(other) ==> final(pinger).state@[other]
                    == old(pinger).state@[other]
            },
{
    law_request_packet(hostname, ident, seq_cnt, token@);
}

/// Whether `result` is what a ping came to that took a pinger from `before` to `after`. The
/// clock was read when the ping was called for. There is no ping, and nothing waits for it,
/// if there is no point in time the timeout later. Else there is one, and it waits under a
/// token drawn for it. If there is no socket for the host, that is all. Else the clock was
/// read once more, which is when the ping started; it times out the timeout after it was
/// called for, its request carries its token to the host, and it holds the end of the channel
/// whose other end waits.
pub open spec fn is_ping<H>(
    before: Pinger<H>,
    after: Pinger<H>,
    hostname: IpAddr,
    ident: u16,
    seq_cnt: u16,
    timeout: Duration,
    result: Option<PingFuture>,
) -> bool {
    let taken = before.clock.readings().len() as int;
    let called = after.clock.readings()[taken];
    let started = after.clock.readings()[taken + 1];
    let origin = before.clock.origin();
    &&& after.sockets == before.sockets
    &&& after.clock.origin() == origin
    &&& after.clock.readings().len() > taken
    &&& after.clock.readings().take(taken) == before.clock.readings()
    &&& read_from(origin, called)
    &&& match result {
        None => {
            &&& after.clock.readings().len() == taken + 1
            &&& after.state@ == before.state@
            &&& called@ + timeout@ < 18_446_744_073_709_551_616_000_000_000 ==> out_of_reach(
                origin,
                Instant::of_nanos(called@ + timeout@),
            )
        },
        Some(future) => {
            &&& called@ + timeout@ < 18_446_744_073_709_551_616_000_000_000
            &&& within_reach(origin, Instant::of_nanos(called@ + timeout@))
            &&& exists|token: Token| waits_under(before, after, token, future)
            &&& if cannot_be_reached(before.sockets, hostname) {
                &&& future.inner is InvalidProtocol
                &&& after.clock.readings().len() == taken + 1
            } else {
                &&& future.inner matches PingFutureKind::Normal(normal)
                &&& after.clock.readings().len() == taken + 2
                &&& read_from(origin, started)
                &&& normal.start_time == started
                &&& normal.deadline@ == called@ + timeout@
                &&& normal.send matches Some(outgoing)
                &&& is_request(outgoing, hostname, ident, seq_cnt, normal.token@)
                &&& drawn_token(normal.token)
                &&& after.state@.dom().contains(normal.token@)
                &&& connected(after.state@[normal.token@], normal.receiver)
                &&& forall|other: Seq<u8>|
                    other != normal.token@ ==> {
                        &&& #[trigger] after.state@.dom().contains(other)
                            == before.state@.dom().contains(other)
                        &&& after.state@.dom().contains(other) ==> after.state@[other]
                            == before.state@[other]
                    }
            }
        },
    }
}

/// What a ping that was made comes to.
pub proof fn law_pinged<H>(
    before: Pinger<H>,
    after: Pinger<H>,
    hostname: IpAddr,
    ident: u16,
    seq_cnt: u16,
    timeout: Duration,
    future: PingFuture,
)
    requires
        Pinger::pinged(before, after, hostname, ident, seq_cnt, timeout, future),
    ensures
        is_ping(before, after, hostname, ident, seq_cnt, timeout, Some(future)),
{
    let taken = before.clock.readings().len() as int;
    let called = after.clock.readings()[taken];
    law_every_ping_draws_a_token(before, after, hostname, ident, seq_cnt, timeout, future);
    Instant::lemma_of_nanos(called@ + timeout@);
    assert(after.clock.readings().take(taken) =~= before.clock.readings());
    if future.inner is Normal {
        law_request_packet(hostname, ident, seq_cnt, future.inner->Normal_0.token@);
    }
}

/// What a ping that was given up comes to.
pub proof fn law_given_up<H>(
    before: Pinger<H>,
    after: Pinger<H>,
    hostname: IpAddr,
    ident: u16,
    seq_cnt: u16,
    timeout: Duration,
)
    requires
        Pinger::given_up(before, after, timeout),
    ensures
        is_ping(before, after, hostname, ident, seq_cnt, timeout, None),
{
    let taken = before.clock.readings().len() as int;
    assert(after.clock.readings().take(taken) =~= before.clock.readings());
}

/// What pinging a host comes to.
pub proof fn law_ping<H>(
    pinger: &mut Pinger<H>,
    hostname: IpAddr,
    ident: u16,
    seq_cnt: u16,
    timeout: Duration,
    result: Option<PingFuture>,
)
    requires
        call_ensures(Pinger::<H>::ping, (pinger, hostname, ident, seq_cnt, timeout), result),
    ensures
        is_ping(*old(pinger), *final(pinger), hostname, ident, seq_cnt, timeout, result),
{
    match result {
        Some(future) => law_pinged(
            *old(pinger),
            *final(pinger),
            hostname,
            ident,
            seq_cnt,
            timeout,
            future,
        ),
        None => law_given_up(*old(pinger), *final(pinger), hostname, ident, seq_cnt, timeout),
    }
}

/// A ping that is launched has what it was given, and times out the timeout after it was
/// called for, whenever it started.
pub proof fn law_launch(
    outgoing: Outgoing,
    token: Token,
    receiver: oneshot::Receiver<Instant>,
    called: Instant,
    timeout: Duration,
    started: Instant,
    future: PingFuture,
)
    requires
        called@ + timeout@ < 18_446_744_073_709_551_616_000_000_000,
        call_ensures(
            PingFuture::launch,
            (outgoing, token, receiver, called, timeout, started),
            future,
        ),
    ensures
        future.inner matches PingFutureKind::Normal(normal) && {
            &&& normal.start_time == started
            &&& normal.deadline@ == called@ + timeout@
            &&& normal.token == token
            &&& normal.send == Some(outgoing)
            &&& normal.receiver == receiver
        },
{
    Instant::lemma_of_nanos(called@ + timeout@);
}

/// A ping that is refused tells why.
pub proof fn law_refused(refusal: Refusal, future: PingFuture)
    requires
        call_ensures(PingFuture::refused, (refusal,), future),
    ensures
        refusal is InvalidProtocol <==> future.inner is InvalidProtocol,
        refusal is PacketEncodeError <==> future.inner is PacketEncodeError,
{
}

/// Letting go of a ping takes away what waits under its token, hands it back, and changes
/// nothing else. Letting go of a ping without a request changes nothing.
pub proof fn law_release<H>(
    future: PingFuture,
    pinger: &mut Pinger<H>,
    waiting: Option<oneshot::Sender<Instant>>,
)
    requires
        call_ensures(PingFuture::release::<H>, (&future, pinger), waiting),
    ensures
        final(pinger).sockets == old(pinger).sockets,
        final(pinger).clock == old(pinger).clock,
        !(future.inner is Normal) ==> waiting is None && final(pinger).state@ == old(
            pinger,
        ).state@,
        future.inner matches PingFutureKind::Normal(normal) ==> {
            &&& waiting is Some <==> old(pinger).state@.dom().contains(normal.token@)
            &&& waiting matches Some(sender) ==> sender == old(pinger).state@[normal.token@]
            &&& !final(pinger).state@.dom().contains(normal.token@)
            &&& forall|other: Seq<u8>|
                other != normal.token@ ==> {
                    &&& #[trigger] final(pinger).state@.dom().contains(other)
                        == old(pinger).state@.dom().contains(other)
                    &&& final(pinger).state@.dom().contains(other) ==> final(pinger).state@[other]
                        == old(pinger).state@[other]
                }
        },
{
}

/// Nothing waits at first. What is let wait under a token is what is taken out under it, once,
/// and whatever waited under it before is gone.
pub proof fn law_waiting<V>(
    fresh: PingState<V>,
    entering: &mut PingState<V>,
    leaving: &mut PingState<V>,
    again: &mut PingState<V>,
    token: Token,
    value: V,
    key: &[u8],
    taken: Option<V>,
    taken_again: Option<V>,
)
    requires
        call_ensures(PingState::<V>::new, (), fresh),
        call_ensures(PingState::<V>::insert, (entering, token, value), ()),
        *final(entering) == *old(leaving),
        key@ == token@,
        call_ensures(PingState::<V>::remove, (leaving, key), taken),
        *final(leaving) == *old(again),
        call_ensures(PingState::<V>::remove, (again, key), taken_again),
    ensures
        forall|other: Seq<u8>| !(#[trigger] fresh@.dom().contains(other)),
        taken == Some(value),
        taken_again is None,
        forall|other: Seq<u8>|
            other != token@ ==> {
                &&& #[trigger] final(again)@.dom().contains(other)
                    == old(entering)@.dom().contains(other)
                &&& final(again)@.dom().contains(other) ==> final(again)@[other]
                    == old(entering)@[other]
            },
{
}

/// A request holds a header of eight bytes and a token of 24. Its reply fits into what is
/// read from a socket at once, even behind the longest IPv4 header.
pub proof fn law_sizes(token: Token)
    ensures
        token@.len() == 24,
        ECHO_REQUEST_BUFFER_SIZE == 8 + token@.len(),
        60 + ECHO_REQUEST_BUFFER_SIZE <= RECEIVE_BUFFER_SIZE,
        RECEIVE_BUFFER_SIZE == 2048,
{
}

} // verus!
