//! What holds of the parts taken together.

pub mod chains;
pub mod messages;
pub mod pinging;
pub mod polling;
pub mod receiving;
pub mod sockets;
pub mod times;

use vstd::prelude::*;

use futures::channel::oneshot;

use crate::errors::Error;
use crate::net::IpAddr;
use crate::packet::{IcmpV4, IcmpV6, Proto};
use crate::ping::{
    InFlight, PingChain, PingChainStream, PingFuture, PingFutureKind, Pinger, Poll, PollAction,
    PollEvent,
};
use crate::random::Token;
use crate::receiver::{Notice, ParseReply, ReceiveAction, ReceiveEvent};
use crate::socket::{Attempt, SendError, Sockets, Step, Type};
use crate::time::{Duration, Instant};

verus! {

use crate::channel::{connected, sent};
use crate::packet::checksum::{checksum_of, fold, lemma_word_sum_concat, word_sum};
use crate::packet::echo::{be_bytes, be_value, echo_bytes, lemma_echo_bytes, request_bytes};
use crate::packet::ipv4::{header_size_of, ICMP_PROTOCOL, MINIMUM_HEADER_SIZE};
use crate::random::drawn_token;
use crate::socket::{recv_step, send_step};
use crate::time::{MAX_NANOS, NANOS_PER_SEC};

/// The identifier and the sequence number that are read from a message are those
/// that were written to it.
pub proof fn law_message_fields(
    type_: u8,
    code: u8,
    sum: u16,
    ident: u16,
    seq_cnt: u16,
    payload: Seq<u8>,
)
    ensures
        ({
            let message = echo_bytes(type_, code, sum, ident, seq_cnt, payload);
            &&& be_value(message[4], message[5]) == ident
            &&& be_value(message[6], message[7]) == seq_cnt
        }),
{
    lemma_echo_bytes(type_, code, sum, ident, seq_cnt, payload);
}

/// What the checksum field adds to the word sum of a message.
proof fn lemma_checksum_field(
    type_: u8,
    code: u8,
    sum: u16,
    ident: u16,
    seq_cnt: u16,
    payload: Seq<u8>,
)
    ensures
        word_sum(echo_bytes(type_, code, sum, ident, seq_cnt, payload)) == word_sum(
            echo_bytes(type_, code, 0, ident, seq_cnt, payload),
        ) + sum,
{
    let head = seq![type_, code];
    let tail = be_bytes(ident) + be_bytes(seq_cnt) + payload;
    assert forall|s: u16|
        word_sum(#[trigger] echo_bytes(type_, code, s, ident, seq_cnt, payload)) == word_sum(head)
            + s + word_sum(tail) by {
        let field = be_bytes(s);
        assert(echo_bytes(type_, code, s, ident, seq_cnt, payload) =~= head + (field + tail));
        lemma_word_sum_concat(head, field + tail);
        lemma_word_sum_concat(field, tail);
        assert(field.skip(2).len() == 0);
        assert(word_sum(field.skip(2)) == 0);
        assert(word_sum(field) == s);
    }
}

/// The checksum of a request is right: the words of the message, the checksum
/// among them, add up to all ones.
pub proof fn law_request_checksum<P: Proto>(ident: u16, seq_cnt: u16, payload: Seq<u8>)
    ensures
        fold(word_sum(request_bytes::<P>(ident, seq_cnt, payload))) == 0xffff,
{
    let type_ = P::request_type();
    let code = P::request_code();
    let blank = echo_bytes(type_, code, 0, ident, seq_cnt, payload);
    lemma_checksum_field(type_, code, checksum_of(blank), ident, seq_cnt, payload);
}

/// A reply carries back the payload of its request, whatever its checksum: a
/// datagram socket that receives it over IPv4 hands on that payload.
pub proof fn law_v4_reply(sum: u16, ident: u16, seq_cnt: u16, payload: Seq<u8>)
    ensures
        IcmpV4::payload_of(
            false,
            echo_bytes(
                IcmpV4::reply_type(),
                IcmpV4::reply_code(),
                sum,
                ident,
                seq_cnt,
                payload,
            ),
        ) == Some(payload),
{
    lemma_echo_bytes(IcmpV4::reply_type(), IcmpV4::reply_code(), sum, ident, seq_cnt, payload);
}

/// Whether `header` is an IPv4 header, with or without options, in front of an ICMP message.
pub open spec fn is_icmp_header(header: Seq<u8>) -> bool {
    &&& header.len() >= MINIMUM_HEADER_SIZE
    &&& header[0] / 16 == 4
    &&& header_size_of(header) == header.len()
    &&& header[9] == ICMP_PROTOCOL
}

/// A raw socket that receives a reply over IPv4 hands on the payload too, whatever
/// IPv4 header stands in front of the reply.
pub proof fn law_v4_reply_behind_header(
    header: Seq<u8>,
    sum: u16,
    ident: u16,
    seq_cnt: u16,
    payload: Seq<u8>,
)
    requires
        is_icmp_header(header),
    ensures
        IcmpV4::payload_of(
            true,
            header + echo_bytes(
                IcmpV4::reply_type(),
                IcmpV4::reply_code(),
                sum,
                ident,
                seq_cnt,
                payload,
            ),
        ) == Some(payload),
{
    let message = echo_bytes(
        IcmpV4::reply_type(),
        IcmpV4::reply_code(),
        sum,
        ident,
        seq_cnt,
        payload,
    );
    lemma_echo_bytes(IcmpV4::reply_type(), IcmpV4::reply_code(), sum, ident, seq_cnt, payload);
    assert((header + message).skip(header_size_of(header + message)) =~= message);
}

/// A socket that receives a reply over IPv6 hands on its payload, be it raw or not.
pub proof fn law_v6_reply(
    privileged: bool,
    sum: u16,
    ident: u16,
    seq_cnt: u16,
    payload: Seq<u8>,
)
    ensures
        IcmpV6::payload_of(
            privileged,
            echo_bytes(
                IcmpV6::reply_type(),
                IcmpV6::reply_code(),
                sum,
                ident,
                seq_cnt,
                payload,
            ),
        ) == Some(payload),
{
    lemma_echo_bytes(IcmpV6::reply_type(), IcmpV6::reply_code(), sum, ident, seq_cnt, payload);
}

/// A request is never taken for a reply, not even by the socket that it left through.
pub proof fn law_request_is_no_reply(ident: u16, seq_cnt: u16, payload: Seq<u8>)
    ensures
        IcmpV4::payload_of(false, request_bytes::<IcmpV4>(ident, seq_cnt, payload)) is None,
        forall|privileged: bool|
            #[trigger] IcmpV6::payload_of(
                privileged,
                request_bytes::<IcmpV6>(ident, seq_cnt, payload),
            ) is None,
        forall|header: Seq<u8>| #[trigger]
            is_icmp_header(header) ==> IcmpV4::payload_of(
                true,
                header + request_bytes::<IcmpV4>(ident, seq_cnt, payload),
            ) is None,
{
    let v4 = request_bytes::<IcmpV4>(ident, seq_cnt, payload);
    assert forall|header: Seq<u8>| #[trigger] is_icmp_header(header) implies IcmpV4::payload_of(
        true,
        header + v4,
    ) is None by {
        assert((header + v4).skip(header_size_of(header + v4)) =~= v4);
    }
}

/// Whether `reply` is what a host sends back for the echo request `request`: an echo
/// reply with the same identifier, sequence number and payload.
pub open spec fn echoes<P: Proto>(request: Seq<u8>, reply: Seq<u8>) -> bool {
    &&& reply.len() == request.len()
    &&& reply[0] == P::reply_type()
    &&& reply[1] == P::reply_code()
    &&& reply.skip(4) == request.skip(4)
}

/// What a host sends back for the request of a ping is recognised by the token of
/// that ping: over IPv4 on a datagram socket, over IPv4 on a raw socket behind any
/// header, and over IPv6 on either.
pub proof fn law_answer_carries_the_token<H>(
    before: Pinger<H>,
    after: Pinger<H>,
    hostname: IpAddr,
    ident: u16,
    seq_cnt: u16,
    timeout: Duration,
    future: PingFuture,
    reply: Seq<u8>,
    header: Seq<u8>,
    privileged: bool,
)
    requires
        Pinger::pinged(before, after, hostname, ident, seq_cnt, timeout, future),
        future.inner is Normal,
        match hostname {
            IpAddr::V4(_) => echoes::<IcmpV4>(
                future.inner->Normal_0.send->Some_0.packet@,
                reply,
            ),
            IpAddr::V6(_) => echoes::<IcmpV6>(
                future.inner->Normal_0.send->Some_0.packet@,
                reply,
            ),
        },
        is_icmp_header(header),
    ensures
        hostname is V4 ==> {
            &&& IcmpV4::payload_of(false, reply) == Some(future.inner->Normal_0.token@)
            &&& IcmpV4::payload_of(true, header + reply) == Some(future.inner->Normal_0.token@)
        },
        hostname is V6 ==> IcmpV6::payload_of(privileged, reply) == Some(
            future.inner->Normal_0.token@,
        ),
{
    let token = future.inner->Normal_0.token@;
    let packet = future.inner->Normal_0.send->Some_0.packet@;
    assert(packet.skip(8) == token) by {
        match hostname {
            IpAddr::V4(_) => {
                lemma_request_bytes::<IcmpV4>(ident, seq_cnt, token);
            },
            IpAddr::V6(_) => {
                lemma_request_bytes::<IcmpV6>(ident, seq_cnt, token);
            },
        }
    }
    assert(reply.skip(8) =~= reply.skip(4).skip(4));
    assert(packet.skip(8) =~= packet.skip(4).skip(4));
    assert((header + reply).skip(header_size_of(header + reply)) =~= reply);
}

/// Where the payload of a request stands.
proof fn lemma_request_bytes<P: Proto>(ident: u16, seq_cnt: u16, payload: Seq<u8>)
    ensures
        request_bytes::<P>(ident, seq_cnt, payload).len() == 8 + payload.len(),
        request_bytes::<P>(ident, seq_cnt, payload).skip(8) == payload,
{
    let type_ = P::request_type();
    let code = P::request_code();
    let sum = checksum_of(echo_bytes(type_, code, 0, ident, seq_cnt, payload));
    lemma_echo_bytes(type_, code, sum, ident, seq_cnt, payload);
}

/// A ping whose request could be made waits under its token, through one half of the
/// channel whose other half it holds.
pub proof fn law_ping_waits<H>(
    before: Pinger<H>,
    after: Pinger<H>,
    hostname: IpAddr,
    ident: u16,
    seq_cnt: u16,
    timeout: Duration,
    future: PingFuture,
)
    requires
        Pinger::pinged(before, after, hostname, ident, seq_cnt, timeout, future),
        future.inner is Normal,
    ensures
        after.state@.dom().contains(future.inner->Normal_0.token@),
        connected(
            after.state@[future.inner->Normal_0.token@],
            future.inner->Normal_0.receiver,
        ),
{
}

/// A reply that carries the token of a ping ends that ping: what is told when the
/// reply came is the other half of the channel that the ping holds. The ping was
/// called for, started and answered at three readings of the clock, in this order. All
/// that waited before the ping still waits, but for what waited under the same token.
pub proof fn law_reply_ends_its_ping<H>(
    before: Pinger<H>,
    waiting: Pinger<H>,
    after: Pinger<H>,
    hostname: IpAddr,
    ident: u16,
    seq_cnt: u16,
    timeout: Duration,
    future: PingFuture,
)
    requires
        Pinger::pinged(before, waiting, hostname, ident, seq_cnt, timeout, future),
        future.inner is Normal,
        Pinger::answered(waiting, after, Some(future.inner->Normal_0.token@)),
    ensures
        after.state@ == before.state@.remove(future.inner->Normal_0.token@),
        exists|sender: oneshot::Sender<Instant>|
            connected(sender, future.inner->Normal_0.receiver) && #[trigger] sent(
                sender,
                after.clock.readings().last(),
            ),
        after.clock.readings() == before.clock.readings().push(
            Pinger::called_at(before, waiting),
        ).push(future.inner->Normal_0.start_time).push(after.clock.readings().last()),
{
    let token = future.inner->Normal_0.token;
    law_ping_waits(before, waiting, hostname, ident, seq_cnt, timeout, future);
    assert(after.state@ =~= before.state@.remove(token@));
}

/// A reply to one ping leaves every other ping waiting as it was.
pub proof fn law_other_pings_wait_on<H>(
    before: Pinger<H>,
    after: Pinger<H>,
    payload: Option<Seq<u8>>,
    other: Seq<u8>,
)
    requires
        Pinger::answered(before, after, payload),
        payload != Some(other),
    ensures
        after.state@.dom().contains(other) == before.state@.dom().contains(other),
        before.state@.dom().contains(other) ==> after.state@[other] == before.state@[other],
{
}

/// Whether `token` was drawn for the ping that took a pinger from `before` to `after` and
/// came to `future`, and what waits under it is one end of a channel. If the request could
/// be made, the ping holds the token and the other end.
pub open spec fn waits_under<H>(
    before: Pinger<H>,
    after: Pinger<H>,
    token: Token,
    future: PingFuture,
) -> bool {
    &&& drawn_token(token)
    &&& after.state@.dom().contains(token@)
    &&& after.state@ == before.state@.insert(token@, after.state@[token@])
    &&& match future.inner {
        PingFutureKind::Normal(normal) => {
            &&& normal.token == token
            &&& connected(after.state@[token@], normal.receiver)
        },
        _ => exists|receiver: oneshot::Receiver<Instant>| #[trigger]
            connected(after.state@[token@], receiver),
    }
}

/// Every ping, one without a socket too, waits under a token that was drawn for it.
pub proof fn law_every_ping_draws_a_token<H>(
    before: Pinger<H>,
    after: Pinger<H>,
    hostname: IpAddr,
    ident: u16,
    seq_cnt: u16,
    timeout: Duration,
    future: PingFuture,
)
    requires
        Pinger::pinged(before, after, hostname, ident, seq_cnt, timeout, future),
    ensures
        exists|token: Token| waits_under(before, after, token, future),
{
    let (token, sender, receiver) = choose|
        token: Token,
        sender: oneshot::Sender<Instant>,
        receiver: oneshot::Receiver<Instant>,
    | #![trigger drawn_token(token), connected(sender, receiver)]
        {
            &&& drawn_token(token)
            &&& connected(sender, receiver)
            &&& after.state@ == before.state@.insert(token@, sender)
            &&& future.inner matches PingFutureKind::Normal(normal) ==> {
                &&& normal.token == token
                &&& normal.receiver == receiver
            }
        };
    assert(after.state@[token@] == sender);
    assert(connected(after.state@[token@], receiver));
    assert(waits_under(before, after, token, future));
}

/// A new ping, one without a socket too, leaves every ping waiting as it was that does
/// not wait under the token drawn for the new one.
pub proof fn law_new_ping_leaves_others<H>(
    before: Pinger<H>,
    after: Pinger<H>,
    hostname: IpAddr,
    ident: u16,
    seq_cnt: u16,
    timeout: Duration,
    future: PingFuture,
    token: Token,
    other: Seq<u8>,
)
    requires
        Pinger::pinged(before, after, hostname, ident, seq_cnt, timeout, future),
        waits_under(before, after, token, future),
        other != token@,
    ensures
        after.state@.dom().contains(other) == before.state@.dom().contains(other),
        before.state@.dom().contains(other) ==> after.state@[other] == before.state@[other],
{
}

/// Letting go of one ping leaves every other ping waiting as it was.
pub proof fn law_release_leaves_others<H>(
    before: Pinger<H>,
    after: Pinger<H>,
    future: PingFuture,
    other: Seq<u8>,
)
    requires
        future.inner.released(before, after),
        future.inner is Normal ==> other != future.inner->Normal_0.token@,
    ensures
        after.state@.dom().contains(other) == before.state@.dom().contains(other),
        before.state@.dom().contains(other) ==> after.state@[other] == before.state@[other],
{
}

/// One arrival at a receiver: what it started from, the payload of the reply that
/// arrived, if it was a reply, and what it came to.
pub struct Arrival<H> {
    pub before: Pinger<H>,
    pub payload: Option<Seq<u8>>,
    pub after: Pinger<H>,
}

/// Whether the arrivals follow each other at the receivers of one pinger.
pub open spec fn is_arrival_run<H>(run: Seq<Arrival<H>>) -> bool {
    &&& forall|i: int|
        0 <= i < run.len() ==> Pinger::answered(
            (#[trigger] run[i]).before,
            run[i].after,
            run[i].payload,
        )
    &&& forall|i: int, j: int|
        0 <= i < run.len() && j == i + 1 && j < run.len() ==> #[trigger] run[i].after
            == #[trigger] run[j].before
}

/// Whether one of the first `count` arrivals carried `token`.
pub open spec fn arrived<H>(run: Seq<Arrival<H>>, token: Seq<u8>, count: int) -> bool {
    exists|i: int| 0 <= i < count && (#[trigger] run[i]).payload == Some(token)
}

/// Whatever arrives, a ping waits on, as it was, until the first reply with its token
/// arrives. Nothing new waits.
pub proof fn law_run_of_arrivals<H>(run: Seq<Arrival<H>>, token: Seq<u8>, at: int)
    requires
        is_arrival_run(run),
        0 <= at < run.len(),
    ensures
        run[at].after.state@.dom().contains(token) <==> run[0].before.state@.dom().contains(token)
            && !arrived(run, token, at + 1),
        run[at].after.state@.dom().contains(token) ==> run[at].after.state@[token]
            == run[0].before.state@[token],
    decreases at,
{
    let here = run[at];
    assert(Pinger::answered(here.before, here.after, here.payload));
    if at > 0 {
        law_run_of_arrivals(run, token, at - 1);
        assert(run[at - 1].after == run[at].before);
    }
    if here.payload == Some(token) {
        assert(arrived(run, token, at + 1));
    } else if arrived(run, token, at + 1) {
        let i = choose|i: int| 0 <= i < at + 1 && (#[trigger] run[i]).payload == Some(token);
        assert(i < at);
        assert(arrived(run, token, at));
    }
    if at > 0 && arrived(run, token, at) {
        let i = choose|i: int| 0 <= i < at && (#[trigger] run[i]).payload == Some(token);
        assert(run[i].payload == Some(token));
        assert(arrived(run, token, at + 1));
    }
}

/// Of all that arrives, the first reply with the token of a ping that waits is the one
/// that the ping is told of, with the reading of the clock taken for that reply.
pub proof fn law_first_reply_is_told<H>(run: Seq<Arrival<H>>, token: Seq<u8>, at: int)
    requires
        is_arrival_run(run),
        0 <= at < run.len(),
        run[0].before.state@.dom().contains(token),
        run[at].payload == Some(token),
        !arrived(run, token, at),
    ensures
        sent(run[0].before.state@[token], run[at].after.clock.readings().last()),
        run[at].before.clock.reads(run[at].after.clock.readings().last()),
{
    let here = run[at];
    assert(Pinger::answered(here.before, here.after, here.payload));
    if at > 0 {
        law_run_of_arrivals(run, token, at - 1);
        assert(run[at - 1].after == run[at].before);
    }
}

/// What can happen to a pinger.
pub enum Happening {
    /// A ping for which this token was drawn.
    Ping {
        hostname: IpAddr,
        ident: u16,
        seq_cnt: u16,
        timeout: Duration,
        token: Token,
        future: PingFuture,
    },
    /// A ping that was given up because the clock cannot tell its deadline.
    GivenUp { timeout: Duration },
    /// The arrival of a reply with this payload, or of something that is no reply.
    Arrival { payload: Option<Seq<u8>> },
    /// The release of a ping.
    Release { future: PingFuture },
}

/// One thing that happened to a pinger: what it started from and what it came to.
pub struct Episode<H> {
    pub before: Pinger<H>,
    pub happening: Happening,
    pub after: Pinger<H>,
}

impl<H> Episode<H> {
    /// Whether it can have happened like this.
    pub open spec fn happened(self) -> bool {
        match self.happening {
            Happening::Ping { hostname, ident, seq_cnt, timeout, token, future } => {
                &&& Pinger::pinged(
                    self.before,
                    self.after,
                    hostname,
                    ident,
                    seq_cnt,
                    timeout,
                    future,
                )
                &&& waits_under(self.before, self.after, token, future)
            },
            Happening::GivenUp { timeout } => Pinger::given_up(self.before, self.after, timeout),
            Happening::Arrival { payload } => Pinger::answered(self.before, self.after, payload),
            Happening::Release { future } => future.inner.released(self.before, self.after),
        }
    }

    /// Whether it concerns what waits under `token`: a reply with that token, the release
    /// of the ping that holds it, or a new ping under it.
    pub open spec fn concerns(self, token: Seq<u8>) -> bool {
        match self.happening {
            Happening::Ping { token: drawn, .. } => drawn@ == token,
            Happening::GivenUp { .. } => false,
            Happening::Arrival { payload } => payload == Some(token),
            Happening::Release { future } => future.inner is Normal
                && future.inner->Normal_0.token@ == token,
        }
    }
}

/// Whether these follow each other at one pinger.
pub open spec fn is_history<H>(history: Seq<Episode<H>>) -> bool {
    &&& forall|i: int| 0 <= i < history.len() ==> (#[trigger] history[i]).happened()
    &&& forall|i: int, j: int|
        0 <= i < history.len() && j == i + 1 && j < history.len() ==> #[trigger] history[i].after
            == #[trigger] history[j].before
}

/// Whatever happens to a pinger, in whatever order, what waits under a token stays as it
/// is, and nothing comes to wait there, as long as no reply with that token arrives, the
/// ping that holds it is not released and no new ping draws it.
pub proof fn law_waits_until_concerned<H>(
    history: Seq<Episode<H>>,
    token: Seq<u8>,
    from: int,
    at: int,
)
    requires
        is_history(history),
        0 <= from <= at < history.len(),
        forall|i: int| from <= i <= at ==> !(#[trigger] history[i]).concerns(token),
    ensures
        history[at].after.state@.dom().contains(token)
            == history[from].before.state@.dom().contains(token),
        history[from].before.state@.dom().contains(token) ==> history[at].after.state@[token]
            == history[from].before.state@[token],
    decreases at - from,
{
    let here = history[at];
    assert(here.happened());
    assert(!here.concerns(token));
    if from < at {
        law_waits_until_concerned(history, token, from, at - 1);
        assert(history[at - 1].after == history[at].before);
    }
}

/// What ends the wait under a token, after whatever else happened to the pinger: a reply
/// with the token tells what waited since then when it came, a release takes away what
/// waited, and a new ping that draws the token takes its place.
pub proof fn law_how_a_wait_ends<H>(
    history: Seq<Episode<H>>,
    token: Seq<u8>,
    from: int,
    at: int,
)
    requires
        is_history(history),
        0 <= from <= at < history.len(),
        forall|i: int| from <= i < at ==> !(#[trigger] history[i]).concerns(token),
        history[at].concerns(token),
        history[from].before.state@.dom().contains(token),
    ensures
        history[at].happening is Arrival ==> {
            let now = history[at].after.clock.readings().last();
            &&& history[at].before.clock.reads(now)
            &&& sent(history[from].before.state@[token], now)
            &&& !history[at].after.state@.dom().contains(token)
        },
        history[at].happening is Release ==> !history[at].after.state@.dom().contains(token),
        history[at].happening matches Happening::Ping { future, .. } ==> {
            &&& history[at].after.state@.dom().contains(token)
            &&& match future.inner {
                PingFutureKind::Normal(normal) => connected(
                    history[at].after.state@[token],
                    normal.receiver,
                ),
                _ => exists|receiver: oneshot::Receiver<Instant>| #[trigger]
                    connected(history[at].after.state@[token], receiver),
            }
        },
        !(history[at].happening is GivenUp),
{
    let here = history[at];
    assert(here.happened());
    if from < at {
        law_waits_until_concerned(history, token, from, at - 1);
        assert(history[at - 1].after == history[at].before);
    }
}

/// To take in what arrived and to deliver the notice that this left is to answer,
/// whatever happens in between.
pub proof fn law_delivery_completes_the_answer<H>(
    before: Pinger<H>,
    after: Pinger<H>,
    payload: Option<Seq<u8>>,
    notice: Option<Notice>,
)
    requires
        Pinger::taken_in(before, after, payload, notice),
        notice matches Some(notice) ==> sent(notice.sender, notice.time),
    ensures
        Pinger::answered(before, after, payload),
{
}

/// One event of a receiver: what it started from, and what it came to.
pub struct Reception<'a, H> {
    pub before: Pinger<H>,
    pub event: ReceiveEvent<'a>,
    pub after: Pinger<H>,
}

impl<'a, H> Reception<'a, H> {
    /// Whether it can have gone like this at a receiver of this version of ICMP, for a raw
    /// socket if `privileged`.
    pub open spec fn happened<Message: ParseReply>(self, privileged: bool) -> bool {
        Pinger::answered(self.before, self.after, self.event.payload::<Message>(privileged))
    }

    /// The arrival that it is.
    pub open spec fn arrival<Message: ParseReply>(self, privileged: bool) -> Arrival<H> {
        Arrival {
            before: self.before,
            payload: self.event.payload::<Message>(privileged),
            after: self.after,
        }
    }
}

/// Whether the events follow each other at one receiver.
pub open spec fn is_reception_run<'a, Message: ParseReply, H>(
    run: Seq<Reception<'a, H>>,
    privileged: bool,
) -> bool {
    &&& forall|i: int|
        0 <= i < run.len() ==> (#[trigger] run[i]).happened::<Message>(privileged)
    &&& forall|i: int, j: int|
        0 <= i < run.len() && j == i + 1 && j < run.len() ==> #[trigger] run[i].after
            == #[trigger] run[j].before
}

/// What the poll of a receiver comes to when the events are as given, if it comes to an end.
pub open spec fn receiver_outcome<'a>(events: Seq<ReceiveEvent<'a>>) -> Option<
    Poll<Result<(), ()>>,
>
    decreases events.len(),
{
    if events.len() == 0 {
        None
    } else {
        match events[0].action() {
            ReceiveAction::ReceiveAgain => receiver_outcome(events.skip(1)),
            ReceiveAction::Return(outcome) => Some(outcome),
        }
    }
}

/// However much arrives, and whatever else happens in between, the first event that is no
/// arrival decides what the poll of a receiver comes to: it goes on later if there is
/// nothing to receive yet, and it is over, with an error, if the socket failed.
pub proof fn law_receiver_outcome<'a>(events: Seq<ReceiveEvent<'a>>, received: int)
    requires
        0 <= received < events.len(),
        forall|i: int| 0 <= i < received ==> #[trigger] events[i] is Received,
        !(events[received] is Received),
    ensures
        receiver_outcome(events) == Some::<Poll<Result<(), ()>>>(
            if events[received] is Pending {
                Poll::Pending
            } else {
                Poll::Ready(Err(()))
            },
        ),
    decreases received,
{
    if received > 0 {
        let rest = events.skip(1);
        assert(events[0] is Received);
        assert(rest[received - 1] == events[received]);
        assert forall|i: int| 0 <= i < received - 1 implies #[trigger] rest[i] is Received by {
            assert(events[i + 1] is Received);
        }
        law_receiver_outcome(rest, received - 1);
    }
}

/// The events of a run.
pub open spec fn events_of<'a, H>(run: Seq<Reception<'a, H>>) -> Seq<ReceiveEvent<'a>> {
    Seq::new(run.len(), |i: int| run[i].event)
}

/// The arrivals that the first `count` events of a run are.
pub open spec fn arrivals_of<'a, Message: ParseReply, H>(
    run: Seq<Reception<'a, H>>,
    privileged: bool,
    count: int,
) -> Seq<Arrival<H>> {
    Seq::new(count as nat, |i: int| run[i].arrival::<Message>(privileged))
}

/// What arrives before the first event that is no arrival arrives in order, one arrival
/// after the other. The event itself changes nothing and decides.
pub proof fn law_run_of_receptions<'a, Message: ParseReply, H>(
    run: Seq<Reception<'a, H>>,
    privileged: bool,
    received: int,
)
    requires
        is_reception_run::<Message, H>(run, privileged),
        0 <= received < run.len(),
        forall|i: int| 0 <= i < received ==> (#[trigger] run[i]).event is Received,
        !(run[received].event is Received),
    ensures
        is_arrival_run(arrivals_of::<Message, H>(run, privileged, received)),
        received > 0 ==> run[received].before == run[received - 1].after,
        run[received].after.state@ == run[received].before.state@,
        run[received].after.clock == run[received].before.clock,
        run[received].after.sockets == run[received].before.sockets,
        receiver_outcome(events_of(run)) == Some::<Poll<Result<(), ()>>>(
            if run[received].event is Pending {
                Poll::Pending
            } else {
                Poll::Ready(Err(()))
            },
        ),
{
    assert(run[received].happened::<Message>(privileged));
    let events = events_of(run);
    assert forall|i: int| 0 <= i < received implies #[trigger] events[i] is Received by {
        assert(run[i].event is Received);
    }
    law_receiver_outcome(events, received);
    let arrivals = arrivals_of::<Message, H>(run, privileged, received);
    assert forall|i: int| 0 <= i < arrivals.len() implies Pinger::answered(
        (#[trigger] arrivals[i]).before,
        arrivals[i].after,
        arrivals[i].payload,
    ) by {
        assert(run[i].happened::<Message>(privileged));
    }
    assert forall|i: int, j: int|
        0 <= i < arrivals.len() && j == i + 1 && j
            < arrivals.len() implies #[trigger] arrivals[i].after
        == #[trigger] arrivals[j].before by {
        assert(run[i].after == run[j].before);
    }
    if received > 0 {
        assert(run[received - 1].after == run[received].before);
    }
}

/// A second reply to the same ping changes nothing.
pub proof fn law_second_reply_is_passed_over<H>(
    before: Pinger<H>,
    once: Pinger<H>,
    twice: Pinger<H>,
    payload: Seq<u8>,
)
    requires
        Pinger::answered(before, once, Some(payload)),
        Pinger::answered(once, twice, Some(payload)),
    ensures
        twice.state@ == once.state@,
        !once.state@.dom().contains(payload),
{
    assert(twice.state@ =~= once.state@);
}

/// Letting go of a ping undoes it: what waits then is what waited before, as long as
/// nothing waited under the same token.
pub proof fn law_release_undoes_ping<H>(
    before: Pinger<H>,
    waiting: Pinger<H>,
    after: Pinger<H>,
    hostname: IpAddr,
    ident: u16,
    seq_cnt: u16,
    timeout: Duration,
    future: PingFuture,
)
    requires
        Pinger::pinged(before, waiting, hostname, ident, seq_cnt, timeout, future),
        future.inner is Normal,
        !before.state@.dom().contains(future.inner->Normal_0.token@),
        future.inner.released(waiting, after),
    ensures
        after.state@ == before.state@,
{
    assert(after.state@ =~= before.state@);
}

/// Letting go of a ping that was answered changes nothing.
pub proof fn law_release_after_reply<H>(
    before: Pinger<H>,
    answered: Pinger<H>,
    after: Pinger<H>,
    future: PingFuture,
)
    requires
        future.inner is Normal,
        Pinger::answered(before, answered, Some(future.inner->Normal_0.token@)),
        future.inner.released(answered, after),
    ensures
        after.state@ == answered.state@,
{
    assert(after.state@ =~= answered.state@);
}

/// What polling a ping comes to when the sending, the reply and the deadline, each
/// asked at most once and only when the ping asks for it, answer as given.
pub open spec fn poll_outcome(
    ping: PingFutureKind,
    event: PollEvent,
    send: Poll<Result<(), ()>>,
    reply: Poll<Result<Instant, oneshot::Canceled>>,
    sleep: Poll<()>,
) -> Poll<Result<Option<Duration>, Error>>
    decreases
            match event {
                PollEvent::Start => 3nat,
                PollEvent::Send(_) => 2,
                PollEvent::Receiver(_) => 1,
                PollEvent::Sleep(_) => 0,
            },
{
    match ping.action_after(event) {
        PollAction::PollSend => poll_outcome(
            ping.after(event),
            PollEvent::Send(send),
            send,
            reply,
            sleep,
        ),
        PollAction::PollReceiver => poll_outcome(
            ping.after(event),
            PollEvent::Receiver(reply),
            send,
            reply,
            sleep,
        ),
        PollAction::PollSleep => poll_outcome(
            ping.after(event),
            PollEvent::Sleep(sleep),
            send,
            reply,
            sleep,
        ),
        PollAction::Return(outcome) => outcome,
    }
}

/// What a poll of a ping comes to: a request that cannot be sent fails it; else a
/// reply resolves it into the time since the start, and a reply that can come no
/// more fails it; else the deadline resolves it into `None`; else it goes on.
pub proof fn law_poll_outcome(
    ping: PingFutureKind,
    send: Poll<Result<(), ()>>,
    reply: Poll<Result<Instant, oneshot::Canceled>>,
    sleep: Poll<()>,
)
    requires
        ping is Normal,
    ensures
        poll_outcome(ping, PollEvent::Start, send, reply, sleep) == {
            let normal = ping->Normal_0;
            if normal.send is Some && send matches Poll::Ready(Err(_)) {
                Poll::Ready(Err(Error::InternalError))
            } else {
                match reply {
                    Poll::Ready(Ok(stop_time)) => Poll::Ready(
                        Ok(Some(stop_time.since(normal.start_time))),
                    ),
                    Poll::Ready(Err(_)) => Poll::Ready(Err(Error::InternalError)),
                    Poll::Pending => match sleep {
                        Poll::Ready(_) => Poll::Ready(Ok(None)),
                        Poll::Pending => Poll::Pending,
                    },
                }
            }
        },
{
    reveal_with_fuel(poll_outcome, 4);
}

/// A ping of a host for whose family there is no socket fails for that reason, and
/// no other ping does.
pub proof fn law_invalid_protocol<H>(
    before: Pinger<H>,
    after: Pinger<H>,
    hostname: IpAddr,
    ident: u16,
    seq_cnt: u16,
    timeout: Duration,
    future: PingFuture,
    send: Poll<Result<(), ()>>,
    reply: Poll<Result<Instant, oneshot::Canceled>>,
    sleep: Poll<()>,
)
    requires
        Pinger::pinged(before, after, hostname, ident, seq_cnt, timeout, future),
    ensures
        poll_outcome(future.inner, PollEvent::Start, send, reply, sleep) == Poll::<
            Result<Option<Duration>, Error>,
        >::Ready(Err(Error::InvalidProtocol)) <==> before.sockets.socket_for(hostname) is None,
{
    reveal_with_fuel(poll_outcome, 4);
}

/// Every request fits into its buffer.
pub proof fn law_every_request_fits<H>(
    before: Pinger<H>,
    after: Pinger<H>,
    hostname: IpAddr,
    ident: u16,
    seq_cnt: u16,
    timeout: Duration,
    future: PingFuture,
)
    requires
        Pinger::pinged(before, after, hostname, ident, seq_cnt, timeout, future),
    ensures
        !(future.inner is PacketEncodeError),
{
}

/// No sockets come out only if neither opens, and then the reason is why the IPv4
/// one did not. A family can be pinged if and only if its socket opened.
pub proof fn law_sockets<H, E>(
    type_: Type,
    v4: Result<H, E>,
    v6: Result<H, E>,
    v4_host: u32,
    v6_host: u128,
)
    ensures
        match Sockets::available(type_, v4, v6) {
            Ok(sockets) => {
                &&& v4 is Ok || v6 is Ok
                &&& sockets.socket_for(IpAddr::V4(v4_host)) is Some <==> v4 is Ok
                &&& sockets.socket_for(IpAddr::V6(v6_host)) is Some <==> v6 is Ok
            },
            Err(e) => v4 == Err::<H, E>(e) && v6 is Err,
        },
{
}

/// What sending a packet of `size` bytes comes to when the attempts go as given, if
/// they come to an end.
pub open spec fn send_outcome<E>(size: nat, attempts: Seq<Attempt<E>>) -> Option<
    Result<(), SendError<E>>,
>
    decreases attempts.len(),
{
    if attempts.len() == 0 {
        None
    } else {
        match send_step(size, attempts[0]) {
            Step::Again => send_outcome(size, attempts.skip(1)),
            Step::Return(result) => Some(result),
        }
    }
}

/// What receiving comes to when the attempts go as given, if they come to an end.
pub open spec fn recv_outcome<E>(attempts: Seq<Attempt<E>>) -> Option<Result<usize, E>>
    decreases attempts.len(),
{
    if attempts.len() == 0 {
        None
    } else {
        match recv_step(attempts[0]) {
            Step::Again => recv_outcome(attempts.skip(1)),
            Step::Return(result) => Some(result),
        }
    }
}

/// However often a socket would block, the first attempt that it does not block
/// decides what sending and receiving come to. A packet counts as sent if and only
/// if that attempt sent all of it.
pub proof fn law_first_attempt_that_does_not_block<E>(
    size: nat,
    attempts: Seq<Attempt<E>>,
    blocked: int,
)
    requires
        0 <= blocked < attempts.len(),
        forall|i: int| 0 <= i < blocked ==> #[trigger] attempts[i] is WouldBlock,
        !(attempts[blocked] is WouldBlock),
    ensures
        send_outcome(size, attempts) is Some,
        Step::Return(send_outcome(size, attempts)->Some_0) == send_step(size, attempts[blocked]),
        send_outcome(size, attempts)->Some_0 is Ok <==> (attempts[blocked] matches Attempt::Done(
            Ok(n),
        ) && n == size),
        recv_outcome(attempts) is Some,
        Step::Return(recv_outcome(attempts)->Some_0) == recv_step(attempts[blocked]),
    decreases blocked,
{
    if blocked > 0 {
        let rest = attempts.skip(1);
        assert(attempts[0] is WouldBlock);
        assert(rest[blocked - 1] == attempts[blocked]);
        assert forall|i: int| 0 <= i < blocked - 1 implies #[trigger] rest[i] is WouldBlock by {
            assert(attempts[i + 1] is WouldBlock);
        }
        law_first_attempt_that_does_not_block(size, rest, blocked - 1);
    }
}

/// The chain after `count` pings, the first of which has the identifier `ident`.
pub open spec fn after_pings(chain: PingChain, ident: u16, count: nat) -> PingChain
    decreases count,
{
    if count == 0 {
        chain
    } else {
        after_pings(chain, ident, (count - 1) as nat).after_ping(ident)
    }
}

/// The sequence number grows by one with every ping and starts over after the last
/// one. The identifier, the timeout and the host stay as they are from the first
/// ping on.
pub proof fn law_sequence_numbers(chain: PingChain, ident: u16, count: nat)
    ensures
        after_pings(chain, ident, count).next_seq_cnt() == (chain.next_seq_cnt() + count)
            % 0x1_0000,
        after_pings(chain, ident, count).hostname == chain.hostname,
        after_pings(chain, ident, count).next_timeout() == chain.next_timeout(),
        count > 0 ==> after_pings(chain, ident, count).ident == Some(ident),
    decreases count,
{
    if count > 0 {
        let earlier = after_pings(chain, ident, (count - 1) as nat);
        law_sequence_numbers(chain, ident, (count - 1) as nat);
        assert(after_pings(chain, ident, count) == earlier.after_ping(ident));
        lemma_next_number(chain.next_seq_cnt() + count - 1);
    }
}

/// To start over after the last number and then to go on is to go on and then to start over.
proof fn lemma_next_number(n: int)
    requires
        0 <= n,
    ensures
        (n % 0x1_0000 + 1) % 0x1_0000 == (n + 1) % 0x1_0000,
        0 <= (n + 1) % 0x1_0000 < 0x1_0000,
{
}

/// One call of `PingChain::send`: what it started from and what it came to.
pub struct ChainSend<H> {
    pub before: PingChain,
    pub after: PingChain,
    pub pinger_before: Pinger<H>,
    pub pinger_after: Pinger<H>,
    pub result: Option<PingFuture>,
}

impl<H> ChainSend<H> {
    /// Whether the call can have gone like this.
    pub open spec fn happened(self) -> bool {
        PingChain::sent(
            self.before,
            self.after,
            self.pinger_before,
            self.pinger_after,
            self.result,
        )
    }

    /// Whether the call was one of a ping with this identifier, sequence number and timeout.
    pub open spec fn is_ping(
        self,
        hostname: IpAddr,
        ident: u16,
        seq_cnt: u16,
        timeout: Duration,
    ) -> bool {
        match self.result {
            Some(future) => Pinger::pinged(
                self.pinger_before,
                self.pinger_after,
                hostname,
                ident,
                seq_cnt,
                timeout,
                future,
            ),
            None => Pinger::given_up(self.pinger_before, self.pinger_after, timeout),
        }
    }
}

/// Whether the calls follow each other on one chain.
pub open spec fn is_chain_run<H>(run: Seq<ChainSend<H>>) -> bool {
    &&& forall|i: int| 0 <= i < run.len() ==> (#[trigger] run[i]).happened()
    &&& forall|i: int, j: int|
        0 <= i < run.len() && j == i + 1 && j < run.len() ==> #[trigger] run[i].after
            == #[trigger] run[j].before
}

/// However often a chain pings, it pings one host, with one identifier and one
/// timeout. Ping number `at`, counted from 0, has the sequence number that lies `at`
/// after the first one, starting over after the last one there is.
pub proof fn law_run_of_sends<H>(run: Seq<ChainSend<H>>, at: int)
    requires
        is_chain_run(run),
        0 <= at < run.len(),
    ensures
        run[0].after.ident is Some,
        run[at].before == after_pings(run[0].before, run[0].after.ident->Some_0, at as nat),
        run[at].after == after_pings(run[0].before, run[0].after.ident->Some_0, (at + 1) as nat),
        run[at].is_ping(
            run[0].before.hostname,
            run[0].after.ident->Some_0,
            ((run[0].before.next_seq_cnt() + at) % 0x1_0000) as u16,
            run[0].before.next_timeout(),
        ),
    decreases at,
{
    let first = run[0].before;
    let ident = run[0].after.ident->Some_0;
    assert(run[0].happened());
    assert(run[at].happened());
    law_sequence_numbers(first, ident, at as nat);
    if at > 0 {
        law_run_of_sends(run, at - 1);
        assert(run[at - 1].after == run[at].before);
    }
}

/// A chain pings with the identifier, the sequence number and the timeout that were set.
pub proof fn law_settings_are_used<H>(
    hostname: IpAddr,
    ident: u16,
    seq_cnt: u16,
    timeout: Duration,
    after: PingChain,
    pinger_before: Pinger<H>,
    pinger_after: Pinger<H>,
    future: PingFuture,
)
    requires
        PingChain::sent(
            PingChain {
                hostname,
                ident: Some(ident),
                seq_cnt: Some(seq_cnt),
                timeout: Some(timeout),
            },
            after,
            pinger_before,
            pinger_after,
            Some(future),
        ),
    ensures
        Pinger::pinged(
            pinger_before,
            pinger_after,
            hostname,
            ident,
            seq_cnt,
            timeout,
            future,
        ),
{
}

/// A chain for which nothing was set starts with the sequence number 0, a timeout of
/// two seconds and an identifier drawn at random.
pub proof fn law_defaults<H>(
    hostname: IpAddr,
    after: PingChain,
    pinger_before: Pinger<H>,
    pinger_after: Pinger<H>,
    future: PingFuture,
)
    requires
        PingChain::sent(
            PingChain { hostname, ident: None, seq_cnt: None, timeout: None },
            after,
            pinger_before,
            pinger_after,
            Some(future),
        ),
    ensures
        exists|ident: u16, timeout: Duration|
            {
                &&& #[trigger] crate::random::drawn_ident(ident)
                &&& timeout@ == 2 * NANOS_PER_SEC
                &&& #[trigger] Pinger::pinged(
                    pinger_before,
                    pinger_after,
                    hostname,
                    ident,
                    0,
                    timeout,
                    future,
                )
            },
{
    Duration::lemma_of_nanos((2 * NANOS_PER_SEC) as nat);
}

/// The deadline of a ping lies its timeout after the first reading of the clock that
/// the ping takes, its start is the second reading, and there is no third.
pub proof fn law_deadline_and_start<H>(
    before: Pinger<H>,
    after: Pinger<H>,
    hostname: IpAddr,
    ident: u16,
    seq_cnt: u16,
    timeout: Duration,
    future: PingFuture,
)
    requires
        Pinger::pinged(before, after, hostname, ident, seq_cnt, timeout, future),
        future.inner is Normal,
    ensures
        after.clock.readings().len() == before.clock.readings().len() + 2,
        after.clock.readings().take(before.clock.readings().len() as int)
            == before.clock.readings(),
        future.inner->Normal_0.deadline@ == Pinger::called_at(before, after)@ + timeout@,
        future.inner->Normal_0.start_time == after.clock.readings().last(),
{
    let called = Pinger::called_at(before, after);
    Instant::lemma_of_nanos(called@ + timeout@);
    assert(after.clock.readings().take(before.clock.readings().len() as int)
        =~= before.clock.readings());
}

/// A timeout that lies beyond every point of time ends the ping before it starts,
/// whatever the host: nothing waits for it.
pub proof fn law_endless_timeout<H>(
    before: Pinger<H>,
    after: Pinger<H>,
    hostname: IpAddr,
    ident: u16,
    seq_cnt: u16,
    timeout: Duration,
    result: Option<PingFuture>,
)
    requires
        match result {
            Some(future) => Pinger::pinged(
                before,
                after,
                hostname,
                ident,
                seq_cnt,
                timeout,
                future,
            ),
            None => Pinger::given_up(before, after, timeout),
        },
        Pinger::called_at(before, after)@ + timeout@ > MAX_NANOS,
    ensures
        result is None,
        after.state == before.state,
{
}

/// The response time is what lies between the start of the ping and the reply.
pub proof fn law_response_time(start_time: Instant, stop_time: Instant)
    requires
        start_time@ <= stop_time@ <= MAX_NANOS,
    ensures
        stop_time.since(start_time)@ == stop_time@ - start_time@,
{
    Duration::lemma_of_nanos((stop_time@ - start_time@) as nat);
}

/// A stream polls one ping at a time: a ping that is not done is the one that the
/// next poll resumes, and nothing is sent meanwhile.
pub proof fn law_stream_resumes<F, R, H>(
    before: PingChainStream<F>,
    kept: PingChainStream<F>,
    after: PingChainStream<F>,
    future: F,
    item: Poll<Option<R>>,
    pinger_before: Pinger<H>,
    pinger_after: Pinger<H>,
    in_flight: InFlight<F>,
)
    requires
        PingChainStream::ended(before, kept, future, Poll::<R>::Pending, item),
        PingChainStream::begun(kept, after, pinger_before, pinger_after, in_flight),
    ensures
        in_flight == InFlight::Resumed(future),
        after.chain == before.chain,
        pinger_after == pinger_before,
{
}

/// One poll of a stream: what it started from and what it came to.
pub struct StreamPoll<F, R, H> {
    pub before: PingChainStream<F>,
    pub between: PingChainStream<F>,
    pub after: PingChainStream<F>,
    pub pinger_before: Pinger<H>,
    pub pinger_after: Pinger<H>,
    pub in_flight: InFlight<F>,
    pub future: F,
    pub polled: Poll<R>,
    pub item: Poll<Option<R>>,
}

impl<F, R, H> StreamPoll<F, R, H> {
    /// Whether the poll can have gone like this. The ping that is polled is the one that
    /// is resumed, or a new one that the clock can tell the deadline of.
    pub open spec fn happened(self) -> bool {
        &&& PingChainStream::begun(
            self.before,
            self.between,
            self.pinger_before,
            self.pinger_after,
            self.in_flight,
        )
        &&& PingChainStream::ended(
            self.between,
            self.after,
            self.future,
            self.polled,
            self.item,
        )
        &&& match self.in_flight {
            InFlight::Resumed(future) => self.future == future,
            InFlight::Fresh(result) => result is Some,
        }
    }
}

/// Whether the polls follow each other on one stream.
pub open spec fn is_stream_run<F, R, H>(run: Seq<StreamPoll<F, R, H>>) -> bool {
    &&& forall|i: int| 0 <= i < run.len() ==> (#[trigger] run[i]).happened()
    &&& forall|i: int, j: int|
        0 <= i < run.len() && j == i + 1 && j < run.len() ==> #[trigger] run[i].after
            == #[trigger] run[j].before
}

/// How many of the first `count` polls sent a ping.
pub open spec fn pings_sent<F, R, H>(run: Seq<StreamPoll<F, R, H>>, count: nat) -> nat
    decreases count,
{
    if count == 0 {
        0
    } else {
        pings_sent(run, (count - 1) as nat) + (if run[count - 1].in_flight is Fresh {
            1nat
        } else {
            0
        })
    }
}

/// How many of the first `count` polls handed on a result.
pub open spec fn results_given<F, R, H>(run: Seq<StreamPoll<F, R, H>>, count: nat) -> nat
    decreases count,
{
    if count == 0 {
        0
    } else {
        results_given(run, (count - 1) as nat) + (if run[count - 1].item is Ready {
            1nat
        } else {
            0
        })
    }
}

/// How many pings of a stream are under way: none or one.
pub open spec fn under_way<F>(stream: PingChainStream<F>) -> nat {
    if stream.future is Some {
        1
    } else {
        0
    }
}

/// However often a stream is polled, every ping that it sends gives one result, but for
/// the one that may still be under way. The chain is where as many pings have taken it.
pub proof fn law_run_of_polls<F, R, H>(run: Seq<StreamPoll<F, R, H>>, count: nat)
    requires
        is_stream_run(run),
        0 < count <= run.len(),
    ensures
        pings_sent(run, count) + under_way(run[0].before) == results_given(run, count) + under_way(
            run[count - 1].after,
        ),
        pings_sent(run, count) == 0 ==> run[count - 1].after.chain == run[0].before.chain,
        pings_sent(run, count) > 0 ==> {
            &&& run[count - 1].after.chain.ident is Some
            &&& run[count - 1].after.chain == after_pings(
                run[0].before.chain,
                run[count - 1].after.chain.ident->Some_0,
                pings_sent(run, count),
            )
        },
    decreases count,
{
    let here = run[count - 1];
    assert(here.happened());
    let earlier = (count - 1) as nat;
    if earlier > 0 {
        law_run_of_polls(run, earlier);
        assert(run[earlier - 1].after == run[count - 1].before);
    } else {
        assert(pings_sent(run, earlier) == 0);
        assert(results_given(run, earlier) == 0);
    }
    assert(results_given(run, count) == results_given(run, earlier) + (if here.item is Ready {
        1nat
    } else {
        0
    }));
    assert(pings_sent(run, count) + under_way(run[0].before) == results_given(run, count)
        + under_way(here.after)) by {
        assert(here.in_flight is Fresh <==> here.before.future is None);
        assert(here.item is Ready <==> here.polled is Ready);
        assert(here.item is Ready <==> here.after.future is None);
        assert(pings_sent(run, earlier) + under_way(run[0].before) == results_given(run, earlier)
            + under_way(here.before));
    }
    if here.in_flight is Fresh {
        let ident = here.after.chain.ident->Some_0;
        assert(here.after.chain == here.before.chain.after_ping(ident));
        assert(pings_sent(run, count) == pings_sent(run, earlier) + 1);
        if pings_sent(run, earlier) == 0 {
            assert(here.before.chain == run[0].before.chain);
            assert(after_pings(run[0].before.chain, ident, 0) == run[0].before.chain);
        }
    }
}

/// A stream never ends.
pub proof fn law_stream_never_ends<F, R>(
    before: PingChainStream<F>,
    after: PingChainStream<F>,
    future: F,
    polled: Poll<R>,
    item: Poll<Option<R>>,
)
    requires
        PingChainStream::ended(before, after, future, polled, item),
    ensures
        item != Poll::<Option<R>>::Ready(None),
        item is Ready <==> polled is Ready,
{
}

} // verus!
