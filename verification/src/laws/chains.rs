//! What a chain pings with, and what a stream of pings gives.

use vstd::prelude::*;

use crate::net::IpAddr;
use crate::ping::{InFlight, PingChain, PingChainStream, PingFuture, Pinger, Poll};
use crate::time::Duration;

verus! {

use super::pinging::{is_ping, law_given_up, law_pinged};
use super::{after_pings, is_chain_run, ChainSend};
use crate::random::drawn_ident;
use crate::time::NANOS_PER_SEC;

/// A new chain knows its host and nothing else.
pub proof fn law_new_chain<H>(
    pinger: Pinger<H>,
    hostname: IpAddr,
    chain: PingChain,
    of_pinger: PingChain,
)
    requires
        call_ensures(PingChain::new, (hostname,), chain),
        call_ensures(Pinger::<H>::chain, (&pinger, hostname), of_pinger),
    ensures
        chain.hostname == hostname,
        chain.ident is None,
        chain.seq_cnt is None,
        chain.timeout is None,
        of_pinger == chain,
{
}

/// Each setting of a chain is set on its own: setting one leaves the others as they are.
pub proof fn law_settings(
    chain: PingChain,
    ident: u16,
    with_ident: PingChain,
    seq_cnt: u16,
    with_seq_cnt: PingChain,
    timeout: Duration,
    with_timeout: PingChain,
)
    requires
        call_ensures(PingChain::ident, (chain, ident), with_ident),
        call_ensures(PingChain::seq_cnt, (chain, seq_cnt), with_seq_cnt),
        call_ensures(PingChain::timeout, (chain, timeout), with_timeout),
    ensures
        with_ident.ident == Some(ident),
        with_ident.hostname == chain.hostname,
        with_ident.seq_cnt == chain.seq_cnt,
        with_ident.timeout == chain.timeout,
        with_seq_cnt.seq_cnt == Some(seq_cnt),
        with_seq_cnt.hostname == chain.hostname,
        with_seq_cnt.ident == chain.ident,
        with_seq_cnt.timeout == chain.timeout,
        with_timeout.timeout == Some(timeout),
        with_timeout.hostname == chain.hostname,
        with_timeout.ident == chain.ident,
        with_timeout.seq_cnt == chain.seq_cnt,
{
}

/// Whether a chain that went from `before` to `after` settled this sequence number and this
/// timeout for a ping with this identifier. What was set is used, whatever else was set. The
/// sequence number is 0 and the timeout two seconds where none was set. The chain keeps the
/// host, the identifier and the timeout, and goes on with the next sequence number.
pub open spec fn settles(
    before: PingChain,
    after: PingChain,
    ident: u16,
    seq_cnt: u16,
    timeout: Duration,
) -> bool {
    &&& before.seq_cnt matches Some(set) ==> seq_cnt == set
    &&& before.seq_cnt is None ==> seq_cnt == 0
    &&& before.timeout matches Some(set) ==> timeout == set
    &&& before.timeout is None ==> timeout@ == 2_000_000_000
    &&& after.hostname == before.hostname
    &&& after.ident == Some(ident)
    &&& after.timeout == Some(timeout)
    &&& after.seq_cnt matches Some(next) && next == (if seq_cnt == 65535 {
        0
    } else {
        seq_cnt + 1
    })
}

/// What a chain settles for its next ping.
pub proof fn law_advance(chain: &mut PingChain, ident: u16, settled: (u16, Duration))
    requires
        call_ensures(PingChain::advance, (chain, ident), settled),
    ensures
        settles(*old(chain), *final(chain), ident, settled.0, settled.1),
{
    lemma_settles(*old(chain), ident);
}

/// What a chain settles for its next ping.
proof fn lemma_settles(chain: PingChain, ident: u16)
    ensures
        settles(
            chain,
            chain.after_ping(ident),
            ident,
            chain.next_seq_cnt(),
            chain.next_timeout(),
        ),
{
    Duration::lemma_of_nanos((2 * NANOS_PER_SEC) as nat);
}

/// Whether a chain that went from `before` to `after` pinged with this sequence number and
/// this timeout: with the identifier that was set, or one drawn at random, its own host.
pub open spec fn pings_with<H>(
    before: PingChain,
    after: PingChain,
    pinger_before: Pinger<H>,
    pinger_after: Pinger<H>,
    result: Option<PingFuture>,
    ident: u16,
    seq_cnt: u16,
    timeout: Duration,
) -> bool {
    &&& before.ident matches Some(set) ==> ident == set
    &&& before.ident is None ==> drawn_ident(ident)
    &&& settles(before, after, ident, seq_cnt, timeout)
    &&& is_ping(pinger_before, pinger_after, before.hostname, ident, seq_cnt, timeout, result)
}

/// What one ping of a chain comes to.
pub proof fn law_sent_with<H>(
    before: PingChain,
    after: PingChain,
    pinger_before: Pinger<H>,
    pinger_after: Pinger<H>,
    result: Option<PingFuture>,
)
    requires
        PingChain::sent(before, after, pinger_before, pinger_after, result),
    ensures
        exists|ident: u16, seq_cnt: u16, timeout: Duration|
            pings_with(
                before,
                after,
                pinger_before,
                pinger_after,
                result,
                ident,
                seq_cnt,
                timeout,
            ),
{
    let ident = after.ident->Some_0;
    let seq_cnt = before.next_seq_cnt();
    let timeout = before.next_timeout();
    lemma_settles(before, ident);
    match result {
        Some(future) => law_pinged(
            pinger_before,
            pinger_after,
            before.hostname,
            ident,
            seq_cnt,
            timeout,
            future,
        ),
        None => law_given_up(
            pinger_before,
            pinger_after,
            before.hostname,
            ident,
            seq_cnt,
            timeout,
        ),
    }
    assert(pings_with(
        before,
        after,
        pinger_before,
        pinger_after,
        result,
        ident,
        seq_cnt,
        timeout,
    ));
}

/// A chain pings with what was set for it, each setting on its own, and with the defaults
/// for what was not.
pub proof fn law_send<H>(
    chain: &mut PingChain,
    pinger: &mut Pinger<H>,
    result: Option<PingFuture>,
)
    requires
        call_ensures(PingChain::send::<H>, (chain, pinger), result),
    ensures
        exists|ident: u16, seq_cnt: u16, timeout: Duration|
            pings_with(
                *old(chain),
                *final(chain),
                *old(pinger),
                *final(pinger),
                result,
                ident,
                seq_cnt,
                timeout,
            ),
{
    law_sent_with(*old(chain), *final(chain), *old(pinger), *final(pinger), result);
}

/// A timeout that was set for a chain is when its pings time out, whatever else was set or
/// not set. Where none was set, they time out after two seconds.
pub proof fn law_deadline_of_a_chain<H>(
    chain: &mut PingChain,
    pinger: &mut Pinger<H>,
    future: PingFuture,
)
    requires
        call_ensures(PingChain::send::<H>, (chain, pinger), Some(future)),
        future.inner is Normal,
    ensures
        ({
            let called = final(pinger).clock.readings()[old(pinger).clock.readings().len() as int];
            future.inner->Normal_0.deadline@ == called@ + (match old(chain).timeout {
                Some(timeout) => timeout@,
                None => 2_000_000_000,
            })
        }),
{
    law_send(chain, pinger, Some(future));
}

/// The request of a ping of a chain carries the sequence number that was set for the chain,
/// whatever else was set or not set, and 0 where none was set; and the identifier that was
/// set, where one was.
pub proof fn law_request_of_a_chain<H>(
    chain: &mut PingChain,
    pinger: &mut Pinger<H>,
    future: PingFuture,
)
    requires
        call_ensures(PingChain::send::<H>, (chain, pinger), Some(future)),
        future.inner is Normal,
    ensures
        future.inner->Normal_0.send matches Some(outgoing) && {
            &&& outgoing.dest.ip == old(chain).hostname
            &&& outgoing.packet@[6] * 256 + outgoing.packet@[7] == (match old(chain).seq_cnt {
                Some(seq_cnt) => seq_cnt,
                None => 0,
            })
            &&& final(chain).ident matches Some(ident) && outgoing.packet@[4] * 256
                + outgoing.packet@[5] == ident
            &&& old(chain).ident is Some ==> final(chain).ident == old(chain).ident
        },
{
    law_send(chain, pinger, Some(future));
}

/// Ping number `at` of a chain, counted from 0, goes to the host of the chain with the
/// identifier and the timeout of the first ping. Its sequence number lies `at` after the one
/// that was set, or after 0 where none was set, and starts over after 65535.
pub proof fn law_every_send<H>(run: Seq<ChainSend<H>>, at: int, timeout: Duration)
    requires
        is_chain_run(run),
        0 <= at < run.len(),
        match run[0].before.timeout {
            Some(set) => timeout == set,
            None => timeout == Duration::of_nanos(2_000_000_000),
        },
    ensures
        ({
            let first: int = match run[0].before.seq_cnt {
                Some(set) => set as int,
                None => 0,
            };
            is_ping(
                run[at].pinger_before,
                run[at].pinger_after,
                run[0].before.hostname,
                run[0].after.ident->Some_0,
                ((first + at) % 65536) as u16,
                timeout,
                run[at].result,
            )
        }),
        run[0].before.ident is Some ==> run[0].after.ident == run[0].before.ident,
        run[0].before.ident is None ==> drawn_ident(run[0].after.ident->Some_0),
        run[at].after.ident == run[0].after.ident,
        run[at].after.timeout == Some(timeout),
        run[at].after.hostname == run[0].before.hostname,
{
    let first: int = match run[0].before.seq_cnt {
        Some(set) => set as int,
        None => 0,
    };
    let seq_cnt = ((first + at) % 65536) as u16;
    let ident = run[0].after.ident->Some_0;
    assert(run[0].happened());
    super::law_run_of_sends(run, at);
    super::law_sequence_numbers(run[0].before, ident, (at + 1) as nat);
    assert(run[0].before.next_timeout() == timeout);
    match run[at].result {
        Some(future) => law_pinged(
            run[at].pinger_before,
            run[at].pinger_after,
            run[0].before.hostname,
            ident,
            seq_cnt,
            timeout,
            future,
        ),
        None => law_given_up(
            run[at].pinger_before,
            run[at].pinger_after,
            run[0].before.hostname,
            ident,
            seq_cnt,
            timeout,
        ),
    }
    assert(run[at].after == after_pings(run[0].before, ident, (at + 1) as nat));
    assert(run[at].happened());
}

/// A new stream has no ping under way.
pub proof fn law_new_stream<F>(
    chain: PingChain,
    stream: PingChainStream<F>,
    of_chain: PingChainStream<F>,
)
    requires
        call_ensures(PingChainStream::<F>::new, (chain,), stream),
        call_ensures(PingChain::stream::<F>, (chain,), of_chain),
    ensures
        stream.chain == chain,
        stream.future is None,
        of_chain == stream,
{
}

/// A poll of a stream polls the ping that is under way, and then nothing is sent. If none is
/// under way, the chain pings once more, with what was set for it.
pub proof fn law_begin<F, H>(
    stream: &mut PingChainStream<F>,
    pinger: &mut Pinger<H>,
    in_flight: InFlight<F>,
)
    requires
        call_ensures(PingChainStream::<F>::begin::<H>, (stream, pinger), in_flight),
    ensures
        final(stream).future is None,
        old(stream).future matches Some(future) ==> {
            &&& in_flight == InFlight::Resumed(future)
            &&& final(stream).chain == old(stream).chain
            &&& *final(pinger) == *old(pinger)
        },
        old(stream).future is None ==> {
            &&& in_flight matches InFlight::Fresh(result)
            &&& exists|ident: u16, seq_cnt: u16, timeout: Duration|
                pings_with(
                    old(stream).chain,
                    final(stream).chain,
                    *old(pinger),
                    *final(pinger),
                    result,
                    ident,
                    seq_cnt,
                    timeout,
                )
        },
{
    if let InFlight::Fresh(result) = in_flight {
        if old(stream).future is None {
            law_sent_with(
                old(stream).chain,
                final(stream).chain,
                *old(pinger),
                *final(pinger),
                result,
            );
        }
    }
}

/// What a ping resolves into is what the stream gives, and the ping is gone. A ping that is
/// still under way is kept, and the stream gives nothing yet. The chain is as it was.
pub proof fn law_poll_next<F, R>(
    stream: &mut PingChainStream<F>,
    future: F,
    polled: Poll<R>,
    item: Poll<Option<R>>,
)
    requires
        call_ensures(PingChainStream::<F>::poll_next::<R>, (stream, future, polled), item),
        old(stream).future is None,
    ensures
        polled matches Poll::Ready(result) ==> {
            &&& item == Poll::Ready(Some(result))
            &&& final(stream).future is None
        },
        polled is Pending ==> {
            &&& item is Pending
            &&& final(stream).future == Some(future)
        },
        final(stream).chain == old(stream).chain,
{
}

} // verus!
