//! What polling a ping comes to, however often it is polled.

use vstd::prelude::*;

use futures::channel::oneshot;

use crate::errors::Error;
use crate::net::IpAddr;
use crate::ping::{
    NormalPingFutureKind, PingFuture, PingFutureKind, Pinger, Poll, PollAction, PollEvent,
};
use crate::time::{Duration, Instant};

verus! {

use super::pinging::law_pinged;
use super::poll_outcome;
use crate::time::MAX_NANOS;

/// Whether two pings have the same start, token, deadline and receiver.
pub open spec fn same_ping(a: NormalPingFutureKind, b: NormalPingFutureKind) -> bool {
    &&& a.start_time == b.start_time
    &&& a.token == b.token
    &&& a.deadline == b.deadline
    &&& a.receiver == b.receiver
}

/// A step of a poll changes nothing of a ping but its request, which is gone once it was
/// sent, and only then.
pub proof fn law_step_keeps_the_ping(future: &mut PingFuture, event: PollEvent, action: PollAction)
    requires
        call_ensures(PingFuture::poll, (future, event), action),
    ensures
        match old(future).inner {
            PingFutureKind::Normal(before) => final(future).inner matches PingFutureKind::Normal(
                after,
            ) && {
                &&& same_ping(before, after)
                &&& after.send == (if event matches PollEvent::Send(Poll::Ready(Ok(_))) {
                    None
                } else {
                    before.send
                })
            },
            _ => final(future).inner == old(future).inner,
        },
{
}

/// What a step of a poll asks for. The sending is polled first, as long as the request has
/// not left, then the receiver, then the deadline. What fails, and the reply, end the poll
/// at once.
pub proof fn law_step_action(future: &mut PingFuture, event: PollEvent, action: PollAction)
    requires
        call_ensures(PingFuture::poll, (future, event), action),
    ensures
        old(future).inner is InvalidProtocol ==> action == PollAction::Return(
            Poll::Ready(Err(Error::InvalidProtocol)),
        ),
        old(future).inner is PacketEncodeError ==> action == PollAction::Return(
            Poll::Ready(Err(Error::InternalError)),
        ),
        old(future).inner matches PingFutureKind::Normal(normal) ==> {
            &&& event is Start && normal.send is Some ==> action == PollAction::PollSend
            &&& event is Start && normal.send is None ==> action == PollAction::PollReceiver
            &&& event matches PollEvent::Send(sending) ==> {
                &&& sending matches Poll::Ready(Err(_)) ==> action == PollAction::Return(
                    Poll::Ready(Err(Error::InternalError)),
                )
                &&& !(sending matches Poll::Ready(Err(_))) ==> action == PollAction::PollReceiver
            }
            &&& event matches PollEvent::Receiver(reply) ==> {
                &&& reply is Pending ==> action == PollAction::PollSleep
                &&& reply matches Poll::Ready(Err(_)) ==> action == PollAction::Return(
                    Poll::Ready(Err(Error::InternalError)),
                )
                &&& reply matches Poll::Ready(Ok(_)) ==> {
                    &&& action matches PollAction::Return(outcome)
                    &&& outcome matches Poll::Ready(Ok(Some(_)))
                }
            }
            &&& event matches PollEvent::Sleep(sleep) ==> {
                &&& sleep is Pending ==> action == PollAction::Return(Poll::Pending)
                &&& sleep is Ready ==> action == PollAction::Return(Poll::Ready(Ok(None)))
            }
        },
{
}

/// A reply resolves a ping into the time from its start to the reply, and into no time at
/// all if the reply seems to have come before the start.
pub proof fn law_step_time(
    future: &mut PingFuture,
    normal: NormalPingFutureKind,
    stop_time: Instant,
    action: PollAction,
)
    requires
        old(future).inner == PingFutureKind::Normal(normal),
        stop_time@ <= MAX_NANOS,
        call_ensures(
            PingFuture::poll,
            (future, PollEvent::Receiver(Poll::Ready(Ok(stop_time)))),
            action,
        ),
    ensures
        action matches PollAction::Return(Poll::Ready(Ok(Some(time)))) && time@ == (if stop_time@
            >= normal.start_time@ {
            stop_time@ - normal.start_time@
        } else {
            0
        }),
{
    lemma_time(stop_time, normal.start_time);
}

/// What lies between two points in time.
proof fn lemma_time(stop_time: Instant, start_time: Instant)
    requires
        stop_time@ <= MAX_NANOS,
    ensures
        stop_time.since(start_time)@ == (if stop_time@ >= start_time@ {
            stop_time@ - start_time@
        } else {
            0
        }),
{
    Duration::lemma_of_nanos(
        if start_time@ <= stop_time@ {
            (stop_time@ - start_time@) as nat
        } else {
            0
        },
    );
}

/// What the sending, the reply and the deadline answer during one poll, if they are asked.
pub struct Answers {
    pub send: Poll<Result<(), ()>>,
    pub reply: Poll<Result<Instant, oneshot::Canceled>>,
    pub sleep: Poll<()>,
}

/// What a ping is after a poll, from `event` on, during which the answers are as given.
pub open spec fn after_poll(
    ping: PingFutureKind,
    event: PollEvent,
    answers: Answers,
) -> PingFutureKind
    decreases
            match event {
                PollEvent::Start => 3nat,
                PollEvent::Send(_) => 2,
                PollEvent::Receiver(_) => 1,
                PollEvent::Sleep(_) => 0,
            },
{
    match ping.action_after(event) {
        PollAction::PollSend => after_poll(
            ping.after(event),
            PollEvent::Send(answers.send),
            answers,
        ),
        PollAction::PollReceiver => after_poll(
            ping.after(event),
            PollEvent::Receiver(answers.reply),
            answers,
        ),
        PollAction::PollSleep => after_poll(
            ping.after(event),
            PollEvent::Sleep(answers.sleep),
            answers,
        ),
        PollAction::Return(_) => ping.after(event),
    }
}

/// What a ping is after the first `count` polls.
pub open spec fn after_polls(ping: PingFutureKind, polls: Seq<Answers>, count: nat) -> PingFutureKind
    decreases count,
{
    if count == 0 {
        ping
    } else {
        after_poll(
            after_polls(ping, polls, (count - 1) as nat),
            PollEvent::Start,
            polls[count - 1],
        )
    }
}

/// What poll number `at`, counted from 0, comes to.
pub open spec fn outcome_of_poll(
    ping: PingFutureKind,
    polls: Seq<Answers>,
    at: nat,
) -> Poll<Result<Option<Duration>, Error>> {
    poll_outcome(
        after_polls(ping, polls, at),
        PollEvent::Start,
        polls[at as int].send,
        polls[at as int].reply,
        polls[at as int].sleep,
    )
}

/// Whether the request has left during one of the first `count` polls.
pub open spec fn has_left(polls: Seq<Answers>, count: nat) -> bool {
    exists|i: int|
        0 <= i < count && ((#[trigger] polls[i]).send matches Poll::Ready(Ok(_)))
}

/// One poll changes nothing of a ping but its request. The request is gone after the poll if
/// it was gone before or has left during the poll, and only then.
proof fn lemma_one_poll(normal: NormalPingFutureKind, answers: Answers)
    ensures
        after_poll(
            PingFutureKind::Normal(normal),
            PollEvent::Start,
            answers,
        ) matches PingFutureKind::Normal(after) && {
            &&& same_ping(normal, after)
            &&& after.send == (if answers.send matches Poll::Ready(Ok(_)) {
                None
            } else {
                normal.send
            })
        },
{
    reveal_with_fuel(after_poll, 4);
}

/// However often a ping is polled, it keeps its start, its token, its deadline and its
/// receiver, and it keeps its request until the request has left.
pub proof fn law_polls_keep_the_ping(
    normal: NormalPingFutureKind,
    polls: Seq<Answers>,
    count: nat,
)
    requires
        count <= polls.len(),
    ensures
        after_polls(PingFutureKind::Normal(normal), polls, count) matches PingFutureKind::Normal(
            after,
        ) && {
            &&& same_ping(normal, after)
            &&& after.send == (if has_left(polls, count) {
                None
            } else {
                normal.send
            })
        },
    decreases count,
{
    let ping = PingFutureKind::Normal(normal);
    if count > 0 {
        let earlier = (count - 1) as nat;
        law_polls_keep_the_ping(normal, polls, earlier);
        let before = after_polls(ping, polls, earlier)->Normal_0;
        lemma_one_poll(before, polls[count - 1]);
        if polls[count - 1].send matches Poll::Ready(Ok(_)) {
            assert(has_left(polls, count));
        } else if has_left(polls, earlier) {
            let i = choose|i: int|
                0 <= i < earlier && ((#[trigger] polls[i]).send matches Poll::Ready(Ok(_)));
            assert(polls[i].send matches Poll::Ready(Ok(_)));
            assert(has_left(polls, count));
        } else if has_left(polls, count) {
            let i = choose|i: int|
                0 <= i < count && ((#[trigger] polls[i]).send matches Poll::Ready(Ok(_)));
            assert(i < earlier);
            assert(has_left(polls, earlier));
        }
    }
}

/// What every poll of a ping comes to, however many came before it. A request that has not
/// left yet and cannot be sent fails the ping. Else a reply resolves it into the time from
/// the start of the ping to the reply, and a reply that can come no more fails it. Else it
/// resolves into `None` once the deadline has passed. Else it is still under way.
pub proof fn law_every_poll(normal: NormalPingFutureKind, polls: Seq<Answers>, at: nat)
    requires
        at < polls.len(),
        polls[at as int].reply matches Poll::Ready(Ok(stop_time)) ==> stop_time@ <= MAX_NANOS,
    ensures
        ({
            let outcome = outcome_of_poll(PingFutureKind::Normal(normal), polls, at);
            let answers = polls[at as int];
            if normal.send is Some && !has_left(polls, at) && (answers.send matches Poll::Ready(
                Err(_),
            )) {
                outcome == Poll::<Result<Option<Duration>, Error>>::Ready(
                    Err(Error::InternalError),
                )
            } else {
                match answers.reply {
                    Poll::Ready(Ok(stop_time)) => {
                        &&& outcome matches Poll::Ready(Ok(Some(time)))
                        &&& time@ == (if stop_time@ >= normal.start_time@ {
                            stop_time@ - normal.start_time@
                        } else {
                            0
                        })
                    },
                    Poll::Ready(Err(_)) => outcome == Poll::<
                        Result<Option<Duration>, Error>,
                    >::Ready(Err(Error::InternalError)),
                    Poll::Pending => if answers.sleep is Ready {
                        outcome == Poll::<Result<Option<Duration>, Error>>::Ready(Ok(None))
                    } else {
                        outcome is Pending
                    },
                }
            }
        }),
{
    law_polls_keep_the_ping(normal, polls, at);
    let answers = polls[at as int];
    let ping = after_polls(PingFutureKind::Normal(normal), polls, at);
    super::law_poll_outcome(ping, answers.send, answers.reply, answers.sleep);
    if let Poll::Ready(Ok(stop_time)) = answers.reply {
        lemma_time(stop_time, normal.start_time);
    }
}

/// A ping whose request could be made resolves, with the first poll that finds the reply, into
/// the time from its start to the reply, however many polls found nothing before. It started at
/// the second reading of the clock that pinging took.
pub proof fn law_ping_resolves<H>(
    before: Pinger<H>,
    after: Pinger<H>,
    hostname: IpAddr,
    ident: u16,
    seq_cnt: u16,
    timeout: Duration,
    future: PingFuture,
    polls: Seq<Answers>,
    at: nat,
    stop_time: Instant,
)
    requires
        Pinger::pinged(before, after, hostname, ident, seq_cnt, timeout, future),
        future.inner is Normal,
        at < polls.len(),
        !(polls[at as int].send matches Poll::Ready(Err(_))),
        polls[at as int].reply == Poll::<Result<Instant, oneshot::Canceled>>::Ready(Ok(stop_time)),
        after.clock.readings()[before.clock.readings().len() + 1int]@ <= stop_time@ <= MAX_NANOS,
    ensures
        outcome_of_poll(future.inner, polls, at) matches Poll::Ready(Ok(Some(time))) && time@
            == stop_time@ - after.clock.readings()[before.clock.readings().len() + 1int]@,
{
    law_pinged(before, after, hostname, ident, seq_cnt, timeout, future);
    law_every_poll(future.inner->Normal_0, polls, at);
}

/// A ping without a request fails with every poll, always for the same reason.
pub proof fn law_refused_ping_fails(
    ping: PingFutureKind,
    polls: Seq<Answers>,
    at: nat,
)
    requires
        !(ping is Normal),
        at < polls.len(),
    ensures
        after_polls(ping, polls, at) == ping,
        outcome_of_poll(ping, polls, at) == Poll::<Result<Option<Duration>, Error>>::Ready(
            Err(
                if ping is InvalidProtocol {
                    Error::InvalidProtocol
                } else {
                    Error::InternalError
                },
            ),
        ),
    decreases at,
{
    if at > 0 {
        law_refused_ping_fails(ping, polls, (at - 1) as nat);
    }
}

} // verus!
