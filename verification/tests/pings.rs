use futures::channel::oneshot::Canceled;

use tokio_icmp_echo::channel::{notify, open_channel};
use tokio_icmp_echo::errors::Error;
use tokio_icmp_echo::net::{IpAddr, SocketAddr};
use tokio_icmp_echo::packet::{IcmpV4, IcmpV6};
use tokio_icmp_echo::ping::{
    InFlight, NormalPingFutureKind, PingChain, PingChainStream, PingFuture, PingFutureKind, Pinger,
    Poll, PollAction, PollEvent, Receivers, Refusal,
};
use tokio_icmp_echo::random::{random_ident, random_token};
use tokio_icmp_echo::receiver::{ReceiveAction, ReceiveEvent, ReplyReceiver};
use tokio_icmp_echo::time::{Clock, Duration, Instant};

const V4_HOST: IpAddr = IpAddr::V4(0x7f00_0001);
const V6_HOST: IpAddr = IpAddr::V6(1);

fn clock() -> Clock {
    Clock::new(std::time::Instant::now())
}

fn pinger() -> (Pinger<u8>, Receivers) {
    match Pinger::dgram::<&str>(clock(), Ok(4), Ok(6)) {
        Ok(parts) => parts,
        Err(e) => panic!("{}", e),
    }
}

fn normal(future: PingFuture) -> NormalPingFutureKind {
    match future.inner {
        PingFutureKind::Normal(normal) => normal,
        _ => panic!("no request was made"),
    }
}

fn packet(normal: &NormalPingFutureKind) -> Vec<u8> {
    match &normal.send {
        Some(outgoing) => outgoing.packet.to_vec(),
        None => panic!("no request is left"),
    }
}

fn answer(normal: &NormalPingFutureKind, type_: u8) -> Vec<u8> {
    let mut reply = packet(normal);
    reply[0] = type_;
    reply
}

fn some(result: Option<PingFuture>) -> PingFuture {
    match result {
        Some(future) => future,
        None => panic!("the timeout is too long"),
    }
}

fn new_future(pinger: &mut Pinger<u8>) -> PingFuture {
    some(pinger.ping(V4_HOST, 1, 2, Duration::from_secs(2)))
}

#[test]
fn dgram_pingers() {
    match Pinger::dgram::<&str>(clock(), Ok(4), Err("six")) {
        Ok((pinger, receivers)) => {
            assert_eq!(pinger.sockets.v4().map(|s| s.handle), Some(4));
            assert_eq!(receivers.v4.map(|r| r.privileged), Some(false));
            assert!(receivers.v6.is_none());
        }
        Err(e) => panic!("{}", e),
    }
    assert!(matches!(Pinger::<u8>::dgram(clock(), Err("four"), Err("six")), Err("four")));
    assert!(matches!(Pinger::<u8>::new(clock(), Err("four"), Err("six")), Err("four")));
    assert!(Pinger::<u8>::new(clock(), Err("four"), Ok(6)).is_ok());
}

#[test]
fn raw_pingers() {
    match Pinger::raw::<&str>(clock(), Ok(4), Ok(6)) {
        Ok((_, receivers)) => {
            assert_eq!(receivers.v4.map(|r| r.privileged), Some(true));
            assert_eq!(receivers.v6.map(|r| r.privileged), Some(true));
        }
        Err(e) => panic!("{}", e),
    }
    assert!(matches!(Pinger::<u8>::raw(clock(), Err("four"), Err("six")), Err("four")));
}

#[test]
fn a_v4_request() {
    let (mut pinger, _) = pinger();
    let normal = normal(some(pinger.ping(V4_HOST, 0x1234, 0x0102, Duration::from_secs(5))));
    let bytes = packet(&normal);
    assert_eq!(bytes.len(), 32);
    assert_eq!(&bytes[..2], &[8, 0]);
    assert_eq!(&bytes[4..8], &[0x12, 0x34, 0x01, 0x02]);
    assert_eq!(&bytes[8..], &normal.token);
    assert_eq!(tokio_icmp_echo::packet::checksum::checksum(&bytes), 0);
    match &normal.send {
        Some(outgoing) => assert_eq!(outgoing.dest, SocketAddr { ip: V4_HOST, port: 0 }),
        None => panic!("no request is left"),
    }
    // The deadline counts from before the start.
    let called = normal.deadline.saturating_duration_since(Instant::at(Duration::from_secs(5)));
    assert_eq!(
        Instant::at(called).saturating_duration_since(normal.start_time),
        Duration::from_secs(0)
    );
}

#[test]
fn a_ping_with_given_readings() {
    let (mut pinger, _) = pinger();
    let (sender, receiver) = open_channel();
    let outgoing = match pinger.request(V4_HOST, 1, 2, [7; 24], sender) {
        Ok(outgoing) => outgoing,
        Err(e) => panic!("{:?}", e),
    };
    let called = Instant::at(Duration::new(10, 5));
    let started = Instant::at(Duration::new(10, 9));
    let timeout = Duration::from_secs(3);
    let future = PingFuture::launch(outgoing, [7; 24], receiver, called, timeout, started);
    let normal = normal(future);
    assert_eq!(normal.deadline, Instant::at(Duration::new(13, 5)));
    assert_eq!(normal.start_time, started);
    assert_eq!(normal.token, [7; 24]);
    assert!(normal.send.is_some());
}

#[test]
fn a_ping_without_a_request() {
    assert!(matches!(
        PingFuture::refused(Refusal::InvalidProtocol).inner,
        PingFutureKind::InvalidProtocol
    ));
    assert!(matches!(
        PingFuture::refused(Refusal::PacketEncodeError).inner,
        PingFutureKind::PacketEncodeError
    ));
}

#[test]
fn a_v6_request() {
    let (mut pinger, _) = pinger();
    let normal = normal(some(pinger.ping(V6_HOST, 1, 2, Duration::from_secs(2))));
    assert_eq!(&packet(&normal)[..2], &[128, 0]);
}

#[test]
fn a_deadline_beyond_the_clock() {
    let (mut pinger, _) = match Pinger::dgram::<&str>(clock(), Ok(4), Err("six")) {
        Ok(parts) => parts,
        Err(e) => panic!("{}", e),
    };
    let far = Duration::new(u64::MAX, 999_999_999);
    assert!(pinger.ping(V4_HOST, 1, 2, far).is_none());
    assert!(pinger.ping(V6_HOST, 1, 2, far).is_none());
    // What the standard library cannot add is too far too.
    assert!(pinger.ping(V4_HOST, 1, 2, Duration::from_secs(u64::MAX / 2 + 1)).is_none());
    assert!(pinger.ping(V4_HOST, 1, 2, Duration::from_secs(86_400)).is_some());
}

#[test]
fn a_chain_whose_timeout_is_too_long() {
    let (mut pinger, _) = pinger();
    let far = Duration::new(u64::MAX, 999_999_999);
    let mut chain = pinger.chain(V4_HOST).ident(3).timeout(far);
    assert!(chain.send(&mut pinger).is_none());
    assert_eq!(chain.seq_cnt, Some(1));
    let mut stream: PingChainStream<PingFuture> = chain.stream();
    assert!(matches!(stream.begin(&mut pinger), InFlight::Fresh(None)));
    assert!(stream.future.is_none());
}

#[test]
fn pings_have_tokens_of_their_own() {
    let (mut pinger, _) = pinger();
    let first = normal(new_future(&mut pinger));
    let second = normal(new_future(&mut pinger));
    assert_ne!(first.token, second.token);
    assert_ne!(random_token(), random_token());
    let drawn: Vec<u16> = (0..16).map(|_| random_ident()).collect();
    assert!(drawn.iter().any(|ident| *ident != drawn[0]));
}

#[test]
fn no_socket_for_the_family() {
    let (mut pinger, _) = match Pinger::dgram::<&str>(clock(), Ok(4), Err("six")) {
        Ok(parts) => parts,
        Err(e) => panic!("{}", e),
    };
    let mut future = some(pinger.ping(V6_HOST, 1, 2, Duration::from_secs(2)));
    assert!(matches!(future.inner, PingFutureKind::InvalidProtocol));
    assert_eq!(
        future.poll(PollEvent::Start),
        PollAction::Return(Poll::Ready(Err(Error::InvalidProtocol)))
    );
    let (sender, _receiver) = open_channel();
    assert!(matches!(
        pinger.request(V6_HOST, 1, 2, [9; 24], sender),
        Err(Refusal::InvalidProtocol)
    ));
    // The sender waits nevertheless.
    assert!(pinger.state.remove(&[9; 24]).is_some());
}

#[test]
fn a_refused_ping_keeps_waiting_when_released() {
    let (mut pinger, _) = match Pinger::dgram::<&str>(clock(), Err("four"), Ok(6)) {
        Ok(parts) => parts,
        Err(e) => panic!("{}", e),
    };
    let (sender, _receiver) = open_channel();
    assert!(pinger.request(V4_HOST, 1, 2, [9; 24], sender).is_err());
    assert!(PingFuture::refused(Refusal::InvalidProtocol).release(&mut pinger).is_none());
    assert!(PingFuture::refused(Refusal::PacketEncodeError).release(&mut pinger).is_none());
    assert!(pinger.state.remove(&[9; 24]).is_some());
}

#[test]
fn a_request_for_a_given_token() {
    let (mut pinger, _) = pinger();
    let (sender, receiver) = open_channel();
    assert!(sender.is_connected_to(&receiver));
    match pinger.request(V4_HOST, 0x1234, 1, [0; 24], sender) {
        Ok(outgoing) => {
            assert_eq!(&outgoing.packet[..8], &[8, 0, 0xe5, 0xca, 0x12, 0x34, 0x00, 0x01]);
            assert_eq!(&outgoing.packet[8..], &[0; 24]);
        }
        Err(e) => panic!("{:?}", e),
    }
    match pinger.state.remove(&[0; 24]) {
        Some(sender) => assert!(sender.is_connected_to(&receiver)),
        None => panic!("nothing waits"),
    }
}

#[test]
fn a_reply_reaches_its_ping() {
    let (mut pinger, receivers) = pinger();
    let mut normal = normal(new_future(&mut pinger));
    let reply = answer(&normal, 0);
    let receiver = match receivers.v4 {
        Some(receiver) => receiver,
        None => panic!("no receiver"),
    };
    assert_eq!(normal.receiver.try_recv(), Ok(None));
    assert_eq!(
        receiver.poll(&mut pinger, ReceiveEvent::Received(&reply)),
        ReceiveAction::ReceiveAgain
    );
    let stop_time = match normal.receiver.try_recv() {
        Ok(Some(stop_time)) => stop_time,
        other => panic!("{:?}", other),
    };
    assert_eq!(
        normal.start_time.saturating_duration_since(stop_time),
        Duration::from_secs(0)
    );
    assert!(pinger.state.remove(&normal.token).is_none());
}

#[test]
fn a_v6_reply_reaches_its_ping() {
    let (mut pinger, receivers) = pinger();
    let mut normal = normal(some(pinger.ping(V6_HOST, 1, 2, Duration::from_secs(2))));
    let reply = answer(&normal, 129);
    let receiver = match receivers.v6 {
        Some(receiver) => receiver,
        None => panic!("no receiver"),
    };
    receiver.poll(&mut pinger, ReceiveEvent::Received(&reply));
    assert!(matches!(normal.receiver.try_recv(), Ok(Some(_))));
}

#[test]
fn a_raw_reply_reaches_its_ping() {
    let (mut pinger, _) = pinger();
    let mut normal = normal(new_future(&mut pinger));
    let mut data = vec![0u8; 20];
    data[0] = 0x45;
    data[9] = 1;
    data.extend_from_slice(&answer(&normal, 0));
    let datagram = ReplyReceiver::<IcmpV4>::new(false);
    datagram.poll(&mut pinger, ReceiveEvent::Received(&data));
    assert_eq!(normal.receiver.try_recv(), Ok(None));
    let raw = ReplyReceiver::<IcmpV4>::new(true);
    raw.poll(&mut pinger, ReceiveEvent::Received(&data));
    assert!(matches!(normal.receiver.try_recv(), Ok(Some(_))));
}

#[test]
fn a_reply_leaves_other_pings_alone() {
    let (mut pinger, _) = pinger();
    let mut first = normal(new_future(&mut pinger));
    let mut second = normal(new_future(&mut pinger));
    let receiver = ReplyReceiver::<IcmpV4>::new(false);
    let reply = answer(&second, 0);
    receiver.poll(&mut pinger, ReceiveEvent::Received(&reply));
    receiver.poll(&mut pinger, ReceiveEvent::Received(&reply));
    assert_eq!(first.receiver.try_recv(), Ok(None));
    assert!(matches!(second.receiver.try_recv(), Ok(Some(_))));
    assert!(pinger.state.remove(&first.token).is_some());
}

#[test]
fn what_is_no_reply_is_passed_over() {
    let (mut pinger, _) = pinger();
    let mut normal = normal(new_future(&mut pinger));
    let request = packet(&normal);
    let v4 = ReplyReceiver::<IcmpV4>::new(false);
    let v6 = ReplyReceiver::<IcmpV6>::new(false);
    assert_eq!(
        v4.poll(&mut pinger, ReceiveEvent::Received(&request)),
        ReceiveAction::ReceiveAgain
    );
    assert_eq!(v4.poll(&mut pinger, ReceiveEvent::Received(&[])), ReceiveAction::ReceiveAgain);
    assert_eq!(
        v6.poll(&mut pinger, ReceiveEvent::Received(&answer(&normal, 0))),
        ReceiveAction::ReceiveAgain
    );
    assert_eq!(normal.receiver.try_recv(), Ok(None));
}

#[test]
fn a_run_of_arrivals() {
    let (mut pinger, _) = pinger();
    let mut first = normal(new_future(&mut pinger));
    let mut second = normal(new_future(&mut pinger));
    let mut third = normal(new_future(&mut pinger));
    let receiver = ReplyReceiver::<IcmpV4>::new(false);
    let arrivals =
        vec![answer(&second, 0), vec![1, 2, 3], answer(&first, 0), answer(&second, 0)];
    for data in arrivals {
        receiver.poll(&mut pinger, ReceiveEvent::Received(&data));
    }
    let told_second = match second.receiver.try_recv() {
        Ok(Some(time)) => time,
        other => panic!("{:?}", other),
    };
    let told_first = match first.receiver.try_recv() {
        Ok(Some(time)) => time,
        other => panic!("{:?}", other),
    };
    assert_eq!(told_second.saturating_duration_since(told_first), Duration::from_secs(0));
    assert_eq!(third.receiver.try_recv(), Ok(None));
    assert!(pinger.state.remove(&third.token).is_some());
    assert!(pinger.state.remove(&second.token).is_none());
}

#[test]
fn a_history_leaves_a_waiting_ping_alone() {
    let (mut pinger, _) = match Pinger::dgram::<&str>(clock(), Ok(4), Err("six")) {
        Ok(parts) => parts,
        Err(e) => panic!("{}", e),
    };
    let receiver = ReplyReceiver::<IcmpV4>::new(false);
    let mut waiting = normal(new_future(&mut pinger));
    let answered = normal(new_future(&mut pinger));
    let released = new_future(&mut pinger);
    let refused = some(pinger.ping(V6_HOST, 1, 2, Duration::from_secs(2)));
    assert!(matches!(refused.inner, PingFutureKind::InvalidProtocol));
    assert!(pinger.ping(V4_HOST, 1, 2, Duration::new(u64::MAX, 999_999_999)).is_none());
    receiver.poll(&mut pinger, ReceiveEvent::Received(&answer(&answered, 0)));
    receiver.poll(&mut pinger, ReceiveEvent::Received(&[1, 2, 3]));
    assert!(released.release(&mut pinger).is_some());
    assert!(refused.release(&mut pinger).is_none());
    let late = normal(new_future(&mut pinger));
    assert_eq!(waiting.receiver.try_recv(), Ok(None));
    receiver.poll(&mut pinger, ReceiveEvent::Received(&answer(&waiting, 0)));
    assert!(matches!(waiting.receiver.try_recv(), Ok(Some(_))));
    assert!(pinger.state.remove(&waiting.token).is_none());
    assert!(pinger.state.remove(&answered.token).is_none());
    assert!(pinger.state.remove(&normal(released).token).is_none());
    assert!(pinger.state.remove(&late.token).is_some());
}

#[test]
fn a_new_ping_takes_the_place_of_one_with_its_token() {
    let (mut pinger, _) = pinger();
    let (first, mut first_receiver) = open_channel();
    let (second, mut second_receiver) = open_channel();
    assert!(pinger.request(V4_HOST, 1, 2, [7; 24], first).is_ok());
    let reply = match pinger.request(V4_HOST, 1, 3, [7; 24], second) {
        Ok(outgoing) => {
            let mut reply = outgoing.packet.to_vec();
            reply[0] = 0;
            reply
        }
        Err(e) => panic!("{:?}", e),
    };
    let receiver = ReplyReceiver::<IcmpV4>::new(false);
    receiver.poll(&mut pinger, ReceiveEvent::Received(&reply));
    assert_eq!(first_receiver.try_recv(), Err(Canceled));
    assert!(matches!(second_receiver.try_recv(), Ok(Some(_))));
}

#[test]
fn a_notice_is_left_until_it_is_delivered() {
    let (mut pinger, _) = pinger();
    let mut normal = normal(new_future(&mut pinger));
    let receiver = ReplyReceiver::<IcmpV4>::new(false);
    let reply = answer(&normal, 0);
    let (action, notice) = receiver.take_in(&mut pinger, ReceiveEvent::Received(&reply));
    assert_eq!(action, ReceiveAction::ReceiveAgain);
    assert_eq!(normal.receiver.try_recv(), Ok(None));
    // The ping waits no more, so there is nothing more to deliver to it.
    let (action, again) = receiver.take_in(&mut pinger, ReceiveEvent::Received(&reply));
    assert_eq!(action, ReceiveAction::ReceiveAgain);
    assert!(again.is_none());
    let notice = match notice {
        Some(notice) => notice,
        None => panic!("nobody is to be told"),
    };
    assert!(notice.sender.is_connected_to(&normal.receiver));
    let time = notice.time;
    notice.deliver();
    assert_eq!(normal.receiver.try_recv(), Ok(Some(time)));
}

#[test]
fn nothing_to_deliver() {
    let (mut pinger, _) = pinger();
    let normal = normal(new_future(&mut pinger));
    let receiver = ReplyReceiver::<IcmpV4>::new(false);
    let request = packet(&normal);
    let (action, notice) = receiver.take_in(&mut pinger, ReceiveEvent::Received(&request));
    assert_eq!(action, ReceiveAction::ReceiveAgain);
    assert!(notice.is_none());
    let (action, notice) = receiver.take_in(&mut pinger, ReceiveEvent::Pending);
    assert_eq!(action, ReceiveAction::Return(Poll::Pending));
    assert!(notice.is_none());
    let (action, notice) = receiver.take_in(&mut pinger, ReceiveEvent::Failed);
    assert_eq!(action, ReceiveAction::Return(Poll::Ready(Err(()))));
    assert!(notice.is_none());
    assert!(pinger.state.remove(&normal.token).is_some());
}

#[test]
fn the_first_event_that_is_no_arrival_decides() {
    let (mut pinger, _) = pinger();
    let mut first = normal(new_future(&mut pinger));
    let mut second = normal(new_future(&mut pinger));
    let mut third = normal(new_future(&mut pinger));
    let receiver = ReplyReceiver::<IcmpV4>::new(false);
    let replies = vec![answer(&first, 0), answer(&second, 0), answer(&third, 0)];
    let events = vec![
        ReceiveEvent::Received(&replies[0]),
        ReceiveEvent::Received(&[]),
        ReceiveEvent::Received(&replies[1]),
        ReceiveEvent::Failed,
        ReceiveEvent::Pending,
        ReceiveEvent::Received(&replies[2]),
    ];
    let mut outcome = None;
    for event in events {
        if outcome.is_none() {
            match receiver.poll(&mut pinger, event) {
                ReceiveAction::ReceiveAgain => {}
                ReceiveAction::Return(result) => outcome = Some(result),
            }
        }
    }
    assert_eq!(outcome, Some(Poll::Ready(Err(()))));
    assert!(matches!(first.receiver.try_recv(), Ok(Some(_))));
    assert!(matches!(second.receiver.try_recv(), Ok(Some(_))));
    assert_eq!(third.receiver.try_recv(), Ok(None));
}

#[test]
fn receivers_end_only_with_their_socket() {
    let (mut pinger, _) = pinger();
    let receiver = ReplyReceiver::<IcmpV4>::new(false);
    assert_eq!(
        receiver.poll(&mut pinger, ReceiveEvent::Pending),
        ReceiveAction::Return(Poll::Pending)
    );
    assert_eq!(
        receiver.poll(&mut pinger, ReceiveEvent::Failed),
        ReceiveAction::Return(Poll::Ready(Err(())))
    );
}

#[test]
fn a_released_ping_waits_no_more() {
    let (mut pinger, _) = pinger();
    let other = normal(new_future(&mut pinger));
    let future = new_future(&mut pinger);
    let waiting = future.release(&mut pinger);
    let mut released = normal(future);
    match waiting {
        Some(sender) => assert!(sender.is_connected_to(&released.receiver)),
        None => panic!("nothing waited"),
    }
    assert!(released.receiver.try_recv().is_err());
    assert!(pinger.state.remove(&released.token).is_none());
    assert!(pinger.state.remove(&other.token).is_some());
}

#[test]
fn releasing_an_answered_ping_changes_nothing() {
    let (mut pinger, _) = pinger();
    let other = normal(new_future(&mut pinger));
    let answered = normal(new_future(&mut pinger));
    let receiver = ReplyReceiver::<IcmpV4>::new(false);
    let reply = answer(&answered, 0);
    receiver.poll(&mut pinger, ReceiveEvent::Received(&reply));
    let mut future = PingFuture { inner: PingFutureKind::Normal(answered) };
    assert!(future.release(&mut pinger).is_none());
    match &mut future.inner {
        PingFutureKind::Normal(normal) => {
            assert!(matches!(normal.receiver.try_recv(), Ok(Some(_))));
        }
        _ => panic!("no request was made"),
    }
    assert!(pinger.state.remove(&other.token).is_some());
}

#[test]
fn a_ping_waits_under_its_token() {
    let (mut pinger, _) = pinger();
    let normal = normal(new_future(&mut pinger));
    match pinger.state.remove(&normal.token) {
        Some(sender) => assert!(sender.is_connected_to(&normal.receiver)),
        None => panic!("nothing waits"),
    }
}

#[test]
fn nobody_to_notify_is_no_error() {
    let (sender, receiver) = open_channel();
    drop(receiver);
    notify(sender, Instant::at(Duration::from_secs(1)));
}

#[test]
fn a_notice_arrives() {
    let (sender, mut receiver) = open_channel();
    notify(sender, Instant::at(Duration::from_secs(7)));
    assert_eq!(receiver.try_recv(), Ok(Some(Instant::at(Duration::from_secs(7)))));
}

#[test]
fn polling_in_order() {
    let (mut pinger, _) = pinger();
    let mut future = new_future(&mut pinger);
    assert_eq!(future.poll(PollEvent::Start), PollAction::PollSend);
    assert_eq!(future.poll(PollEvent::Send(Poll::Pending)), PollAction::PollReceiver);
    assert_eq!(future.poll(PollEvent::Receiver(Poll::Pending)), PollAction::PollSleep);
    assert_eq!(future.poll(PollEvent::Sleep(Poll::Pending)), PollAction::Return(Poll::Pending));
    assert_eq!(future.poll(PollEvent::Start), PollAction::PollSend);
    assert_eq!(future.poll(PollEvent::Send(Poll::Ready(Ok(())))), PollAction::PollReceiver);
    // The request has left: it is not sent again.
    assert_eq!(future.poll(PollEvent::Start), PollAction::PollReceiver);
}

#[test]
fn a_request_that_cannot_be_sent() {
    let (mut pinger, _) = pinger();
    let mut future = new_future(&mut pinger);
    assert_eq!(
        future.poll(PollEvent::Send(Poll::Ready(Err(())))),
        PollAction::Return(Poll::Ready(Err(Error::InternalError)))
    );
}

#[test]
fn a_reply_resolves_into_the_time_it_took() {
    let (mut pinger, _) = pinger();
    let mut normal = normal(new_future(&mut pinger));
    normal.start_time = Instant::at(Duration::new(10, 0));
    let mut future = PingFuture { inner: PingFutureKind::Normal(normal) };
    let stop_time = Instant::at(Duration::new(10, 1500));
    assert_eq!(
        future.poll(PollEvent::Receiver(Poll::Ready(Ok(stop_time)))),
        PollAction::Return(Poll::Ready(Ok(Some(Duration::new(0, 1500)))))
    );
    let early = Instant::at(Duration::new(9, 0));
    assert_eq!(
        future.poll(PollEvent::Receiver(Poll::Ready(Ok(early)))),
        PollAction::Return(Poll::Ready(Ok(Some(Duration::from_secs(0)))))
    );
}

#[test]
fn a_reply_that_cannot_come() {
    let (mut pinger, _) = pinger();
    let mut future = new_future(&mut pinger);
    assert_eq!(
        future.poll(PollEvent::Receiver(Poll::Ready(Err(Canceled)))),
        PollAction::Return(Poll::Ready(Err(Error::InternalError)))
    );
}

#[test]
fn a_ping_that_times_out() {
    let (mut pinger, _) = pinger();
    let mut future = new_future(&mut pinger);
    assert_eq!(
        future.poll(PollEvent::Sleep(Poll::Ready(()))),
        PollAction::Return(Poll::Ready(Ok(None)))
    );
}

#[test]
fn a_request_that_was_not_made() {
    let mut future = PingFuture { inner: PingFutureKind::PacketEncodeError };
    assert_eq!(
        future.poll(PollEvent::Start),
        PollAction::Return(Poll::Ready(Err(Error::InternalError)))
    );
}

#[test]
fn a_chain_with_defaults() {
    let (mut pinger, _) = pinger();
    let mut chain = pinger.chain(V4_HOST);
    assert_eq!((chain.ident, chain.seq_cnt, chain.timeout), (None, None, None));
    let first = packet(&normal(some(chain.send(&mut pinger))));
    let ident = chain.ident;
    assert!(ident.is_some());
    assert_eq!(chain.seq_cnt, Some(1));
    assert_eq!(chain.timeout, Some(Duration::from_secs(2)));
    let second = packet(&normal(some(chain.send(&mut pinger))));
    assert_eq!(chain.ident, ident);
    assert_eq!(chain.seq_cnt, Some(2));
    assert_eq!(&first[4..6], &second[4..6]);
    assert_eq!(&first[6..8], &[0, 0]);
    assert_eq!(&second[6..8], &[0, 1]);
}

#[test]
fn a_chain_with_settings() {
    let (mut pinger, _) = pinger();
    let mut chain = pinger
        .chain(V6_HOST)
        .ident(0xbeef)
        .seq_cnt(0xffff)
        .timeout(Duration::from_secs(7));
    let first = packet(&normal(some(chain.send(&mut pinger))));
    assert_eq!(&first[4..8], &[0xbe, 0xef, 0xff, 0xff]);
    // The sequence number starts over.
    assert_eq!(chain.seq_cnt, Some(0));
    assert_eq!(chain.ident, Some(0xbeef));
    assert_eq!(chain.timeout, Some(Duration::from_secs(7)));
    assert_eq!(chain.hostname, V6_HOST);
}

#[test]
fn a_chain_advances() {
    let mut chain = PingChain::new(V4_HOST).seq_cnt(41);
    assert_eq!(chain.advance(5), (41, Duration::from_secs(2)));
    assert_eq!(chain.advance(5), (42, Duration::from_secs(2)));
    assert_eq!(chain.ident, Some(5));
    assert_eq!(chain.seq_cnt, Some(43));
}

#[test]
fn a_stream_polls_one_ping_at_a_time() {
    let (mut pinger, _) = pinger();
    let mut stream: PingChainStream<PingFuture> = pinger.chain(V4_HOST).seq_cnt(9).stream();
    let future = match stream.begin(&mut pinger) {
        InFlight::Fresh(result) => some(result),
        InFlight::Resumed(_) => panic!("nothing was sent"),
    };
    assert_eq!(stream.poll_next(future, Poll::<u8>::Pending), Poll::Pending);
    let future = match stream.begin(&mut pinger) {
        InFlight::Resumed(future) => future,
        InFlight::Fresh(_) => panic!("sent too early"),
    };
    assert_eq!(stream.chain.seq_cnt, Some(10));
    assert_eq!(&packet(&normal(future))[6..8], &[0, 9]);
}

#[test]
fn a_stream_goes_on() {
    let (mut pinger, _) = pinger();
    let mut stream: PingChainStream<PingFuture> = pinger.chain(V4_HOST).stream();
    for round in 0..3u16 {
        let future = match stream.begin(&mut pinger) {
            InFlight::Fresh(result) => some(result),
            InFlight::Resumed(_) => panic!("nothing is under way"),
        };
        assert_eq!(stream.poll_next(future, Poll::Ready(round)), Poll::Ready(Some(round)));
    }
    assert_eq!(stream.chain.seq_cnt, Some(3));
}
