//! The receiving side: replies, and the pings that they answer.

use vstd::prelude::*;

use core::marker::PhantomData;

use futures::channel::oneshot;

use crate::channel::notify;
use crate::packet::{EchoReply, IcmpV4, IcmpV6, IpV4Packet, IpV4Protocol};
use crate::ping::{Pinger, Poll};
use crate::time::Instant;

verus! {

use crate::channel::sent;
use crate::packet::echo::{reply_payload_of, EchoError};
use crate::packet::ipv4::content_of;

/// How many bytes are read from a socket at once.
pub const RECEIVE_BUFFER_SIZE: usize = 2048;

/// The payload, where there is one.
pub open spec fn payload_if_any(payload: Result<Seq<u8>, EchoError>) -> Option<Seq<u8>> {
    match payload {
        Ok(bytes) => Some(bytes),
        Err(_) => None,
    }
}

/// Finds the payload of an echo reply in what a socket received.
pub trait ParseReply: Sized {
    /// The payload of the echo reply that `data` holds, if it holds one.
    spec fn payload_of(privileged: bool, data: Seq<u8>) -> Option<Seq<u8>>;

    /// The payload of the echo reply that `data` holds, if it holds one.
    /// `privileged` tells whether a raw socket received it.
    fn reply_payload<'a>(privileged: bool, data: &'a [u8]) -> (payload: Option<&'a [u8]>)
        ensures
            match payload {
                Some(bytes) => Self::payload_of(privileged, data@) == Some(bytes@),
                None => Self::payload_of(privileged, data@) is None,
            },
    ;
}

impl ParseReply for IcmpV4 {
    /// A raw socket receives the message with the IPv4 header in front.
    open spec fn payload_of(privileged: bool, data: Seq<u8>) -> Option<Seq<u8>> {
        if privileged {
            match content_of(data) {
                Ok((IpV4Protocol::Icmp, message)) => payload_if_any(
                    reply_payload_of::<IcmpV4>(message),
                ),
                _ => None,
            }
        } else {
            payload_if_any(reply_payload_of::<IcmpV4>(data))
        }
    }

    fn reply_payload<'a>(privileged: bool, data: &'a [u8]) -> (payload: Option<&'a [u8]>) {
        if privileged {
            match IpV4Packet::decode(data) {
                Ok(ipv4_packet) => {
                    if ipv4_packet.protocol != IpV4Protocol::Icmp {
                        return None;
                    }
                    match EchoReply::decode::<IcmpV4>(ipv4_packet.data) {
                        Ok(reply) => Some(reply.payload),
                        Err(_) => None,
                    }
                },
                Err(_) => None,
            }
        } else {
            match EchoReply::decode::<IcmpV4>(data) {
                Ok(reply) => Some(reply.payload),
                Err(_) => None,
            }
        }
    }
}

impl ParseReply for IcmpV6 {
    /// No IPv6 socket receives the header in front of the message.
    open spec fn payload_of(privileged: bool, data: Seq<u8>) -> Option<Seq<u8>> {
        payload_if_any(reply_payload_of::<IcmpV6>(data))
    }

    fn reply_payload<'a>(_privileged: bool, data: &'a [u8]) -> (payload: Option<&'a [u8]>) {
        match EchoReply::decode::<IcmpV6>(data) {
            Ok(reply) => Some(reply.payload),
            Err(_) => None,
        }
    }
}

/// What became of an attempt to receive.
pub enum ReceiveEvent<'a> {
    /// These bytes arrived.
    Received(&'a [u8]),
    /// Nothing has arrived yet.
    Pending,
    /// The socket failed.
    Failed,
}

impl<'a> ReceiveEvent<'a> {
    /// What a receiver does after this event.
    pub open spec fn action(self) -> ReceiveAction {
        match self {
            ReceiveEvent::Received(_) => ReceiveAction::ReceiveAgain,
            ReceiveEvent::Pending => ReceiveAction::Return(Poll::Pending),
            ReceiveEvent::Failed => ReceiveAction::Return(Poll::Ready(Err(()))),
        }
    }

    /// The payload of the echo reply that arrived, if one arrived.
    pub open spec fn payload<Message: ParseReply>(self, privileged: bool) -> Option<Seq<u8>> {
        match self {
            ReceiveEvent::Received(data) => Message::payload_of(privileged, data@),
            _ => None,
        }
    }
}

/// What a ping is to be told: when its reply came.
pub struct Notice {
    pub sender: oneshot::Sender<Instant>,
    pub time: Instant,
}

impl Notice {
    /// Tells the ping. That it waits no more is no error.
    pub fn deliver(self)
        ensures
            sent(self.sender, self.time),
    {
        notify(self.sender, self.time);
    }
}

/// What a receiver does next.
#[derive(Debug, PartialEq, Eq)]
pub enum ReceiveAction {
    /// Receive once more.
    ReceiveAgain,
    /// Be done for now, or for good.
    Return(Poll<Result<(), ()>>),
}

/// Takes in what one socket receives. `Message` is the version of ICMP it speaks.
pub struct ReplyReceiver<Message> {
    pub privileged: bool,
    pub message: PhantomData<Message>,
}

impl<Message> ReplyReceiver<Message> {
    /// A receiver for a raw socket if `privileged`, else for a datagram socket.
    pub fn new(privileged: bool) -> (receiver: Self)
        ensures
            receiver.privileged == privileged,
    {
        ReplyReceiver { privileged, message: PhantomData }
    }
}

impl<H> Pinger<H> {
    /// Whether a reply with this payload, or nothing that is a reply, took a pinger
    /// from `before` to `after` and left `notice` to be delivered: for a reply the clock
    /// was read once, and what waited for the payload waits no more and is to be told
    /// that reading. Everything else waits on.
    pub open spec fn taken_in(
        before: Self,
        after: Self,
        payload: Option<Seq<u8>>,
        notice: Option<Notice>,
    ) -> bool {
        &&& after.same_setup(before)
        &&& match payload {
            Some(payload) => {
                let now = after.clock.readings().last();
                &&& after.state@ == before.state@.remove(payload)
                &&& after.clock.readings() == before.clock.readings().push(now)
                &&& before.clock.reads(now)
                &&& notice == if before.state@.dom().contains(payload) {
                    Some(Notice { sender: before.state@[payload], time: now })
                } else {
                    None
                }
            },
            None => {
                &&& after.state@ == before.state@
                &&& after.clock == before.clock
                &&& notice is None
            },
        }
    }

    /// Whether a reply with this payload, or nothing that is a reply, took a pinger
    /// from `before` to `after`: for a reply the clock was read once, and what waited
    /// for the payload was told that reading and waits no more. Everything else waits on.
    pub open spec fn answered(before: Self, after: Self, payload: Option<Seq<u8>>) -> bool {
        &&& after.same_setup(before)
        &&& match payload {
            Some(payload) => {
                let now = after.clock.readings().last();
                &&& after.state@ == before.state@.remove(payload)
                &&& after.clock.readings() == before.clock.readings().push(now)
                &&& before.clock.reads(now)
                &&& before.state@.dom().contains(payload) ==> sent(before.state@[payload], now)
            },
            None => after.state@ == before.state@ && after.clock == before.clock,
        }
    }
}

impl<Message: ParseReply> ReplyReceiver<Message> {
    /// What follows from one attempt to receive, up to the notice that is to be
    /// delivered. A pinger that is shared can be let go of before the delivery.
    pub fn take_in<H>(&self, pinger: &mut Pinger<H>, event: ReceiveEvent<'_>) -> (result: (
        ReceiveAction,
        Option<Notice>,
    ))
        ensures
            result.0 == event.action(),
            Pinger::taken_in(
                *old(pinger),
                *final(pinger),
                event.payload::<Message>(self.privileged),
                result.1,
            ),
    {
        match event {
            ReceiveEvent::Received(data) => {
                let notice = match Message::reply_payload(self.privileged, data) {
                    Some(payload) => {
                        let now = pinger.clock.now();
                        match pinger.state.remove(payload) {
                            Some(sender) => Some(Notice { sender, time: now }),
                            None => None,
                        }
                    },
                    None => None,
                };
                (ReceiveAction::ReceiveAgain, notice)
            },
            ReceiveEvent::Pending => (ReceiveAction::Return(Poll::Pending), None),
            ReceiveEvent::Failed => (ReceiveAction::Return(Poll::Ready(Err(()))), None),
        }
    }

    /// What follows from one attempt to receive. A reply whose payload is the token
    /// of a ping that waits ends the wait: that ping is told when the reply came.
    /// Everything else that arrives is passed over. Only a failing socket ends
    /// the receiver.
    pub fn poll<H>(&self, pinger: &mut Pinger<H>, event: ReceiveEvent<'_>) -> (action: ReceiveAction)
        ensures
            action == event.action(),
            Pinger::answered(
                *old(pinger),
                *final(pinger),
                event.payload::<Message>(self.privileged),
            ),
    {
        let (action, notice) = self.take_in(pinger, event);
        match notice {
            Some(notice) => {
                notice.deliver();
            },
            None => {},
        }
        action
    }
}

} // verus!
