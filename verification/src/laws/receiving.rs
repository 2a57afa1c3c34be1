//! What counts as a reply, and what a reply does.

use vstd::prelude::*;

use crate::packet::{IcmpV4, IcmpV6};
use crate::ping::{Pinger, Poll};
use crate::receiver::{Notice, ParseReply, ReceiveAction, ReceiveEvent, ReplyReceiver};

verus! {

use crate::channel::sent;
use crate::time::read_from;

/// A datagram socket receives bare messages over IPv4. Whatever it receives, there is a
/// payload if and only if there are eight bytes, the first of which is 0 and the second of
/// which is 0. The payload is all that follows the eight bytes.
pub proof fn law_payload_v4_dgram(data: Seq<u8>)
    ensures
        IcmpV4::payload_of(false, data) is Some <==> {
            &&& data.len() >= 8
            &&& data[0] == 0
            &&& data[1] == 0
        },
        IcmpV4::payload_of(false, data) matches Some(payload) ==> payload == data.skip(8),
{
}

/// A raw socket receives messages over IPv4 behind their IPv4 header. Whatever it receives,
/// there is a payload if and only if there is an IPv4 header of 20 to 60 bytes, it announces
/// ICMP, and eight bytes follow it, the first of which is 0 and the second of which is 0. The
/// payload is all that follows the eight bytes.
pub proof fn law_payload_v4_raw(data: Seq<u8>)
    ensures
        IcmpV4::payload_of(true, data) is Some <==> {
            let size = (data[0] - 64) * 4;
            &&& 20 <= size <= 60
            &&& data.len() >= size + 8
            &&& data[9] == 1
            &&& data[size] == 0
            &&& data[size + 1] == 0
        },
        IcmpV4::payload_of(true, data) matches Some(payload) ==> payload == data.skip(
            (data[0] - 64) * 4 + 8,
        ),
{
    let size = (data[0] - 64) * 4;
    if data.len() >= 20 && 20 <= size <= 60 && data.len() >= size {
        let message = data.skip(size);
        assert(data[0] % 16 * 4 == size);
        assert(message.len() == data.len() - size);
        if message.len() >= 8 {
            assert(message[0] == data[size]);
            assert(message[1] == data[size + 1]);
            assert(message.skip(8) =~= data.skip(size + 8));
        }
    }
}

/// Every socket receives bare messages over IPv6. Whatever it receives, there is a payload
/// if and only if there are eight bytes, the first of which is 129 and the second of which
/// is 0. The payload is all that follows the eight bytes.
pub proof fn law_payload_v6(privileged: bool, data: Seq<u8>)
    ensures
        IcmpV6::payload_of(privileged, data) is Some <==> {
            &&& data.len() >= 8
            &&& data[0] == 129
            &&& data[1] == 0
        },
        IcmpV6::payload_of(privileged, data) matches Some(payload) ==> payload == data.skip(8),
{
}

/// What is found in what an IPv4 socket received is its payload, and nothing is found
/// only if it has none.
pub proof fn law_reply_payload_v4<'a>(
    privileged: bool,
    data: &'a [u8],
    payload: Option<&'a [u8]>,
)
    requires
        call_ensures(IcmpV4::reply_payload, (privileged, data), payload),
    ensures
        !privileged ==> {
            &&& payload is Some <==> data@.len() >= 8 && data@[0] == 0 && data@[1] == 0
            &&& payload matches Some(bytes) ==> bytes@ == data@.skip(8)
        },
        privileged ==> {
            let size = (data@[0] - 64) * 4;
            &&& payload is Some <==> {
                &&& 20 <= size <= 60
                &&& data@.len() >= size + 8
                &&& data@[9] == 1
                &&& data@[size] == 0
                &&& data@[size + 1] == 0
            }
            &&& payload matches Some(bytes) ==> bytes@ == data@.skip(size + 8)
        },
{
    law_payload_v4_dgram(data@);
    law_payload_v4_raw(data@);
}

/// What is found in what an IPv6 socket received is its payload, and nothing is found
/// only if it has none.
pub proof fn law_reply_payload_v6<'a>(
    privileged: bool,
    data: &'a [u8],
    payload: Option<&'a [u8]>,
)
    requires
        call_ensures(IcmpV6::reply_payload, (privileged, data), payload),
    ensures
        payload is Some <==> data@.len() >= 8 && data@[0] == 129 && data@[1] == 0,
        payload matches Some(bytes) ==> bytes@ == data@.skip(8),
{
    law_payload_v6(privileged, data@);
}

/// A receiver expects an IPv4 header if and only if it was told that its socket is raw.
pub proof fn law_new_receiver<Message>(privileged: bool, receiver: ReplyReceiver<Message>)
    requires
        call_ensures(ReplyReceiver::<Message>::new, (privileged,), receiver),
    ensures
        receiver.privileged <==> privileged,
{
}

/// A receiver that takes in some bytes goes on receiving. If a reply is found in them, the
/// clock is read once; what waited under the payload waits no more, and there is a notice
/// for it, with that reading, and for nobody else. Everything else is as it was.
pub proof fn law_take_in_bytes<'a, Message: ParseReply, H>(
    receiver: ReplyReceiver<Message>,
    pinger: &mut Pinger<H>,
    data: &'a [u8],
    payload: Option<&'a [u8]>,
    result: (ReceiveAction, Option<Notice>),
)
    requires
        call_ensures(Message::reply_payload, (receiver.privileged, data), payload),
        call_ensures(
            ReplyReceiver::<Message>::take_in::<H>,
            (&receiver, pinger, ReceiveEvent::Received(data)),
            result,
        ),
    ensures
        result.0 == ReceiveAction::ReceiveAgain,
        final(pinger).sockets == old(pinger).sockets,
        final(pinger).clock.origin() == old(pinger).clock.origin(),
        payload is None ==> {
            &&& final(pinger).state@ == old(pinger).state@
            &&& final(pinger).clock.readings() == old(pinger).clock.readings()
            &&& result.1 is None
        },
        payload matches Some(bytes) ==> {
            let now = final(pinger).clock.readings().last();
            &&& final(pinger).clock.readings() == old(pinger).clock.readings().push(now)
            &&& read_from(old(pinger).clock.origin(), now)
            &&& !final(pinger).state@.dom().contains(bytes@)
            &&& forall|other: Seq<u8>|
                other != bytes@ ==> {
                    &&& #[trigger] final(pinger).state@.dom().contains(other)
                        == old(pinger).state@.dom().contains(other)
                    &&& final(pinger).state@.dom().contains(other) ==> final(pinger).state@[other]
                        == old(pinger).state@[other]
                }
            &&& result.1 is Some <==> old(pinger).state@.dom().contains(bytes@)
            &&& result.1 matches Some(notice) ==> {
                &&& notice.sender == old(pinger).state@[bytes@]
                &&& notice.time == now
            }
        },
{
}

/// A receiver that takes in no bytes changes nothing. It is done for now if there is nothing
/// to receive yet, and for good, with an error, if the socket failed.
pub proof fn law_take_in_nothing<Message: ParseReply, H>(
    receiver: ReplyReceiver<Message>,
    pinger: &mut Pinger<H>,
    event: ReceiveEvent<'_>,
    result: (ReceiveAction, Option<Notice>),
)
    requires
        call_ensures(
            ReplyReceiver::<Message>::take_in::<H>,
            (&receiver, pinger, event),
            result,
        ),
        !(event is Received),
    ensures
        result.0 == ReceiveAction::Return(
            if event is Pending {
                Poll::Pending
            } else {
                Poll::Ready(Err(()))
            },
        ),
        result.1 is None,
        final(pinger).sockets == old(pinger).sockets,
        final(pinger).state@ == old(pinger).state@,
        final(pinger).clock == old(pinger).clock,
{
}

/// A receiver that is given some bytes goes on receiving. If a reply is found in them, the
/// clock is read once; what waited under the payload was told that reading and waits no
/// more. Everything else is as it was.
pub proof fn law_poll_with_bytes<'a, Message: ParseReply, H>(
    receiver: ReplyReceiver<Message>,
    pinger: &mut Pinger<H>,
    data: &'a [u8],
    payload: Option<&'a [u8]>,
    action: ReceiveAction,
)
    requires
        call_ensures(Message::reply_payload, (receiver.privileged, data), payload),
        call_ensures(
            ReplyReceiver::<Message>::poll::<H>,
            (&receiver, pinger, ReceiveEvent::Received(data)),
            action,
        ),
    ensures
        action == ReceiveAction::ReceiveAgain,
        final(pinger).sockets == old(pinger).sockets,
        final(pinger).clock.origin() == old(pinger).clock.origin(),
        payload is None ==> {
            &&& final(pinger).state@ == old(pinger).state@
            &&& final(pinger).clock.readings() == old(pinger).clock.readings()
        },
        payload matches Some(bytes) ==> {
            let now = final(pinger).clock.readings().last();
            &&& final(pinger).clock.readings() == old(pinger).clock.readings().push(now)
            &&& read_from(old(pinger).clock.origin(), now)
            &&& !final(pinger).state@.dom().contains(bytes@)
            &&& forall|other: Seq<u8>|
                other != bytes@ ==> {
                    &&& #[trigger] final(pinger).state@.dom().contains(other)
                        == old(pinger).state@.dom().contains(other)
                    &&& final(pinger).state@.dom().contains(other) ==> final(pinger).state@[other]
                        == old(pinger).state@[other]
                }
            &&& old(pinger).state@.dom().contains(bytes@) ==> sent(
                old(pinger).state@[bytes@],
                now,
            )
        },
{
}

/// A receiver that is given no bytes changes nothing. It is done for now if there is nothing
/// to receive yet, and for good, with an error, if the socket failed.
pub proof fn law_poll_with_nothing<Message: ParseReply, H>(
    receiver: ReplyReceiver<Message>,
    pinger: &mut Pinger<H>,
    event: ReceiveEvent<'_>,
    action: ReceiveAction,
)
    requires
        call_ensures(ReplyReceiver::<Message>::poll::<H>, (&receiver, pinger, event), action),
        !(event is Received),
    ensures
        action == ReceiveAction::Return(
            if event is Pending {
                Poll::Pending
            } else {
                Poll::Ready(Err(()))
            },
        ),
        final(pinger).sockets == old(pinger).sockets,
        final(pinger).state@ == old(pinger).state@,
        final(pinger).clock == old(pinger).clock,
{
}

/// To deliver a notice is to send its time to the ping that it is for.
pub proof fn law_deliver(notice: Notice)
    requires
        call_ensures(Notice::deliver, (notice,), ()),
    ensures
        sent(notice.sender, notice.time),
{
}

/// A message that is no echo reply ends no ping: whatever a raw IPv4 socket receives behind
/// an IPv4 header, everything waits on unless the message is of the type 0 and the code 0.
pub proof fn law_other_messages_end_no_ping<H>(
    receiver: ReplyReceiver<IcmpV4>,
    pinger: &mut Pinger<H>,
    data: &[u8],
    size: int,
    action: ReceiveAction,
)
    requires
        receiver.privileged,
        size == (data@[0] - 64) * 4,
        20 <= size <= 60,
        data@.len() >= size + 2,
        data@[size] != 0 || data@[size + 1] != 0,
        call_ensures(
            ReplyReceiver::<IcmpV4>::poll::<H>,
            (&receiver, pinger, ReceiveEvent::Received(data)),
            action,
        ),
    ensures
        final(pinger).state@ == old(pinger).state@,
{
    law_payload_v4_raw(data@);
}

} // verus!
