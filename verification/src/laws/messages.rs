//! What the bytes of a message say, and what is read from them.

use vstd::prelude::*;

use crate::net::IpAddr;
use crate::packet::checksum::checksum;
use crate::packet::echo::EchoError;
use crate::packet::ipv4::IpV4Error;
use crate::packet::{EchoReply, EchoRequest, IcmpV4, IcmpV6, IpV4Packet, IpV4Protocol, Proto};

verus! {

use crate::packet::checksum::{checksum_of, fold, lemma_word_sum_concat, word_sum};
use crate::packet::echo::{be_bytes, echo_bytes, lemma_echo_bytes, request_bytes};
use crate::ping::request_packet;

/// The words of a message add up piece by piece: two bytes are a word whose first byte
/// is the high one, a byte that is left over is the high byte of a word, and the words of
/// two parts add up if the first part holds whole words.
pub proof fn law_word_sum(high: u8, low: u8, front: Seq<u8>, back: Seq<u8>)
    requires
        front.len() % 2 == 0,
    ensures
        word_sum(Seq::<u8>::empty()) == 0,
        word_sum(seq![high]) == high * 256,
        word_sum(seq![high, low]) == high * 256 + low,
        word_sum(front + back) == word_sum(front) + word_sum(back),
{
    let word = seq![high, low];
    assert(word.skip(2).len() == 0);
    assert(word_sum(word.skip(2)) == 0);
    lemma_word_sum_concat(front, back);
}

/// A last odd byte counts as if a zero followed it.
pub proof fn law_odd_byte(front: Seq<u8>, last: u8)
    requires
        front.len() % 2 == 0,
    ensures
        word_sum(front.push(last)) == word_sum(front.push(last).push(0)),
{
    law_word_sum(last, 0, front, seq![last]);
    law_word_sum(last, 0, front, seq![last, 0u8]);
    assert(front.push(last) =~= front + seq![last]);
    assert(front.push(last).push(0) =~= front + seq![last, 0u8]);
}

/// A folded sum has 16 bits and leaves what the sum leaves when it is divided by all ones.
/// It is zero only if the sum is.
pub proof fn law_fold(sum: nat)
    ensures
        fold(sum) <= 0xffff,
        fold(sum) % 0xffff == sum % 0xffff,
        fold(sum) == 0 <==> sum == 0,
{
}

/// The checksum brings the words of a message up to a multiple of all ones. It is all ones
/// itself only for a message without a bit that is set.
pub proof fn law_checksum(data: &[u8], sum: u16)
    requires
        call_ensures(checksum, (data,), sum),
    ensures
        sum == checksum_of(data@),
        (word_sum(data@) + sum) % 0xffff == 0,
        sum == 0xffff <==> word_sum(data@) == 0,
{
    law_fold(word_sum(data@));
}

/// A message that ends with its own checksum has the checksum zero.
pub proof fn law_checksum_appended(data: &[u8], sum: u16, whole: &[u8], sum_of_whole: u16)
    requires
        data@.len() % 2 == 0,
        whole@ == data@ + seq![(sum / 256) as u8, (sum % 256) as u8],
        call_ensures(checksum, (data,), sum),
        call_ensures(checksum, (whole,), sum_of_whole),
    ensures
        sum_of_whole == 0,
{
    law_checksum(data, sum);
    law_checksum(whole, sum_of_whole);
    law_word_sum(
        (sum / 256) as u8,
        (sum % 256) as u8,
        data@,
        seq![(sum / 256) as u8, (sum % 256) as u8],
    );
}

/// What a request of the version `P` says, byte by byte.
proof fn lemma_request_fields<P: Proto>(ident: u16, seq_cnt: u16, payload: Seq<u8>)
    ensures
        ({
            let message = request_bytes::<P>(ident, seq_cnt, payload);
            &&& message.len() == 8 + payload.len()
            &&& message[0] == P::request_type()
            &&& message[1] == P::request_code()
            &&& message[2] * 256 + message[3] == checksum_of(message.update(2, 0).update(3, 0))
            &&& message[4] * 256 + message[5] == ident
            &&& message[6] * 256 + message[7] == seq_cnt
            &&& message.skip(8) == payload
        }),
{
    let type_ = P::request_type();
    let code = P::request_code();
    let blank = echo_bytes(type_, code, 0, ident, seq_cnt, payload);
    let sum = checksum_of(blank);
    let message = request_bytes::<P>(ident, seq_cnt, payload);
    lemma_echo_bytes(type_, code, 0, ident, seq_cnt, payload);
    lemma_echo_bytes(type_, code, sum, ident, seq_cnt, payload);
    assert(be_bytes(0) =~= seq![0u8, 0u8]);
    assert(message.update(2, 0).update(3, 0) =~= blank);
    assert(message.skip(8) =~= payload);
}

/// What the request to a host says, byte by byte: the type 8 over IPv4 and 128 over IPv6,
/// the code 0, the checksum of the message, the identifier and the sequence number, high
/// byte first, and the token.
pub proof fn law_request_packet(hostname: IpAddr, ident: u16, seq_cnt: u16, token: Seq<u8>)
    ensures
        ({
            let message = request_packet(hostname, ident, seq_cnt, token);
            &&& message.len() == 8 + token.len()
            &&& message[0] == (if hostname is V4 {
                8u8
            } else {
                128u8
            })
            &&& message[1] == 0
            &&& message[2] * 256 + message[3] == checksum_of(message.update(2, 0).update(3, 0))
            &&& message[4] * 256 + message[5] == ident
            &&& message[6] * 256 + message[7] == seq_cnt
            &&& message.skip(8) == token
        }),
{
    lemma_request_fields::<IcmpV4>(ident, seq_cnt, token);
    lemma_request_fields::<IcmpV6>(ident, seq_cnt, token);
}

/// Whether a request was written to the start of a buffer: its header says the given type,
/// the code 0, the identifier and the sequence number, high byte first, and the checksum of
/// all of the message; the payload follows, and the rest is as it was.
pub open spec fn is_written(
    before: Seq<u8>,
    after: Seq<u8>,
    type_: u8,
    ident: u16,
    seq_cnt: u16,
    payload: Seq<u8>,
) -> bool {
    let message = after.take(8int + payload.len());
    &&& after.len() == before.len()
    &&& message[0] == type_
    &&& message[1] == 0
    &&& message[2] * 256 + message[3] == checksum_of(message.update(2, 0).update(3, 0))
    &&& message[4] * 256 + message[5] == ident
    &&& message[6] * 256 + message[7] == seq_cnt
    &&& message.skip(8) == payload
    &&& after.skip(8int + payload.len()) == before.skip(8int + payload.len())
}

/// A request that was written stands at the start of the buffer.
proof fn lemma_written<P: Proto>(
    before: Seq<u8>,
    after: Seq<u8>,
    ident: u16,
    seq_cnt: u16,
    payload: Seq<u8>,
)
    requires
        8 + payload.len() <= before.len(),
        after == request_bytes::<P>(ident, seq_cnt, payload) + before.skip(8int + payload.len()),
        P::request_code() == 0,
    ensures
        is_written(before, after, P::request_type(), ident, seq_cnt, payload),
{
    lemma_request_fields::<P>(ident, seq_cnt, payload);
    assert(after.take(8int + payload.len()) =~= request_bytes::<P>(ident, seq_cnt, payload));
    assert(after.skip(8int + payload.len()) =~= before.skip(8int + payload.len()));
}

/// A request over IPv4 is written if and only if there is room for its header of eight
/// bytes and its payload. If there is not, the buffer stays as it is.
pub proof fn law_encode_v4<'a>(
    request: EchoRequest<'a>,
    buffer: &mut [u8],
    result: Result<(), EchoError>,
)
    requires
        call_ensures(EchoRequest::<'a>::encode::<IcmpV4>, (&request, buffer), result),
    ensures
        result is Ok <==> 8 + request.payload@.len() <= old(buffer)@.len(),
        result is Ok ==> is_written(
            old(buffer)@,
            final(buffer)@,
            8,
            request.ident,
            request.seq_cnt,
            request.payload@,
        ),
        result is Err ==> {
            &&& result == Err::<(), EchoError>(EchoError::InvalidSize)
            &&& final(buffer)@ == old(buffer)@
        },
{
    if result is Ok {
        lemma_written::<IcmpV4>(
            old(buffer)@,
            final(buffer)@,
            request.ident,
            request.seq_cnt,
            request.payload@,
        );
    }
}

/// A request over IPv6 is written if and only if there is room for its header of eight
/// bytes and its payload. If there is not, the buffer stays as it is.
pub proof fn law_encode_v6<'a>(
    request: EchoRequest<'a>,
    buffer: &mut [u8],
    result: Result<(), EchoError>,
)
    requires
        call_ensures(EchoRequest::<'a>::encode::<IcmpV6>, (&request, buffer), result),
    ensures
        result is Ok <==> 8 + request.payload@.len() <= old(buffer)@.len(),
        result is Ok ==> is_written(
            old(buffer)@,
            final(buffer)@,
            128,
            request.ident,
            request.seq_cnt,
            request.payload@,
        ),
        result is Err ==> {
            &&& result == Err::<(), EchoError>(EchoError::InvalidSize)
            &&& final(buffer)@ == old(buffer)@
        },
{
    if result is Ok {
        lemma_written::<IcmpV6>(
            old(buffer)@,
            final(buffer)@,
            request.ident,
            request.seq_cnt,
            request.payload@,
        );
    }
}

/// Over IPv4 the messages of the type 0 and the code 0 are echo replies, and no others. A
/// reply has the identifier and the sequence number of its header, and what follows the
/// eight bytes of the header is its payload.
pub proof fn law_decode_v4<'a>(data: &'a [u8], result: Result<EchoReply<'a>, EchoError>)
    requires
        call_ensures(EchoReply::<'a>::decode::<IcmpV4>, (data,), result),
    ensures
        result is Ok <==> data@.len() >= 8 && data@[0] == 0 && data@[1] == 0,
        result matches Ok(reply) ==> {
            &&& reply.ident == data@[4] * 256 + data@[5]
            &&& reply.seq_cnt == data@[6] * 256 + data@[7]
            &&& reply.payload@ == data@.skip(8)
        },
        result matches Err(e) ==> (e == EchoError::InvalidSize <==> data@.len() < 8),
{
}

/// Over IPv6 the messages of the type 129 and the code 0 are echo replies, and no others. A
/// reply has the identifier and the sequence number of its header, and what follows the
/// eight bytes of the header is its payload.
pub proof fn law_decode_v6<'a>(data: &'a [u8], result: Result<EchoReply<'a>, EchoError>)
    requires
        call_ensures(EchoReply::<'a>::decode::<IcmpV6>, (data,), result),
    ensures
        result is Ok <==> data@.len() >= 8 && data@[0] == 129 && data@[1] == 0,
        result matches Ok(reply) ==> {
            &&& reply.ident == data@[4] * 256 + data@[5]
            &&& reply.seq_cnt == data@[6] * 256 + data@[7]
            &&& reply.payload@ == data@.skip(8)
        },
        result matches Err(e) ==> (e == EchoError::InvalidSize <==> data@.len() < 8),
{
}

/// An IPv4 packet has at least 20 bytes. Its first byte is 64 more than the number of words
/// of four bytes in the header, of which there are 5 to 15, and all of which are there. The
/// tenth byte tells what it carries, 1 for ICMP. What it carries follows the header.
pub proof fn law_ipv4_packet<'a>(data: &'a [u8], result: Result<IpV4Packet<'a>, IpV4Error>)
    requires
        call_ensures(IpV4Packet::<'a>::decode, (data,), result),
    ensures
        result is Ok <==> {
            &&& data@.len() >= 20
            &&& 69 <= data@[0] < 80
            &&& data@.len() >= (data@[0] - 64) * 4
        },
        result matches Ok(packet) ==> {
            &&& packet.data@ == data@.skip((data@[0] - 64) * 4)
            &&& packet.protocol == (if data@[9] == 1 {
                IpV4Protocol::Icmp
            } else {
                IpV4Protocol::Other(data@[9])
            })
        },
        result matches Err(e) ==> {
            &&& e == IpV4Error::TooSmallHeader <==> data@.len() < 20
            &&& e == IpV4Error::InvalidVersion <==> data@.len() >= 20 && !(64 <= data@[0] < 80)
        },
{
}

/// The protocol number 1 is that of ICMP.
pub proof fn law_protocol(number: u8, protocol: IpV4Protocol)
    requires
        call_ensures(IpV4Protocol::decode, (number,), protocol),
    ensures
        number == 1 ==> protocol == IpV4Protocol::Icmp,
        number != 1 ==> protocol == IpV4Protocol::Other(number),
{
}

} // verus!
