//! ICMP echo messages.
//!
//! An echo message starts with a header of eight bytes: type, code, checksum,
//! identifier and sequence number, the last three of two bytes each, high byte
//! first. The payload follows. The checksum covers the whole message, its own
//! two bytes counted as zero.

use vstd::prelude::*;

use super::checksum::checksum;

verus! {

use super::checksum::checksum_of;

/// The length of the header of an echo message in bytes.
pub const ICMP_HEADER_SIZE: usize = 8;

/// What distinguishes the echo messages of one version of ICMP.
pub trait Proto: Sized {
    /// The type of an echo request.
    spec fn request_type() -> u8;

    /// The code of an echo request.
    spec fn request_code() -> u8;

    /// The type of an echo reply.
    spec fn reply_type() -> u8;

    /// The code of an echo reply.
    spec fn reply_code() -> u8;

    /// The type and the code of an echo request.
    fn echo_request() -> (kind: (u8, u8))
        ensures
            kind == (Self::request_type(), Self::request_code()),
    ;

    /// The type and the code of an echo reply.
    fn echo_reply() -> (kind: (u8, u8))
        ensures
            kind == (Self::reply_type(), Self::reply_code()),
    ;
}

/// ICMP over IPv4.
pub struct IcmpV4;

/// ICMP over IPv6.
pub struct IcmpV6;

impl Proto for IcmpV4 {
    open spec fn request_type() -> u8 {
        8
    }

    open spec fn request_code() -> u8 {
        0
    }

    open spec fn reply_type() -> u8 {
        0
    }

    open spec fn reply_code() -> u8 {
        0
    }

    fn echo_request() -> (kind: (u8, u8)) {
        (8, 0)
    }

    fn echo_reply() -> (kind: (u8, u8)) {
        (0, 0)
    }
}

impl Proto for IcmpV6 {
    open spec fn request_type() -> u8 {
        128
    }

    open spec fn request_code() -> u8 {
        0
    }

    open spec fn reply_type() -> u8 {
        129
    }

    open spec fn reply_code() -> u8 {
        0
    }

    fn echo_request() -> (kind: (u8, u8)) {
        (128, 0)
    }

    fn echo_reply() -> (kind: (u8, u8)) {
        (129, 0)
    }
}

/// Why bytes are no echo message, or no room for one.
#[derive(Clone, Copy, Debug, PartialEq, Eq, Structural)]
pub enum EchoError {
    /// There are too few bytes.
    InvalidSize,
    /// The message is of another type or code.
    InvalidPacket,
}

/// The two bytes of `value`, the high one first.
pub open spec fn be_bytes(value: u16) -> Seq<u8> {
    seq![(value / 256) as u8, (value % 256) as u8]
}

/// The number that two bytes make up, the high one first.
pub open spec fn be_value(high: u8, low: u8) -> u16 {
    (high * 256 + low) as u16
}

/// The bytes of an echo message.
pub open spec fn echo_bytes(
    type_: u8,
    code: u8,
    sum: u16,
    ident: u16,
    seq_cnt: u16,
    payload: Seq<u8>,
) -> Seq<u8> {
    seq![type_, code] + be_bytes(sum) + be_bytes(ident) + be_bytes(seq_cnt) + payload
}

/// Where the parts of an echo message stand.
pub proof fn lemma_echo_bytes(
    type_: u8,
    code: u8,
    sum: u16,
    ident: u16,
    seq_cnt: u16,
    payload: Seq<u8>,
)
    ensures
        ({
            let message = echo_bytes(type_, code, sum, ident, seq_cnt, payload);
            &&& message.len() == ICMP_HEADER_SIZE + payload.len()
            &&& message[0] == type_
            &&& message[1] == code
            &&& message[2] == be_bytes(sum)[0]
            &&& message[3] == be_bytes(sum)[1]
            &&& message[4] == be_bytes(ident)[0]
            &&& message[5] == be_bytes(ident)[1]
            &&& message[6] == be_bytes(seq_cnt)[0]
            &&& message[7] == be_bytes(seq_cnt)[1]
            &&& forall|j: int|
                ICMP_HEADER_SIZE <= j < message.len() ==> #[trigger] message[j] == payload[j
                    - ICMP_HEADER_SIZE]
            &&& message.skip(ICMP_HEADER_SIZE as int) == payload
        }),
{
    let message = echo_bytes(type_, code, sum, ident, seq_cnt, payload);
    assert(message.skip(ICMP_HEADER_SIZE as int) =~= payload);
}

/// The checksum that belongs into an echo message.
pub open spec fn echo_checksum(
    type_: u8,
    code: u8,
    ident: u16,
    seq_cnt: u16,
    payload: Seq<u8>,
) -> u16 {
    checksum_of(echo_bytes(type_, code, 0, ident, seq_cnt, payload))
}

/// The bytes of an echo request of the version `P`.
pub open spec fn request_bytes<P: Proto>(ident: u16, seq_cnt: u16, payload: Seq<u8>) -> Seq<u8> {
    echo_bytes(
        P::request_type(),
        P::request_code(),
        echo_checksum(P::request_type(), P::request_code(), ident, seq_cnt, payload),
        ident,
        seq_cnt,
        payload,
    )
}

/// The payload of the echo reply of the version `P` that `data` holds, or why
/// it holds none.
pub open spec fn reply_payload_of<P: Proto>(data: Seq<u8>) -> Result<Seq<u8>, EchoError> {
    if data.len() < ICMP_HEADER_SIZE {
        Err(EchoError::InvalidSize)
    } else if data[0] != P::reply_type() || data[1] != P::reply_code() {
        Err(EchoError::InvalidPacket)
    } else {
        Ok(data.skip(ICMP_HEADER_SIZE as int))
    }
}

/// The high byte of `value`.
fn high_byte(value: u16) -> (byte: u8)
    ensures
        byte == be_bytes(value)[0],
{
    (value / 256) as u8
}

/// The low byte of `value`.
fn low_byte(value: u16) -> (byte: u8)
    ensures
        byte == be_bytes(value)[1],
{
    (value % 256) as u8
}

/// The number that two bytes make up, the high one first.
fn join_bytes(high: u8, low: u8) -> (value: u16)
    ensures
        value == be_value(high, low),
{
    high as u16 * 256 + low as u16
}

/// An echo request.
pub struct EchoRequest<'a> {
    pub ident: u16,
    pub seq_cnt: u16,
    pub payload: &'a [u8],
}

impl<'a> EchoRequest<'a> {
    /// Writes the request to the start of `buffer`. What `buffer` holds beyond
    /// the request, and all of it when the request does not fit, stays as it is.
    pub fn encode<P: Proto>(&self, buffer: &mut [u8]) -> (result: Result<(), EchoError>)
        ensures
            match result {
                Ok(()) => {
                    &&& ICMP_HEADER_SIZE + self.payload@.len() <= old(buffer)@.len()
                    &&& final(buffer)@ == request_bytes::<P>(self.ident, self.seq_cnt, self.payload@)
                        + old(buffer)@.skip(ICMP_HEADER_SIZE + self.payload@.len())
                },
                Err(e) => {
                    &&& e == EchoError::InvalidSize
                    &&& ICMP_HEADER_SIZE + self.payload@.len() > old(buffer)@.len()
                    &&& final(buffer)@ == old(buffer)@
                },
            },
    {
        if buffer.len() < ICMP_HEADER_SIZE || buffer.len() - ICMP_HEADER_SIZE < self.payload.len() {
            return Err(EchoError::InvalidSize);
        }
        let ghost before = buffer@;
        let room: usize = buffer.len();
        let (type_, code) = P::echo_request();
        buffer[0] = type_;
        buffer[1] = code;
        buffer[2] = 0;
        buffer[3] = 0;
        buffer[4] = high_byte(self.ident);
        buffer[5] = low_byte(self.ident);
        buffer[6] = high_byte(self.seq_cnt);
        buffer[7] = low_byte(self.seq_cnt);
        let ghost header = buffer@;
        let size: usize = self.payload.len();
        let mut i: usize = 0;
        while i < size
            invariant
                size == self.payload@.len(),
                ICMP_HEADER_SIZE + size <= room,
                buffer@.len() == before.len() == header.len() == room,
                i <= size,
                forall|j: int| 0 <= j < ICMP_HEADER_SIZE ==> buffer@[j] == header[j],
                forall|j: int|
                    ICMP_HEADER_SIZE <= j < ICMP_HEADER_SIZE + i ==> buffer@[j] == self.payload@[j
                        - ICMP_HEADER_SIZE],
                forall|j: int|
                    ICMP_HEADER_SIZE + size <= j < buffer@.len() ==> buffer@[j] == before[j],
            decreases size - i,
        {
            buffer[ICMP_HEADER_SIZE + i] = self.payload[i];
            i = i + 1;
        }
        let end: usize = ICMP_HEADER_SIZE + size;
        let ghost blank = echo_bytes(type_, code, 0, self.ident, self.seq_cnt, self.payload@);
        proof {
            lemma_echo_bytes(type_, code, 0, self.ident, self.seq_cnt, self.payload@);
            assert(header[2] == be_bytes(0)[0] && header[3] == be_bytes(0)[1]);
            assert forall|j: int| 0 <= j < end implies buffer@[j] == blank[j] by {
                if j < ICMP_HEADER_SIZE {
                    assert(buffer@[j] == header[j]);
                }
            }
            assert(buffer@.subrange(0, end as int) =~= blank);
        }
        let sum: u16 = checksum(&buffer[0..end]);
        buffer[2] = high_byte(sum);
        buffer[3] = low_byte(sum);
        proof {
            lemma_echo_bytes(type_, code, sum, self.ident, self.seq_cnt, self.payload@);
            assert(buffer@ =~= request_bytes::<P>(self.ident, self.seq_cnt, self.payload@)
                + before.skip(end as int));
        }
        Ok(())
    }
}

/// An echo reply.
pub struct EchoReply<'a> {
    pub ident: u16,
    pub seq_cnt: u16,
    pub payload: &'a [u8],
}

impl<'a> EchoReply<'a> {
    /// Reads an echo reply that takes up all of `data`. The checksum is left to
    /// the network stack.
    pub fn decode<P: Proto>(data: &'a [u8]) -> (result: Result<EchoReply<'a>, EchoError>)
        ensures
            match result {
                Ok(reply) => {
                    &&& reply_payload_of::<P>(data@) == Ok::<Seq<u8>, EchoError>(reply.payload@)
                    &&& reply.ident == be_value(data@[4], data@[5])
                    &&& reply.seq_cnt == be_value(data@[6], data@[7])
                },
                Err(e) => reply_payload_of::<P>(data@) == Err::<Seq<u8>, EchoError>(e),
            },
    {
        if data.len() < ICMP_HEADER_SIZE {
            return Err(EchoError::InvalidSize);
        }
        let (type_, code) = P::echo_reply();
        if data[0] != type_ || data[1] != code {
            return Err(EchoError::InvalidPacket);
        }
        let ident: u16 = join_bytes(data[4], data[5]);
        let seq_cnt: u16 = join_bytes(data[6], data[7]);
        let payload: &'a [u8] = &data[ICMP_HEADER_SIZE..data.len()];
        assert(payload@ =~= data@.skip(ICMP_HEADER_SIZE as int));
        Ok(EchoReply { ident, seq_cnt, payload })
    }
}

} // verus!
