//! The IPv4 header in front of what a raw socket receives.

use vstd::prelude::*;

verus! {

/// The length of an IPv4 header without options in bytes.
pub const MINIMUM_HEADER_SIZE: usize = 20;

/// The protocol number of ICMP.
pub const ICMP_PROTOCOL: u8 = 1;

/// What an IPv4 packet carries.
#[derive(Clone, Copy, Debug, PartialEq, Eq, Structural)]
pub enum IpV4Protocol {
    Icmp,
    Other(u8),
}

/// Why bytes are no IPv4 packet.
#[derive(Clone, Copy, Debug, PartialEq, Eq, Structural)]
pub enum IpV4Error {
    /// There are fewer bytes than the shortest header has.
    TooSmallHeader,
    /// The packet is of another version of IP.
    InvalidVersion,
    /// The header claims to be shorter than a header can be, or longer than the packet.
    InvalidHeaderSize,
}

/// The protocol with the given number.
pub open spec fn protocol_of(number: u8) -> IpV4Protocol {
    if number == ICMP_PROTOCOL {
        IpV4Protocol::Icmp
    } else {
        IpV4Protocol::Other(number)
    }
}

/// The length that the header of the packet `data` claims to have: its low four
/// bits count words of four bytes.
pub open spec fn header_size_of(data: Seq<u8>) -> int {
    data[0] % 16 * 4
}

/// The protocol and the content of the IPv4 packet `data`, or why it is none.
pub open spec fn content_of(data: Seq<u8>) -> Result<(IpV4Protocol, Seq<u8>), IpV4Error> {
    if data.len() < MINIMUM_HEADER_SIZE {
        Err(IpV4Error::TooSmallHeader)
    } else if data[0] / 16 != 4 {
        Err(IpV4Error::InvalidVersion)
    } else if header_size_of(data) < MINIMUM_HEADER_SIZE || data.len() < header_size_of(data) {
        Err(IpV4Error::InvalidHeaderSize)
    } else {
        Ok((protocol_of(data[9]), data.skip(header_size_of(data))))
    }
}

impl IpV4Protocol {
    /// The protocol with the given number.
    pub fn decode(number: u8) -> (protocol: IpV4Protocol)
        ensures
            protocol == protocol_of(number),
    {
        if number == ICMP_PROTOCOL {
            IpV4Protocol::Icmp
        } else {
            IpV4Protocol::Other(number)
        }
    }
}

/// The header length that the first byte of a packet tells.
fn header_size(first: u8) -> (size: usize)
    ensures
        size == first % 16 * 4,
{
    (first % 16) as usize * 4
}

/// An IPv4 packet.
pub struct IpV4Packet<'a> {
    pub protocol: IpV4Protocol,
    pub data: &'a [u8],
}

impl<'a> IpV4Packet<'a> {
    /// Reads the IPv4 packet that `data` holds.
    pub fn decode(data: &'a [u8]) -> (result: Result<IpV4Packet<'a>, IpV4Error>)
        ensures
            match result {
                Ok(packet) => content_of(data@) == Ok::<(IpV4Protocol, Seq<u8>), IpV4Error>(
                    (packet.protocol, packet.data@),
                ),
                Err(e) => content_of(data@) == Err::<(IpV4Protocol, Seq<u8>), IpV4Error>(e),
            },
    {
        if data.len() < MINIMUM_HEADER_SIZE {
            return Err(IpV4Error::TooSmallHeader);
        }
        if data[0] / 16 != 4 {
            return Err(IpV4Error::InvalidVersion);
        }
        let header_size: usize = header_size(data[0]);
        if header_size < MINIMUM_HEADER_SIZE || data.len() < header_size {
            return Err(IpV4Error::InvalidHeaderSize);
        }
        let content: &'a [u8] = &data[header_size..data.len()];
        assert(content@ =~= data@.skip(header_size as int));
        Ok(IpV4Packet { protocol: IpV4Protocol::decode(data[9]), data: content })
    }
}

} // verus!
