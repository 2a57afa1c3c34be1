//! The packet formats that a ping is made of.

pub mod checksum;
pub mod echo;
pub mod ipv4;

pub use echo::{EchoReply, EchoRequest, IcmpV4, IcmpV6, Proto, ICMP_HEADER_SIZE};
pub use ipv4::{IpV4Packet, IpV4Protocol};
