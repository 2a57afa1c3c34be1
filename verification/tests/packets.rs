use tokio_icmp_echo::packet::checksum::checksum;
use tokio_icmp_echo::packet::echo::EchoError;
use tokio_icmp_echo::packet::ipv4::IpV4Error;
use tokio_icmp_echo::packet::{
    EchoReply, EchoRequest, IcmpV4, IcmpV6, IpV4Packet, IpV4Protocol, ICMP_HEADER_SIZE,
};
use tokio_icmp_echo::receiver::ParseReply;

fn ipv4_header(words: u8, protocol: u8) -> Vec<u8> {
    let mut header = vec![0u8; usize::from(words) * 4];
    header[0] = 0x40 + words;
    header[9] = protocol;
    header
}

#[test]
fn checksum_of_even_data() {
    let data = [0x00, 0x01, 0xf2, 0x03, 0xf4, 0xf5, 0xf6, 0xf7];
    assert_eq!(checksum(&data), 0x220d);
}

#[test]
fn checksum_of_odd_and_empty_data() {
    assert_eq!(checksum(&[0x01]), 0xfeff);
    assert_eq!(checksum(&[]), 0xffff);
    assert_eq!(checksum(&[0xff, 0xff]), 0);
}

#[test]
fn checksum_carries_around() {
    assert_eq!(checksum(&[0xff, 0xff, 0x00, 0x01]), 0xfffe);
}

#[test]
fn request_v4_bytes() {
    let request = EchoRequest { ident: 0x1234, seq_cnt: 1, payload: &[] };
    let mut buffer = [0xaau8; 8];
    assert_eq!(request.encode::<IcmpV4>(&mut buffer), Ok(()));
    assert_eq!(buffer, [8, 0, 0xe5, 0xca, 0x12, 0x34, 0x00, 0x01]);
}

#[test]
fn request_v6_bytes() {
    let request = EchoRequest { ident: 0x1234, seq_cnt: 1, payload: &[] };
    let mut buffer = [0u8; 8];
    assert_eq!(request.encode::<IcmpV6>(&mut buffer), Ok(()));
    assert_eq!(buffer, [128, 0, 0x6d, 0xca, 0x12, 0x34, 0x00, 0x01]);
}

#[test]
fn request_checksum_is_right() {
    let payload = [9u8, 8, 7, 6, 5];
    let request = EchoRequest { ident: 0xffee, seq_cnt: 0xddcc, payload: &payload };
    let mut buffer = [0u8; 13];
    assert_eq!(request.encode::<IcmpV4>(&mut buffer), Ok(()));
    assert_eq!(checksum(&buffer), 0);
}

#[test]
fn request_leaves_the_rest_of_the_buffer() {
    let request = EchoRequest { ident: 1, seq_cnt: 2, payload: &[3, 4] };
    let mut buffer = [7u8; 12];
    assert_eq!(request.encode::<IcmpV4>(&mut buffer), Ok(()));
    assert_eq!(&buffer[ICMP_HEADER_SIZE..], &[3, 4, 7, 7]);
}

#[test]
fn request_does_not_fit() {
    let request = EchoRequest { ident: 1, seq_cnt: 2, payload: &[3, 4] };
    let mut buffer = [7u8; 9];
    assert_eq!(request.encode::<IcmpV4>(&mut buffer), Err(EchoError::InvalidSize));
    assert_eq!(buffer, [7u8; 9]);
    let mut tiny = [7u8; 3];
    assert_eq!(request.encode::<IcmpV6>(&mut tiny), Err(EchoError::InvalidSize));
}

#[test]
fn reply_fields() {
    let data = [129u8, 0, 0xff, 0xff, 0x12, 0x34, 0xab, 0xcd, 1, 2, 3];
    match EchoReply::decode::<IcmpV6>(&data) {
        Ok(reply) => {
            assert_eq!(reply.ident, 0x1234);
            assert_eq!(reply.seq_cnt, 0xabcd);
            assert_eq!(reply.payload, &[1, 2, 3]);
        }
        Err(e) => panic!("{:?}", e),
    }
}

#[test]
fn reply_errors() {
    assert!(matches!(EchoReply::decode::<IcmpV4>(&[0; 7]), Err(EchoError::InvalidSize)));
    assert!(matches!(
        EchoReply::decode::<IcmpV4>(&[8, 0, 0, 0, 0, 0, 0, 0]),
        Err(EchoError::InvalidPacket)
    ));
    assert!(matches!(
        EchoReply::decode::<IcmpV4>(&[0, 1, 0, 0, 0, 0, 0, 0]),
        Err(EchoError::InvalidPacket)
    ));
    assert!(EchoReply::decode::<IcmpV4>(&[0; 8]).is_ok());
}

#[test]
fn ipv4_packet_without_options() {
    let mut data = ipv4_header(5, 1);
    data.extend_from_slice(&[1, 2, 3]);
    match IpV4Packet::decode(&data) {
        Ok(packet) => {
            assert_eq!(packet.protocol, IpV4Protocol::Icmp);
            assert_eq!(packet.data, &[1, 2, 3]);
        }
        Err(e) => panic!("{:?}", e),
    }
}

#[test]
fn ipv4_packet_with_options() {
    let mut data = ipv4_header(7, 17);
    data.push(5);
    match IpV4Packet::decode(&data) {
        Ok(packet) => {
            assert_eq!(packet.protocol, IpV4Protocol::Other(17));
            assert_eq!(packet.data, &[5]);
        }
        Err(e) => panic!("{:?}", e),
    }
}

#[test]
fn ipv4_errors() {
    assert!(matches!(IpV4Packet::decode(&[0x45; 19]), Err(IpV4Error::TooSmallHeader)));
    assert!(matches!(IpV4Packet::decode(&[0x65; 20]), Err(IpV4Error::InvalidVersion)));
    assert!(matches!(IpV4Packet::decode(&[0x44; 20]), Err(IpV4Error::InvalidHeaderSize)));
    assert!(matches!(IpV4Packet::decode(&[0x46; 23]), Err(IpV4Error::InvalidHeaderSize)));
}

#[test]
fn payload_on_a_datagram_socket() {
    let data = [0u8, 0, 0, 0, 0, 1, 0, 2, 42, 43];
    assert_eq!(IcmpV4::reply_payload(false, &data), Some(&data[8..]));
    assert_eq!(IcmpV6::reply_payload(false, &data), None);
    assert_eq!(IcmpV4::reply_payload(false, &data[..7]), None);
}

#[test]
fn payload_behind_an_ipv4_header() {
    let message = [0u8, 0, 0, 0, 0, 1, 0, 2, 42, 43];
    let mut data = ipv4_header(6, 1);
    data.extend_from_slice(&message);
    assert_eq!(IcmpV4::reply_payload(true, &data), Some(&message[8..]));
    assert_eq!(IcmpV4::reply_payload(true, &message), None);
    let mut other = ipv4_header(5, 6);
    other.extend_from_slice(&message);
    assert_eq!(IcmpV4::reply_payload(true, &other), None);
    let mut request = ipv4_header(5, 1);
    request.extend_from_slice(&[8, 0, 0, 0, 0, 1, 0, 2, 42]);
    assert_eq!(IcmpV4::reply_payload(true, &request), None);
}

#[test]
fn payload_over_ipv6() {
    let data = [129u8, 0, 0, 0, 0, 1, 0, 2, 42];
    assert_eq!(IcmpV6::reply_payload(true, &data), Some(&data[8..]));
    assert_eq!(IcmpV6::reply_payload(false, &data), Some(&data[8..]));
    let request = [128u8, 0, 0, 0, 0, 1, 0, 2, 42];
    assert_eq!(IcmpV6::reply_payload(false, &request), None);
}
