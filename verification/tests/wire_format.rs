//! Agreement of the verified decoder with the wire-format parsers the rest
//! of the system uses: the same buffers, read both ways, yield the same
//! ICMP type and correlation id.

use pnet::packet::icmp::{IcmpPacket, IcmpTypes};
use pnet::packet::ipv4::{Ipv4Packet, MutableIpv4Packet};
use pnet::packet::Packet;

use traceroute::decode_packet;
use traceroute::IcmpKind;

#[test]
fn error_message_id_agrees_with_wire_format_parsers() {
    // An ICMP Time-Exceeded datagram whose payload embeds the original
    // outbound packet; its identification field is written through the
    // wire-format library's own setter.
    let mut buf = vec![0u8; 48];
    buf[0] = 0x45;
    buf[20] = 11;
    {
        let mut embedded = MutableIpv4Packet::new(&mut buf[28..]).unwrap();
        embedded.set_version(4);
        embedded.set_header_length(5);
        embedded.set_identification(1000);
    }

    let icmp = IcmpPacket::new(&buf[20..]).unwrap();
    assert_eq!(icmp.get_icmp_type(), IcmpTypes::TimeExceeded);
    let embedded = Ipv4Packet::new(&buf[28..]).unwrap();
    assert_eq!(embedded.get_identification(), 1000);

    assert_eq!(decode_packet(&buf), Ok((IcmpKind::TimeExceeded, 1000)));
}

#[test]
fn echo_reply_id_agrees_with_wire_format_parsers() {
    // An Echo-Reply datagram; the sender embeds the correlation id in the
    // first two data octets, past the echo identifier and sequence fields.
    let mut buf = vec![0u8; 30];
    buf[0] = 0x45;
    buf[20] = 0;
    buf[28] = 0x12;
    buf[29] = 0x34;

    let icmp = IcmpPacket::new(&buf[20..]).unwrap();
    assert_eq!(icmp.get_icmp_type(), IcmpTypes::EchoReply);
    let data = icmp.payload();
    assert_eq!(u16::from_be_bytes([data[4], data[5]]), 0x1234);

    assert_eq!(decode_packet(&buf), Ok((IcmpKind::EchoReply, 0x1234)));
}
