//! Decoding of raw datagrams read from the listening socket.
//!
//! A datagram starts with the IPv4 header, followed by the ICMP message.
//! An Echo-Reply carries the correlation id in the first two octets of its
//! payload (the sender embedded it there); every other ICMP message of
//! interest is an error message whose payload holds the original outbound
//! IPv4 packet, and the id is that packet's identification field.

use vstd::prelude::*;

verus! {

/// Classification of an inbound ICMP message, by its type octet.
#[derive(Clone, Copy, Debug, PartialEq, Eq, Structural)]
pub enum IcmpKind {
    EchoReply,
    DestinationUnreachable,
    TimeExceeded,
    /// Any ICMP type this engine does not report on.
    Other,
}

/// Why a raw datagram could not be decoded.
#[derive(Clone, Copy, Debug, PartialEq, Eq, Structural)]
pub enum DecodeError {
    /// The buffer is too short to hold the ICMP header, or (for an
    /// Echo-Reply) too short to hold the embedded correlation id.
    Icmp,
    /// An ICMP error message whose payload is too short to hold the
    /// original packet's IPv4 header.
    Ipv4,
}

/// Length of the IPv4 header the platform delivers before the ICMP message.
pub const IP_HDR_LEN: usize = 20;

/// Length of the ICMP header: type, code, checksum, rest-of-header.
pub const ICMP_HDR_LEN: usize = 8;

pub const ICMP_TYPE_ECHO_REPLY: u8 = 0;
pub const ICMP_TYPE_DEST_UNREACHABLE: u8 = 3;
pub const ICMP_TYPE_TIME_EXCEEDED: u8 = 11;

/// Offset of the identification field inside an IPv4 header.
pub const IPV4_IDENT_OFFSET: usize = 4;

pub open spec fn kind_of_type(t: u8) -> IcmpKind {
    if t == ICMP_TYPE_ECHO_REPLY {
        IcmpKind::EchoReply
    } else if t == ICMP_TYPE_DEST_UNREACHABLE {
        IcmpKind::DestinationUnreachable
    } else if t == ICMP_TYPE_TIME_EXCEEDED {
        IcmpKind::TimeExceeded
    } else {
        IcmpKind::Other
    }
}

/// The big-endian 16-bit value formed by two octets.
pub open spec fn be_u16(hi: u8, lo: u8) -> u16 {
    (256 * (hi as int) + (lo as int)) as u16
}

/// What decoding a raw datagram yields: the ICMP kind (from the type octet
/// just past the IPv4 header) and the correlation id, read from the
/// Echo-Reply payload or from the identification field of the embedded
/// original IPv4 packet.
pub open spec fn spec_decode(b: Seq<u8>) -> Result<(IcmpKind, u16), DecodeError> {
    if b.len() < (IP_HDR_LEN + ICMP_HDR_LEN) as int {
        Err(DecodeError::Icmp)
    } else {
        let kind = kind_of_type(b[IP_HDR_LEN as int]);
        if kind is EchoReply {
            if b.len() < (IP_HDR_LEN + ICMP_HDR_LEN + 2) as int {
                Err(DecodeError::Icmp)
            } else {
                Ok(
                    (
                        kind,
                        be_u16(
                            b[(IP_HDR_LEN + ICMP_HDR_LEN) as int],
                            b[(IP_HDR_LEN + ICMP_HDR_LEN + 1) as int],
                        ),
                    ),
                )
            }
        } else {
            if b.len() < (IP_HDR_LEN + ICMP_HDR_LEN + IP_HDR_LEN) as int {
                Err(DecodeError::Ipv4)
            } else {
                Ok(
                    (
                        kind,
                        be_u16(
                            b[(IP_HDR_LEN + ICMP_HDR_LEN + IPV4_IDENT_OFFSET) as int],
                            b[(IP_HDR_LEN + ICMP_HDR_LEN + IPV4_IDENT_OFFSET + 1) as int],
                        ),
                    ),
                )
            }
        }
    }
}

/// Classify an ICMP type octet.
pub fn kind_from_type(t: u8) -> (k: IcmpKind)
    ensures
        k == kind_of_type(t),
{
    if t == ICMP_TYPE_ECHO_REPLY {
        IcmpKind::EchoReply
    } else if t == ICMP_TYPE_DEST_UNREACHABLE {
        IcmpKind::DestinationUnreachable
    } else if t == ICMP_TYPE_TIME_EXCEEDED {
        IcmpKind::TimeExceeded
    } else {
        IcmpKind::Other
    }
}

fn read_be_u16(hi: u8, lo: u8) -> (r: u16)
    ensures
        r == be_u16(hi, lo),
{
    (hi as u16) * 256 + (lo as u16)
}

/// Decode one raw datagram: determine the ICMP kind and extract the
/// correlation id, exactly as `spec_decode` states.
pub fn decode_packet(buf: &[u8]) -> (r: Result<(IcmpKind, u16), DecodeError>)
    ensures
        r == spec_decode(buf@),
{
    if buf.len() < IP_HDR_LEN + ICMP_HDR_LEN {
        return Err(DecodeError::Icmp);
    }
    let kind = kind_from_type(buf[IP_HDR_LEN]);
    if kind == IcmpKind::EchoReply {
        if buf.len() < IP_HDR_LEN + ICMP_HDR_LEN + 2 {
            Err(DecodeError::Icmp)
        } else {
            let id = read_be_u16(buf[IP_HDR_LEN + ICMP_HDR_LEN], buf[IP_HDR_LEN + ICMP_HDR_LEN + 1]);
            Ok((kind, id))
        }
    } else {
        if buf.len() < IP_HDR_LEN + ICMP_HDR_LEN + IP_HDR_LEN {
            Err(DecodeError::Ipv4)
        } else {
            let id = read_be_u16(
                buf[IP_HDR_LEN + ICMP_HDR_LEN + IPV4_IDENT_OFFSET],
                buf[IP_HDR_LEN + ICMP_HDR_LEN + IPV4_IDENT_OFFSET + 1],
            );
            Ok((kind, id))
        }
    }
}

} // verus!
