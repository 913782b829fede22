use traceroute::Action;
use traceroute::DecodeError;
use traceroute::Engine;
use traceroute::EngineError;
use traceroute::Event;
use traceroute::IdTable;
use traceroute::Message;
use traceroute::Payload;
use traceroute::ProbeInfo;
use traceroute::TimingTable;

fn datagram(icmp_type: u8, icmp_payload: &[u8]) -> Vec<u8> {
    let mut buf = vec![0u8; 20];
    buf[0] = 0x45;
    let mut icmp = vec![0u8; 8];
    icmp[0] = icmp_type;
    buf.extend_from_slice(&icmp);
    buf.extend_from_slice(icmp_payload);
    buf
}

fn echo_reply(id: u16) -> Vec<u8> {
    datagram(0, &id.to_be_bytes())
}

fn error_message(icmp_type: u8, id: u16) -> Vec<u8> {
    let mut embedded = vec![0u8; 28];
    embedded[0] = 0x45;
    let be = id.to_be_bytes();
    embedded[4] = be[0];
    embedded[5] = be[1];
    datagram(icmp_type, &embedded)
}

const GATEWAY: u32 = 0xc0a80001;

#[test]
fn time_exceeded_is_correlated_resolved_forwarded_and_credited() {
    let mut timing = TimingTable::new();
    let mut ids = IdTable::new();
    timing.record(1000, 0);
    ids.record(1000, ProbeInfo { hop: 1, numprobe: 1 });

    let mut e = Engine::new();
    let a = e.step(
        Event::Datagram { bytes: error_message(11, 1000), addr: GATEWAY, now: 12 },
        &timing,
        &ids,
    );
    assert_eq!(a, Action::Lookup { addr: GATEWAY });

    let a = e.step(Event::DnsResolved { host: "gw.local".to_string() }, &timing, &ids);
    assert_eq!(
        a,
        Action::Send {
            msg: Message::TimeExceeded(Payload {
                id: 1000,
                hop: 1,
                numprobe: 1,
                hostname: Some("gw.local".to_string()),
                ip_addr: Some(GATEWAY),
                rtt: Some(12),
            })
        }
    );

    let a = e.step(Event::Sent, &timing, &ids);
    assert_eq!(a, Action::AddCredit);
    assert!(!e.finished());
}

#[test]
fn second_delivery_of_same_id_is_dropped() {
    let mut timing = TimingTable::new();
    let mut ids = IdTable::new();
    timing.record(2001, 5);
    ids.record(2001, ProbeInfo { hop: 4, numprobe: 2 });

    let mut e = Engine::new();
    let a = e.step(
        Event::Datagram { bytes: echo_reply(2001), addr: GATEWAY, now: 20 },
        &timing,
        &ids,
    );
    assert_eq!(a, Action::Lookup { addr: GATEWAY });
    let a = e.step(Event::DnsResolved { host: "dst.example".to_string() }, &timing, &ids);
    match a {
        Action::Send { msg: Message::EchoReply(p) } => {
            assert_eq!(p.id, 2001);
            assert_eq!(p.rtt, Some(15));
        }
        other => panic!("expected an EchoReply send, got {:?}", other),
    }
    // An echo reply is a terminal outcome: no credit is returned.
    let a = e.step(Event::Sent, &timing, &ids);
    assert_eq!(a, Action::Recv);

    // The duplicate is dropped silently: no lookup, no send, no error.
    let a = e.step(
        Event::Datagram { bytes: echo_reply(2001), addr: GATEWAY, now: 25 },
        &timing,
        &ids,
    );
    assert_eq!(a, Action::Recv);
    assert!(!e.finished());
}

#[test]
fn dns_failure_breaks_printer_and_ends_the_run() {
    let mut timing = TimingTable::new();
    let mut ids = IdTable::new();
    timing.record(3000, 0);
    ids.record(3000, ProbeInfo { hop: 2, numprobe: 1 });

    let mut e = Engine::new();
    let a = e.step(
        Event::Datagram { bytes: error_message(11, 3000), addr: GATEWAY, now: 8 },
        &timing,
        &ids,
    );
    assert_eq!(a, Action::Lookup { addr: GATEWAY });
    let a = e.step(Event::DnsFailed, &timing, &ids);
    assert_eq!(a, Action::SendBreakPrinter);
    assert!(e.finished());
}

#[test]
fn undecodable_packet_is_a_fatal_decode_error() {
    let timing = TimingTable::new();
    let ids = IdTable::new();
    let mut e = Engine::new();
    let a = e.step(
        Event::Datagram { bytes: vec![0u8; 10], addr: GATEWAY, now: 1 },
        &timing,
        &ids,
    );
    assert_eq!(a, Action::Fail { err: EngineError::Decode(DecodeError::Icmp) });
    assert!(e.finished());
}

#[test]
fn shutdown_signal_stops_the_loop_before_any_processing() {
    let timing = TimingTable::new();
    let ids = IdTable::new();
    let mut e = Engine::new();
    let a = e.step(Event::Shutdown, &timing, &ids);
    assert_eq!(a, Action::Stop);
    assert!(e.finished());
}

#[test]
fn one_lookup_serves_every_reply_from_the_same_address() {
    let mut timing = TimingTable::new();
    let mut ids = IdTable::new();
    timing.record(10, 0);
    timing.record(11, 2);
    ids.record(10, ProbeInfo { hop: 3, numprobe: 1 });
    ids.record(11, ProbeInfo { hop: 3, numprobe: 2 });

    let mut e = Engine::new();
    let a = e.step(
        Event::Datagram { bytes: error_message(11, 10), addr: GATEWAY, now: 9 },
        &timing,
        &ids,
    );
    assert_eq!(a, Action::Lookup { addr: GATEWAY });
    let a = e.step(Event::DnsResolved { host: "gw.local".to_string() }, &timing, &ids);
    assert!(matches!(a, Action::Send { .. }));
    assert_eq!(e.step(Event::Sent, &timing, &ids), Action::AddCredit);

    // The second reply from the same address goes straight to a send,
    // reusing the cached hostname: no second lookup.
    let a = e.step(
        Event::Datagram { bytes: error_message(11, 11), addr: GATEWAY, now: 13 },
        &timing,
        &ids,
    );
    match a {
        Action::Send { msg: Message::TimeExceeded(p) } => {
            assert_eq!(p.id, 11);
            assert_eq!(p.hop, 3);
            assert_eq!(p.numprobe, 2);
            assert_eq!(p.hostname, Some("gw.local".to_string()));
            assert_eq!(p.rtt, Some(11));
        }
        other => panic!("expected a TimeExceeded send, got {:?}", other),
    }
}

#[test]
fn destination_unreachable_is_forwarded_without_credit() {
    let mut timing = TimingTable::new();
    let mut ids = IdTable::new();
    timing.record(77, 1);
    ids.record(77, ProbeInfo { hop: 9, numprobe: 3 });

    let mut e = Engine::new();
    let a = e.step(
        Event::Datagram { bytes: error_message(3, 77), addr: GATEWAY, now: 4 },
        &timing,
        &ids,
    );
    assert_eq!(a, Action::Lookup { addr: GATEWAY });
    let a = e.step(Event::DnsResolved { host: "gw.local".to_string() }, &timing, &ids);
    assert!(matches!(a, Action::Send { msg: Message::DestinationUnreachable(_) }));
    assert_eq!(e.step(Event::Sent, &timing, &ids), Action::Recv);
}

#[test]
fn unreported_icmp_type_is_ignored_after_bookkeeping() {
    let mut timing = TimingTable::new();
    let ids = IdTable::new();
    timing.record(55, 0);

    let mut e = Engine::new();
    let a = e.step(
        Event::Datagram { bytes: error_message(8, 55), addr: GATEWAY, now: 2 },
        &timing,
        &ids,
    );
    assert_eq!(a, Action::Lookup { addr: GATEWAY });
    // The type is not reported on: nothing is forwarded, the loop goes on.
    let a = e.step(Event::DnsResolved { host: "gw.local".to_string() }, &timing, &ids);
    assert_eq!(a, Action::Recv);
    assert!(!e.finished());
}

#[test]
fn missing_timing_record_is_fatal() {
    let timing = TimingTable::new();
    let ids = IdTable::new();
    let mut e = Engine::new();
    let a = e.step(
        Event::Datagram { bytes: echo_reply(123), addr: GATEWAY, now: 3 },
        &timing,
        &ids,
    );
    assert_eq!(a, Action::Fail { err: EngineError::MissingTiming(123) });
    assert!(e.finished());
}

#[test]
fn missing_identity_record_is_fatal() {
    let mut timing = TimingTable::new();
    let ids = IdTable::new();
    timing.record(9, 0);
    let mut e = Engine::new();
    let a = e.step(
        Event::Datagram { bytes: echo_reply(9), addr: GATEWAY, now: 6 },
        &timing,
        &ids,
    );
    assert_eq!(a, Action::Lookup { addr: GATEWAY });
    let a = e.step(Event::DnsResolved { host: "h".to_string() }, &timing, &ids);
    assert_eq!(a, Action::Fail { err: EngineError::MissingIdentity(9) });
    assert!(e.finished());
}

#[test]
fn closed_printer_channel_is_a_graceful_stop() {
    let mut timing = TimingTable::new();
    let mut ids = IdTable::new();
    timing.record(4, 0);
    ids.record(4, ProbeInfo { hop: 1, numprobe: 1 });
    let mut e = Engine::new();
    e.step(
        Event::Datagram { bytes: error_message(11, 4), addr: GATEWAY, now: 1 },
        &timing,
        &ids,
    );
    e.step(Event::DnsResolved { host: "gw".to_string() }, &timing, &ids);
    let a = e.step(Event::SendClosed, &timing, &ids);
    assert_eq!(a, Action::Stop);
    assert!(e.finished());
}

#[test]
fn reply_read_before_issue_instant_clamps_rtt_to_zero() {
    let mut timing = TimingTable::new();
    let mut ids = IdTable::new();
    timing.record(6, 100);
    ids.record(6, ProbeInfo { hop: 1, numprobe: 1 });
    let mut e = Engine::new();
    e.step(
        Event::Datagram { bytes: echo_reply(6), addr: GATEWAY, now: 40 },
        &timing,
        &ids,
    );
    let a = e.step(Event::DnsResolved { host: "h".to_string() }, &timing, &ids);
    match a {
        Action::Send { msg: Message::EchoReply(p) } => assert_eq!(p.rtt, Some(0)),
        other => panic!("expected an EchoReply send, got {:?}", other),
    }
}
