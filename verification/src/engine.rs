//! The receiver's correlation engine, as an explicit state machine.
//!
//! The surrounding program owns the socket, the DNS call, the outbound
//! channel and the concurrency-credit primitive; the engine owns every
//! decision. The program hands the engine one [`Event`] at a time and
//! performs the [`Action`] the engine returns: wait for a datagram, do a
//! reverse-DNS lookup, send a message to the printer, return a concurrency
//! credit, or stop. The spec function [`next`] states the whole transition
//! relation; `Engine::step` is proved to follow it exactly.

use vstd::prelude::*;
use std::collections::HashMap;
use std::collections::HashSet;

use crate::packet::DecodeError;
use crate::packet::IcmpKind;
use crate::packet::decode_packet;
use crate::packet::spec_decode;
use crate::tables::IdTable;
use crate::tables::ProbeInfo;
use crate::tables::TimingTable;

verus! {

broadcast use vstd::std_specs::hash::group_hash_axioms;

/// Why the run must abort: the error taxonomy of the engine.
#[derive(Clone, Copy, Debug, PartialEq, Eq, Structural)]
pub enum EngineError {
    /// A datagram on the raw socket could not be decoded; strict policy:
    /// malformed input on this socket is an environment fault, not skipped.
    Decode(DecodeError),
    /// A decoded reply carries an id with no issue instant on record: a
    /// bookkeeping invariant between sender and receiver was violated.
    MissingTiming(u16),
    /// A decoded reply carries an id with no (hop, probe index) on record.
    MissingIdentity(u16),
}

/// The unit handed to the printer for one correlated reply.
#[derive(Clone, Debug, PartialEq, Eq)]
pub struct Payload {
    pub id: u16,
    pub hop: u8,
    pub numprobe: usize,
    pub hostname: Option<String>,
    /// Responding IPv4 address, as its 32-bit numeric value.
    pub ip_addr: Option<u32>,
    /// Round-trip time in milliseconds.
    pub rtt: Option<u64>,
}

/// The closed set of message kinds the two channels carry.
#[derive(Clone, Debug, PartialEq, Eq)]
pub enum Message {
    TimeExceeded(Payload),
    EchoReply(Payload),
    DestinationUnreachable(Payload),
    /// Outbound shutdown signal to the printer.
    BreakPrinter,
    /// Inbound shutdown signal to the receiver.
    BreakReceiver,
}

/// Where the engine stands between two events.
#[derive(Clone, Copy, Debug, PartialEq, Eq, Structural)]
pub enum Mode {
    /// At the top of the loop: poll for shutdown, then read a datagram.
    Idle,
    /// A fresh reply needs its source resolved; a lookup is in flight.
    AwaitDns { kind: IcmpKind, id: u16, rtt: u64, addr: u32 },
    /// A classification was handed out for sending; its outcome is awaited.
    AwaitSend { kind: IcmpKind },
    /// The loop is over; no further event is accepted.
    Done,
}

/// One observation the surrounding program reports to the engine.
#[derive(Debug)]
pub enum Event {
    /// A `BreakReceiver` signal was present at the loop-top poll.
    Shutdown,
    /// One datagram was read from the socket: its bytes, the source
    /// address, and the read instant in milliseconds.
    Datagram { bytes: Vec<u8>, addr: u32, now: u64 },
    /// The reverse-DNS lookup the engine asked for succeeded.
    DnsResolved { host: String },
    /// The reverse-DNS lookup the engine asked for failed.
    DnsFailed,
    /// The message handed out with `Action::Send` was delivered.
    Sent,
    /// The outbound channel is closed: the printer has already exited.
    SendClosed,
}

/// What the surrounding program must do after a step.
#[derive(Clone, Debug, PartialEq, Eq)]
pub enum Action {
    /// Poll for shutdown, then read the next datagram.
    Recv,
    /// Perform one reverse-DNS lookup for this address.
    Lookup { addr: u32 },
    /// Send this classification to the printer, then report the outcome.
    Send { msg: Message },
    /// Send `BreakPrinter` to the printer; the run is over.
    SendBreakPrinter,
    /// Return one concurrency credit to the sender, then behave as `Recv`.
    AddCredit,
    /// The loop is over, gracefully.
    Stop,
    /// The loop is over with a fatal error.
    Fail { err: EngineError },
}

/// The engine's abstract state: its mode, the set of ids already delivered
/// to the printer, and the reverse-DNS cache.
pub struct EngineView {
    pub mode: Mode,
    pub recvd: Set<u16>,
    pub cache: Map<u32, String>,
}

pub open spec fn with_mode(s: EngineView, m: Mode) -> EngineView {
    EngineView { mode: m, recvd: s.recvd, cache: s.cache }
}

/// Round-trip time of a reply read at `now` to a probe issued at
/// `issued_at`, both in milliseconds of one monotonic clock.
pub open spec fn rtt_of(now: u64, issued_at: u64) -> u64 {
    if now >= issued_at {
        (now - issued_at) as u64
    } else {
        0
    }
}

/// Which events an engine in a given mode accepts.
pub open spec fn accepts(mode: Mode, ev: Event) -> bool {
    match ev {
        Event::Shutdown => mode is Idle,
        Event::Datagram { .. } => mode is Idle,
        Event::DnsResolved { .. } => mode is AwaitDns,
        Event::DnsFailed => mode is AwaitDns,
        Event::Sent => mode is AwaitSend,
        Event::SendClosed => mode is AwaitSend,
    }
}

/// Classification of one fresh, resolved reply: an unreported ICMP kind is
/// ignored; a missing identity record is fatal; otherwise the payload is
/// assembled from the identity table entry and handed out for sending.
pub open spec fn classify_step(
    s: EngineView,
    kind: IcmpKind,
    id: u16,
    rtt: u64,
    addr: u32,
    host: String,
    ids: Map<u16, ProbeInfo>,
) -> (EngineView, Action) {
    if kind is Other {
        (with_mode(s, Mode::Idle), Action::Recv)
    } else if !ids.contains_key(id) {
        (
            with_mode(s, Mode::Done),
            Action::Fail { err: EngineError::MissingIdentity(id) },
        )
    } else {
        let p = Payload {
            id,
            hop: ids[id].hop,
            numprobe: ids[id].numprobe,
            hostname: Some(host),
            ip_addr: Some(addr),
            rtt: Some(rtt),
        };
        let msg = if kind is TimeExceeded {
            Message::TimeExceeded(p)
        } else if kind is EchoReply {
            Message::EchoReply(p)
        } else {
            Message::DestinationUnreachable(p)
        };
        (with_mode(s, Mode::AwaitSend { kind }), Action::Send { msg })
    }
}

/// The whole transition relation of the engine: from a state and an event
/// (given the two shared tables) to the new state and the demanded action.
/// Meaningful when `accepts(s.mode, ev)` holds.
pub open spec fn next(
    s: EngineView,
    ev: Event,
    timing: Map<u16, u64>,
    ids: Map<u16, ProbeInfo>,
) -> (EngineView, Action) {
    match ev {
        Event::Shutdown => (with_mode(s, Mode::Done), Action::Stop),
        Event::Datagram { bytes, addr, now } => match spec_decode(bytes@) {
            Err(e) => (
                with_mode(s, Mode::Done),
                Action::Fail { err: EngineError::Decode(e) },
            ),
            Ok((kind, id)) => {
                if !timing.contains_key(id) {
                    (
                        with_mode(s, Mode::Done),
                        Action::Fail { err: EngineError::MissingTiming(id) },
                    )
                } else {
                    let rtt = rtt_of(now, timing[id]);
                    if s.recvd.contains(id) {
                        (s, Action::Recv)
                    } else {
                        let s1 = EngineView {
                            mode: s.mode,
                            recvd: s.recvd.insert(id),
                            cache: s.cache,
                        };
                        if s.cache.contains_key(addr) {
                            classify_step(s1, kind, id, rtt, addr, s.cache[addr], ids)
                        } else {
                            (
                                with_mode(s1, Mode::AwaitDns { kind, id, rtt, addr }),
                                Action::Lookup { addr },
                            )
                        }
                    }
                }
            },
        },
        Event::DnsResolved { host } => match s.mode {
            Mode::AwaitDns { kind, id, rtt, addr } => {
                let s1 = EngineView {
                    mode: s.mode,
                    recvd: s.recvd,
                    cache: s.cache.insert(addr, host),
                };
                classify_step(s1, kind, id, rtt, addr, host, ids)
            },
            _ => (s, Action::Recv),
        },
        Event::DnsFailed => (with_mode(s, Mode::Done), Action::SendBreakPrinter),
        Event::Sent => match s.mode {
            Mode::AwaitSend { kind } => (
                with_mode(s, Mode::Idle),
                if kind is TimeExceeded {
                    Action::AddCredit
                } else {
                    Action::Recv
                },
            ),
            _ => (s, Action::Recv),
        },
        Event::SendClosed => (with_mode(s, Mode::Done), Action::Stop),
    }
}

/// The receiver's correlation engine: the dedup set and DNS cache it owns,
/// and the mode it stands in between events.
pub struct Engine {
    mode: Mode,
    recvd: HashSet<u16>,
    cache: HashMap<u32, String>,
}

impl View for Engine {
    type V = EngineView;

    closed spec fn view(&self) -> EngineView {
        EngineView { mode: self.mode, recvd: self.recvd@, cache: self.cache@ }
    }
}

impl Engine {
    /// A fresh engine: idle, nothing delivered, nothing resolved.
    pub fn new() -> (e: Engine)
        ensures
            e@.mode == Mode::Idle,
            e@.recvd == Set::<u16>::empty(),
            e@.cache == Map::<u32, String>::empty(),
    {
        Engine { mode: Mode::Idle, recvd: HashSet::new(), cache: HashMap::new() }
    }

    /// Whether the engine has terminated its loop.
    pub fn finished(&self) -> (b: bool)
        ensures
            b == (self@.mode is Done),
    {
        self.mode == Mode::Done
    }

    /// The mode the engine stands in.
    pub fn mode(&self) -> (m: Mode)
        ensures
            m == self@.mode,
    {
        self.mode
    }

    fn classify(
        &mut self,
        kind: IcmpKind,
        id: u16,
        rtt: u64,
        addr: u32,
        host: String,
        ids: &IdTable,
    ) -> (r: Action)
        ensures
            ({
                let (s2, a) = classify_step(old(self)@, kind, id, rtt, addr, host, ids@);
                final(self)@ == s2 && r == a
            }),
    {
        if kind == IcmpKind::Other {
            self.mode = Mode::Idle;
            Action::Recv
        } else {
            match ids.lookup(id) {
                None => {
                    self.mode = Mode::Done;
                    Action::Fail { err: EngineError::MissingIdentity(id) }
                },
                Some(info) => {
                    let p = Payload {
                        id,
                        hop: info.hop,
                        numprobe: info.numprobe,
                        hostname: Some(host),
                        ip_addr: Some(addr),
                        rtt: Some(rtt),
                    };
                    let msg = if kind == IcmpKind::TimeExceeded {
                        Message::TimeExceeded(p)
                    } else if kind == IcmpKind::EchoReply {
                        Message::EchoReply(p)
                    } else {
                        Message::DestinationUnreachable(p)
                    };
                    self.mode = Mode::AwaitSend { kind };
                    Action::Send { msg }
                },
            }
        }
    }

    /// Advance the engine by one event; the result is exactly what the
    /// transition relation [`next`] demands of this state and event.
    pub fn step(&mut self, ev: Event, timing: &TimingTable, ids: &IdTable) -> (r: Action)
        requires
            accepts(old(self)@.mode, ev),
        ensures
            ({
                let (s2, a) = next(old(self)@, ev, timing@, ids@);
                final(self)@ == s2 && r == a
            }),
    {
        match ev {
            Event::Shutdown => {
                self.mode = Mode::Done;
                Action::Stop
            },
            Event::Datagram { bytes, addr, now } => {
                match decode_packet(bytes.as_slice()) {
                    Err(e) => {
                        self.mode = Mode::Done;
                        Action::Fail { err: EngineError::Decode(e) }
                    },
                    Ok((kind, id)) => {
                        match timing.lookup(id) {
                            None => {
                                self.mode = Mode::Done;
                                Action::Fail { err: EngineError::MissingTiming(id) }
                            },
                            Some(issued_at) => {
                                let rtt = if now >= issued_at {
                                    now - issued_at
                                } else {
                                    0
                                };
                                if self.recvd.contains(&id) {
                                    Action::Recv
                                } else {
                                    self.recvd.insert(id);
                                    let cached = match self.cache.get(&addr) {
                                        Some(h) => Some(h.clone()),
                                        None => None,
                                    };
                                    match cached {
                                        Some(host) => self.classify(kind, id, rtt, addr, host, ids),
                                        None => {
                                            self.mode = Mode::AwaitDns { kind, id, rtt, addr };
                                            Action::Lookup { addr }
                                        },
                                    }
                                }
                            },
                        }
                    },
                }
            },
            Event::DnsResolved { host } => {
                match self.mode {
                    Mode::AwaitDns { kind, id, rtt, addr } => {
                        self.cache.insert(addr, host.clone());
                        self.classify(kind, id, rtt, addr, host, ids)
                    },
                    _ => Action::Recv,
                }
            },
            Event::DnsFailed => {
                self.mode = Mode::Done;
                Action::SendBreakPrinter
            },
            Event::Sent => {
                match self.mode {
                    Mode::AwaitSend { kind } => {
                        self.mode = Mode::Idle;
                        if kind == IcmpKind::TimeExceeded {
                            Action::AddCredit
                        } else {
                            Action::Recv
                        }
                    },
                    _ => Action::Recv,
                }
            },
            Event::SendClosed => {
                self.mode = Mode::Done;
                Action::Stop
            },
        }
    }
}

} // verus!
