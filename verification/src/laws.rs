//! The engine's guarantees, stated and proved against the transition
//! relation [`next`]: identity attribution, deduplication, credit
//! conservation, DNS-cache behaviour, and shutdown ordering.

use vstd::prelude::*;

use crate::engine::Action;
use crate::engine::EngineView;
use crate::engine::Event;
use crate::engine::Message;
use crate::engine::Mode;
use crate::engine::Payload;
use crate::engine::classify_step;
use crate::engine::next;
use crate::engine::rtt_of;
use crate::engine::with_mode;
use crate::packet::DecodeError;
use crate::packet::IcmpKind;
use crate::packet::spec_decode;
use crate::tables::ProbeInfo;

verus! {

/// The payload carried by a classification handed out for sending.
/// Meaningful only when the action is `Send` of a classification.
pub open spec fn sent_payload(a: Action) -> Payload {
    match a {
        Action::Send { msg } => match msg {
            Message::TimeExceeded(p) => p,
            Message::EchoReply(p) => p,
            Message::DestinationUnreachable(p) => p,
            _ => arbitrary(),
        },
        _ => arbitrary(),
    }
}

/// Internal invariant of a reachable engine state: a DNS lookup is only
/// ever in flight for an address the cache does not hold yet.
pub open spec fn inv(s: EngineView) -> bool {
    match s.mode {
        Mode::AwaitDns { addr, .. } => !s.cache.contains_key(addr),
        _ => true,
    }
}

/// Every step of the engine preserves the invariant [`inv`].
pub proof fn lemma_inv_preserved(
    s: EngineView,
    ev: Event,
    timing: Map<u16, u64>,
    ids: Map<u16, ProbeInfo>,
)
    requires
        inv(s),
    ensures
        inv(next(s, ev, timing, ids).0),
{
}

/// Identity round-trip: whenever a reply is classified for forwarding, its
/// payload attributes the reply to exactly the (hop, probe index) the
/// sender recorded for that id at issuance, together with the resolved
/// hostname, the source address and the computed round-trip time.
pub proof fn lemma_identity_round_trip(
    s: EngineView,
    kind: IcmpKind,
    id: u16,
    rtt: u64,
    addr: u32,
    host: String,
    ids: Map<u16, ProbeInfo>,
)
    requires
        !(kind is Other),
        ids.contains_key(id),
    ensures
        ({
            let (s2, a) = classify_step(s, kind, id, rtt, addr, host, ids);
            &&& a is Send
            &&& sent_payload(a) == (Payload {
                id,
                hop: ids[id].hop,
                numprobe: ids[id].numprobe,
                hostname: Some(host),
                ip_addr: Some(addr),
                rtt: Some(rtt),
            })
        }),
{
}

/// Identity round-trip at the datagram level: a fresh datagram from an
/// already-resolved address whose decode recovers id `i` is forwarded with
/// exactly the identity the sender recorded for `i`, the cached hostname,
/// the source address, and the round-trip time computed from the issue
/// instant the sender recorded for `i`.
pub proof fn lemma_datagram_identity_round_trip(
    s: EngineView,
    bytes: Vec<u8>,
    addr: u32,
    now: u64,
    timing: Map<u16, u64>,
    ids: Map<u16, ProbeInfo>,
    kind: IcmpKind,
    id: u16,
)
    requires
        spec_decode(bytes@) == Ok::<(IcmpKind, u16), DecodeError>((kind, id)),
        !(kind is Other),
        timing.contains_key(id),
        !s.recvd.contains(id),
        s.cache.contains_key(addr),
        ids.contains_key(id),
    ensures
        ({
            let (s2, a) = next(s, Event::Datagram { bytes, addr, now }, timing, ids);
            &&& a is Send
            &&& sent_payload(a) == (Payload {
                id,
                hop: ids[id].hop,
                numprobe: ids[id].numprobe,
                hostname: Some(s.cache[addr]),
                ip_addr: Some(addr),
                rtt: Some(rtt_of(now, timing[id])),
            })
        }),
{
}

/// Deduplication: a datagram whose id was already delivered is dropped —
/// the engine's state is left untouched and nothing is forwarded.
pub proof fn lemma_duplicate_dropped(
    s: EngineView,
    bytes: Vec<u8>,
    addr: u32,
    now: u64,
    timing: Map<u16, u64>,
    ids: Map<u16, ProbeInfo>,
    kind: IcmpKind,
    id: u16,
)
    requires
        spec_decode(bytes@) == Ok::<(IcmpKind, u16), DecodeError>((kind, id)),
        timing.contains_key(id),
        s.recvd.contains(id),
    ensures
        next(s, Event::Datagram { bytes, addr, now }, timing, ids) == (s, Action::Recv),
{
}

/// Deduplication idempotence: delivering the same id twice yields exactly
/// one forwarded payload — the first delivery is classified and sent, the
/// second is dropped without touching the engine's state.
pub proof fn lemma_dedup_idempotence(
    s: EngineView,
    bytes1: Vec<u8>,
    bytes2: Vec<u8>,
    addr1: u32,
    addr2: u32,
    now1: u64,
    now2: u64,
    timing: Map<u16, u64>,
    ids: Map<u16, ProbeInfo>,
    kind1: IcmpKind,
    kind2: IcmpKind,
    id: u16,
)
    requires
        s.mode is Idle,
        spec_decode(bytes1@) == Ok::<(IcmpKind, u16), DecodeError>((kind1, id)),
        spec_decode(bytes2@) == Ok::<(IcmpKind, u16), DecodeError>((kind2, id)),
        !(kind1 is Other),
        timing.contains_key(id),
        !s.recvd.contains(id),
        s.cache.contains_key(addr1),
        ids.contains_key(id),
    ensures
        ({
            let (s1, a1) = next(s, Event::Datagram { bytes: bytes1, addr: addr1, now: now1 }, timing, ids);
            let (s2, a2) = next(s1, Event::Sent, timing, ids);
            let (s3, a3) = next(s2, Event::Datagram { bytes: bytes2, addr: addr2, now: now2 }, timing, ids);
            &&& a1 is Send
            &&& sent_payload(a1).id == id
            &&& s3 == s2
            &&& a3 == Action::Recv
        }),
{
}

/// Credit conservation, forward direction: after a classification was
/// forwarded, one concurrency credit is returned exactly when that
/// classification was a Time-Exceeded; an Echo-Reply or a
/// Destination-Unreachable returns none.
pub proof fn lemma_credit_iff_time_exceeded(
    s: EngineView,
    timing: Map<u16, u64>,
    ids: Map<u16, ProbeInfo>,
    kind: IcmpKind,
)
    requires
        s.mode == (Mode::AwaitSend { kind }),
    ensures
        next(s, Event::Sent, timing, ids).1 == if kind is TimeExceeded {
            Action::AddCredit
        } else {
            Action::Recv
        },
{
}

/// Credit conservation, backward direction: a concurrency credit is only
/// ever returned right after a successfully forwarded Time-Exceeded
/// classification — no other state and no other event produces one.
pub proof fn lemma_credit_only_after_time_exceeded(
    s: EngineView,
    ev: Event,
    timing: Map<u16, u64>,
    ids: Map<u16, ProbeInfo>,
)
    ensures
        next(s, ev, timing, ids).1 is AddCredit ==> (ev is Sent && s.mode == (Mode::AwaitSend {
            kind: IcmpKind::TimeExceeded,
        })),
{
}

/// A reverse-DNS lookup is only ever requested for an address the cache
/// does not hold: replies from an already-resolved address never trigger
/// a second lookup.
pub proof fn lemma_lookup_only_on_cache_miss(
    s: EngineView,
    ev: Event,
    timing: Map<u16, u64>,
    ids: Map<u16, ProbeInfo>,
)
    ensures
        ({
            let (s2, a) = next(s, ev, timing, ids);
            a matches Action::Lookup { addr } ==> !s.cache.contains_key(addr)
        }),
{
}

/// A cache entry, once present, is never changed by any step: the hostname
/// returned by the one lookup for an address is reused unchanged for every
/// later reply from that address.
pub proof fn lemma_cache_entries_stable(
    s: EngineView,
    ev: Event,
    timing: Map<u16, u64>,
    ids: Map<u16, ProbeInfo>,
    addr: u32,
)
    requires
        inv(s),
        s.cache.contains_key(addr),
    ensures
        ({
            let (s2, a) = next(s, ev, timing, ids);
            s2.cache.contains_key(addr) && s2.cache[addr] == s.cache[addr]
        }),
{
}

/// DNS cache correctness for the hit path: a fresh reply from an
/// already-resolved address is classified with the cached hostname, and
/// the cache is left unchanged — no lookup happens.
pub proof fn lemma_cached_hostname_reused(
    s: EngineView,
    bytes: Vec<u8>,
    addr: u32,
    now: u64,
    timing: Map<u16, u64>,
    ids: Map<u16, ProbeInfo>,
    kind: IcmpKind,
    id: u16,
)
    requires
        spec_decode(bytes@) == Ok::<(IcmpKind, u16), DecodeError>((kind, id)),
        !(kind is Other),
        timing.contains_key(id),
        !s.recvd.contains(id),
        s.cache.contains_key(addr),
        ids.contains_key(id),
    ensures
        ({
            let (s2, a) = next(s, Event::Datagram { bytes, addr, now }, timing, ids);
            &&& a is Send
            &&& sent_payload(a).hostname == Some(s.cache[addr])
            &&& s2.cache == s.cache
        }),
{
}

/// DNS cache correctness for the miss path: a successful resolution is
/// recorded in the cache under the address that was being resolved, and
/// the classification handed out carries exactly that hostname.
pub proof fn lemma_resolution_fills_cache(
    s: EngineView,
    host: String,
    timing: Map<u16, u64>,
    ids: Map<u16, ProbeInfo>,
    kind: IcmpKind,
    id: u16,
    rtt: u64,
    addr: u32,
)
    requires
        s.mode == (Mode::AwaitDns { kind, id, rtt, addr }),
        !(kind is Other),
        ids.contains_key(id),
    ensures
        ({
            let (s2, a) = next(s, Event::DnsResolved { host }, timing, ids);
            &&& s2.cache == s.cache.insert(addr, host)
            &&& a is Send
            &&& sent_payload(a).hostname == Some(host)
        }),
{
}

/// Shutdown ordering: a `BreakReceiver` signal observed at the loop-top
/// poll terminates the loop at once — no datagram is read, nothing is
/// classified or forwarded, and the engine's tables are left as they were.
pub proof fn lemma_shutdown_immediate(
    s: EngineView,
    timing: Map<u16, u64>,
    ids: Map<u16, ProbeInfo>,
)
    ensures
        next(s, Event::Shutdown, timing, ids) == (with_mode(s, Mode::Done), Action::Stop),
{
}

} // verus!
