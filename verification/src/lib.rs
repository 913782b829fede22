//! Receiver-side correlation engine for a concurrent traceroute utility.
//!
//! The library decodes raw ICMP datagrams, matches each reply back to the
//! outstanding probe that caused it, computes round-trip latency, caches
//! reverse-DNS results, deduplicates repeated deliveries, and decides which
//! message (if any) is forwarded to the printer stage and when a concurrency
//! credit is returned to the probe sender. All I/O (socket reads, the DNS
//! call, channel sends) is performed by the surrounding program, which drives
//! the engine one event at a time.

pub mod engine;
pub mod laws;
pub mod packet;
pub mod tables;

pub use engine::Action;
pub use engine::Engine;
pub use engine::EngineError;
pub use engine::Event;
pub use engine::Message;
pub use engine::Mode;
pub use engine::Payload;
pub use packet::DecodeError;
pub use packet::IcmpKind;
pub use packet::decode_packet;
pub use tables::IdTable;
pub use tables::ProbeInfo;
pub use tables::TimingTable;
