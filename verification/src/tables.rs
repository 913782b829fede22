//! The shared bookkeeping tables the probe sender fills at issuance and the
//! correlation engine reads on completion: issue instants keyed by probe id,
//! and the (hop, probe index) identity recorded for each id.

use vstd::prelude::*;
use std::collections::HashMap;

verus! {

broadcast use vstd::std_specs::hash::group_hash_axioms;

/// What the sender recorded about a probe at issuance: the hop the probe was
/// addressed to and which repetition for that hop it was.
#[derive(Clone, Copy, Debug, PartialEq, Eq, Structural)]
pub struct ProbeInfo {
    pub hop: u8,
    pub numprobe: usize,
}

/// Mapping `probe id -> issue instant` (milliseconds of some monotonic
/// clock). The sender records at issuance; the engine reads on completion to
/// compute the round-trip time.
pub struct TimingTable {
    map: HashMap<u16, u64>,
}

impl View for TimingTable {
    type V = Map<u16, u64>;

    closed spec fn view(&self) -> Map<u16, u64> {
        self.map@
    }
}

impl TimingTable {
    pub fn new() -> (t: TimingTable)
        ensures
            t@ == Map::<u16, u64>::empty(),
    {
        TimingTable { map: HashMap::new() }
    }

    /// Record the issue instant of a probe; a later record for the same id
    /// replaces the earlier one.
    pub fn record(&mut self, id: u16, issued_at: u64)
        ensures
            final(self)@ == old(self)@.insert(id, issued_at),
    {
        self.map.insert(id, issued_at);
    }

    /// The issue instant recorded for `id`, if any.
    pub fn lookup(&self, id: u16) -> (r: Option<u64>)
        ensures
            r == if self@.contains_key(id) {
                Some(self@[id])
            } else {
                None::<u64>
            },
    {
        match self.map.get(&id) {
            Some(t) => Some(*t),
            None => None,
        }
    }

    /// Remove and return the issue instant recorded for `id`: retirement of
    /// a probe's timing entry once it has been consumed.
    pub fn take(&mut self, id: u16) -> (r: Option<u64>)
        ensures
            final(self)@ == old(self)@.remove(id),
            r == if old(self)@.contains_key(id) {
                Some(old(self)@[id])
            } else {
                None::<u64>
            },
    {
        self.map.remove(&id)
    }
}

/// Mapping `probe id -> (hop, probe index)`. The sender records at issuance;
/// the engine reads it to attribute an anonymous wire reply back to the hop
/// and repetition it answers.
pub struct IdTable {
    map: HashMap<u16, ProbeInfo>,
}

impl View for IdTable {
    type V = Map<u16, ProbeInfo>;

    closed spec fn view(&self) -> Map<u16, ProbeInfo> {
        self.map@
    }
}

impl IdTable {
    pub fn new() -> (t: IdTable)
        ensures
            t@ == Map::<u16, ProbeInfo>::empty(),
    {
        IdTable { map: HashMap::new() }
    }

    /// Record which hop and repetition a probe id stands for; a later record
    /// for the same id replaces the earlier one.
    pub fn record(&mut self, id: u16, info: ProbeInfo)
        ensures
            final(self)@ == old(self)@.insert(id, info),
    {
        self.map.insert(id, info);
    }

    /// The identity recorded for `id`, if any.
    pub fn lookup(&self, id: u16) -> (r: Option<ProbeInfo>)
        ensures
            r == if self@.contains_key(id) {
                Some(self@[id])
            } else {
                None::<ProbeInfo>
            },
    {
        match self.map.get(&id) {
            Some(info) => Some(*info),
            None => None,
        }
    }
}

} // verus!
