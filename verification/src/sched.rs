//! The query scheduler: one diagnostic query per configured ECU, in a
//! fixed round-robin order, once per scheduling period.
//!
//! The scheduler owns only the order; it never waits for a response,
//! and the timing between queries belongs to the task that drives it.
//! A transmit failure costs the ECU its turn this round and the round
//! goes on.

use vstd::prelude::*;

use crate::ids::CanId;
use crate::ids::ECUAddresses;
use crate::uds::construct_uds_query;
use crate::uds::spec_uds_query;

verus! {

/// Battery management subcommand: battery status.
pub const QUERY_BMS: [u8; 2] = [0x01, 0x01];

/// Tire pressure subcommand: pressures and temperatures.
pub const QUERY_TPMS: [u8; 2] = [0xC0, 0x0B];

/// Climate control subcommand: cabin readings.
pub const QUERY_HVAC: [u8; 2] = [0x01, 0x00];

/// The cyclic transmit side: the fixed queries, and whose turn is next.
pub struct QuerySchedule {
    queries: Vec<(CanId, [u8; 8])>,
    next: usize,
}

impl QuerySchedule {
    /// The fixed round, in order: each entry is a request identifier
    /// and the 8-byte query payload sent to it.
    pub closed spec fn queries(&self) -> Seq<(CanId, Seq<u8>)> {
        self.queries@.map_values(|q: (CanId, [u8; 8])| (q.0, q.1@))
    }

    /// Whose turn the next query is.
    pub closed spec fn position(&self) -> int {
        self.next as int
    }

    pub closed spec fn wf(&self) -> bool {
        self.queries.len() > 0 && (self.next as int) < self.queries@.len()
    }

    /// The round of the three polled ECUs: the battery, tire and
    /// climate queries addressed to their request identifiers.
    pub fn standard_queries(tx: &ECUAddresses) -> (r: QuerySchedule)
        ensures
            r.wf(),
            r.position() == 0,
            r.queries().len() == 3,
            r.queries()[0] == (tx.bms, spec_uds_query(QUERY_BMS@)),
            r.queries()[1] == (tx.tpms, spec_uds_query(QUERY_TPMS@)),
            r.queries()[2] == (tx.hvac, spec_uds_query(QUERY_HVAC@)),
    {
        let mut queries: Vec<(CanId, [u8; 8])> = Vec::new();
        queries.push((tx.bms, construct_uds_query(&QUERY_BMS)));
        queries.push((tx.tpms, construct_uds_query(&QUERY_TPMS)));
        queries.push((tx.hvac, construct_uds_query(&QUERY_HVAC)));
        let r = QuerySchedule { queries, next: 0 };
        proof {
            assert(r.queries()[0] == (tx.bms, spec_uds_query(QUERY_BMS@)));
            assert(r.queries()[1] == (tx.tpms, spec_uds_query(QUERY_TPMS@)));
            assert(r.queries()[2] == (tx.hvac, spec_uds_query(QUERY_HVAC@)));
        }
        r
    }

    /// How many queries one round sends.
    pub fn round_len(&self) -> (r: usize)
        ensures
            r == self.queries().len(),
    {
        self.queries.len()
    }

    /// Hands out the query whose turn it is and moves the turn one
    /// ahead, cyclically; the round itself never changes.
    pub fn next_query(&mut self) -> (r: (CanId, [u8; 8]))
        requires
            old(self).wf(),
        ensures
            final(self).wf(),
            (r.0, r.1@) == old(self).queries()[old(self).position()],
            final(self).queries() == old(self).queries(),
            final(self).position() == (old(self).position() + 1) % (old(
                self,
            ).queries().len() as int),
    {
        let q = self.queries[self.next];
        self.next = (self.next + 1) % self.queries.len();
        q
    }
}

} // verus!
