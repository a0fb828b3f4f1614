//! Aggregate traffic records: cumulative counters per host and per service,
//! tracked separately for incoming and outgoing traffic.

use core::cmp::Ordering;
use vstd::prelude::*;

use crate::order::{cmp_sums, spec_cmp_int, ReportSortable, SortParams, SortType};
use crate::types::{DataRepr, Host, Service, TrafficDirection};

verus! {

/// Cumulative packet and byte counts of one host or one service, split by
/// traffic direction. Created on first observation, updated additively,
/// never individually deleted.
#[derive(Clone, Copy, Debug)]
pub struct DataInfo {
    /// Amount of incoming packets.
    pub incoming_packets: u128,
    /// Amount of outgoing packets.
    pub outgoing_packets: u128,
    /// Amount of incoming bytes.
    pub incoming_bytes: u128,
    /// Amount of outgoing bytes.
    pub outgoing_bytes: u128,
}

impl Default for DataInfo {
    /// The empty aggregate: all counters zero.
    fn default() -> (r: Self)
        ensures
            r.incoming_packets == 0,
            r.outgoing_packets == 0,
            r.incoming_bytes == 0,
            r.outgoing_bytes == 0,
    {
        DataInfo { incoming_packets: 0, outgoing_packets: 0, incoming_bytes: 0, outgoing_bytes: 0 }
    }
}

/// Total packets over both directions.
pub open spec fn spec_tot_packets(d: DataInfo) -> int {
    d.incoming_packets + d.outgoing_packets
}

/// Total bytes over both directions.
pub open spec fn spec_tot_bytes(d: DataInfo) -> int {
    d.incoming_bytes + d.outgoing_bytes
}

/// Total volume of an aggregate in the requested unit.
pub open spec fn spec_agg_volume(d: DataInfo, data_repr: DataRepr) -> int {
    match data_repr {
        DataRepr::Packets => spec_tot_packets(d),
        DataRepr::Bytes => spec_tot_bytes(d),
        DataRepr::Bits => spec_tot_bytes(d) * 8,
    }
}

/// Three-way comparison of two aggregates. `Ascending`/`Descending` compare
/// the total volume in the requested unit. Aggregates carry no timestamp, so
/// `Neutral` falls back to total volume, largest first: the busiest hosts
/// and services are the natural top of a summary view.
pub open spec fn spec_cmp_data_info(
    a: DataInfo,
    b: DataInfo,
    sort_type: SortType,
    data_repr: DataRepr,
) -> Ordering {
    match sort_type {
        SortType::Ascending => spec_cmp_int(spec_agg_volume(a, data_repr), spec_agg_volume(
            b,
            data_repr,
        )),
        SortType::Descending => spec_cmp_int(spec_agg_volume(b, data_repr), spec_agg_volume(
            a,
            data_repr,
        )),
        SortType::Neutral => spec_cmp_int(spec_agg_volume(b, data_repr), spec_agg_volume(
            a,
            data_repr,
        )),
    }
}

impl DataInfo {
    /// Folds one record's packet and byte counts into the side of the
    /// aggregate given by the record's traffic direction.
    pub fn add_packets(&mut self, packets: u128, bytes: u128, direction: TrafficDirection)
        requires
            direction == TrafficDirection::Incoming ==> {
                &&& old(self).incoming_packets + packets <= u128::MAX
                &&& old(self).incoming_bytes + bytes <= u128::MAX
            },
            direction == TrafficDirection::Outgoing ==> {
                &&& old(self).outgoing_packets + packets <= u128::MAX
                &&& old(self).outgoing_bytes + bytes <= u128::MAX
            },
        ensures
            direction == TrafficDirection::Incoming ==> *final(self) == (DataInfo {
                incoming_packets: (old(self).incoming_packets + packets) as u128,
                incoming_bytes: (old(self).incoming_bytes + bytes) as u128,
                ..*old(self)
            }),
            direction == TrafficDirection::Outgoing ==> *final(self) == (DataInfo {
                outgoing_packets: (old(self).outgoing_packets + packets) as u128,
                outgoing_bytes: (old(self).outgoing_bytes + bytes) as u128,
                ..*old(self)
            }),
    {
        match direction {
            TrafficDirection::Incoming => {
                self.incoming_packets = self.incoming_packets + packets;
                self.incoming_bytes = self.incoming_bytes + bytes;
            },
            TrafficDirection::Outgoing => {
                self.outgoing_packets = self.outgoing_packets + packets;
                self.outgoing_bytes = self.outgoing_bytes + bytes;
            },
        }
    }

    /// The aggregate's total volume in the requested unit: packet count,
    /// byte count, or bit count (byte count times eight).
    pub fn transmitted_data(&self, data_repr: DataRepr) -> (r: u128)
        requires
            spec_tot_packets(*self) <= u128::MAX,
            spec_tot_bytes(*self) <= u128::MAX,
            data_repr == DataRepr::Bits ==> spec_tot_bytes(*self) * 8 <= u128::MAX,
        ensures
            r as int == spec_agg_volume(*self, data_repr),
    {
        match data_repr {
            DataRepr::Packets => self.incoming_packets + self.outgoing_packets,
            DataRepr::Bytes => self.incoming_bytes + self.outgoing_bytes,
            DataRepr::Bits => (self.incoming_bytes + self.outgoing_bytes) * 8,
        }
    }

    /// Three-way comparison agreeing with [`spec_cmp_data_info`]. Totals are
    /// compared without ever being materialized, so no counter magnitude is
    /// excluded.
    pub fn compare(&self, other: &Self, sort_type: SortType, data_repr: DataRepr) -> (o: Ordering)
        ensures
            o == spec_cmp_data_info(*self, *other, sort_type, data_repr),
    {
        let (mine_a, mine_b, theirs_a, theirs_b) = match data_repr {
            DataRepr::Packets => (
                self.incoming_packets,
                self.outgoing_packets,
                other.incoming_packets,
                other.outgoing_packets,
            ),
            DataRepr::Bytes | DataRepr::Bits => (
                self.incoming_bytes,
                self.outgoing_bytes,
                other.incoming_bytes,
                other.outgoing_bytes,
            ),
        };
        match sort_type {
            SortType::Ascending => cmp_sums(mine_a, mine_b, theirs_a, theirs_b),
            SortType::Descending => cmp_sums(theirs_a, theirs_b, mine_a, mine_b),
            SortType::Neutral => cmp_sums(theirs_a, theirs_b, mine_a, mine_b),
        }
    }
}

/// Aggregate record of one host, together with the flags the resolution
/// collaborator supplies for it.
#[derive(Clone, Copy, Debug)]
pub struct DataInfoHost {
    /// Cumulative counters of the host.
    pub data_info: DataInfo,
    /// Whether the user marked this host for priority display.
    pub is_favorite: bool,
}

impl Default for DataInfoHost {
    /// The empty host aggregate: all counters zero, not a favorite.
    fn default() -> (r: Self)
        ensures
            r.data_info.incoming_packets == 0,
            r.data_info.outgoing_packets == 0,
            r.data_info.incoming_bytes == 0,
            r.data_info.outgoing_bytes == 0,
            !r.is_favorite,
    {
        DataInfoHost { data_info: Default::default(), is_favorite: false }
    }
}

impl ReportSortable for (Host, DataInfoHost) {
    /// Host table entries order by their cumulative counters alone.
    open spec fn cmp_spec(self, other: Self, p: SortParams) -> Ordering {
        spec_cmp_data_info(self.1.data_info, other.1.data_info, p.sort_type, p.data_repr)
    }

    fn cmp_entry(&self, other: &Self, p: SortParams) -> (o: Ordering)
        ensures
            o == self.cmp_spec(*other, p),
    {
        self.1.data_info.compare(&other.1.data_info, p.sort_type, p.data_repr)
    }

    fn dup(&self) -> (r: Self)
        ensures
            r == *self,
    {
        (self.0, self.1)
    }

    proof fn lemma_cmp_antisymmetric(a: Self, b: Self, p: SortParams) {
    }

    proof fn lemma_cmp_le_transitive(a: Self, b: Self, c: Self, p: SortParams) {
    }
}

impl ReportSortable for (Service, DataInfo) {
    /// Service table entries order by their cumulative counters alone.
    open spec fn cmp_spec(self, other: Self, p: SortParams) -> Ordering {
        spec_cmp_data_info(self.1, other.1, p.sort_type, p.data_repr)
    }

    fn cmp_entry(&self, other: &Self, p: SortParams) -> (o: Ordering)
        ensures
            o == self.cmp_spec(*other, p),
    {
        self.1.compare(&other.1, p.sort_type, p.data_repr)
    }

    fn dup(&self) -> (r: Self)
        ensures
            r == *self,
    {
        (self.0, self.1)
    }

    proof fn lemma_cmp_antisymmetric(a: Self, b: Self, p: SortParams) {
    }

    proof fn lemma_cmp_le_transitive(a: Self, b: Self, c: Self, p: SortParams) {
    }
}

} // verus!
