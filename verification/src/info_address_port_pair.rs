//! The per-connection traffic record and its merge, projection and
//! comparison operations.

use core::cmp::Ordering;
use vstd::prelude::*;

use crate::order::{
    cmp_opt_i64, cmp_u128, reverse_ordering, spec_cmp_int, spec_cmp_opt_i64, SortBy, SortType,
};
use crate::timestamp::{spec_cmp_timestamp, Timestamp};
use crate::types::{DataRepr, Service, TrafficDirection};

verus! {

/// Number of distinct message subtypes a histogram distinguishes: one slot
/// per possible one-byte subtype code.
pub const SUBTYPE_SLOTS: usize = 256;

/// Additive histogram over a small closed set of message subtypes (ICMP
/// message types, ARP operations), one occurrence count per subtype code.
pub type SubtypeCounts = [usize; SUBTYPE_SLOTS];

/// The all-zero histogram.
pub fn empty_subtype_counts() -> (r: SubtypeCounts)
    ensures
        forall|i: int| 0 <= i < SUBTYPE_SLOTS ==> r@[i] == 0,
{
    vstd::array::array_fill_for_copy_types::<usize, SUBTYPE_SLOTS>(0)
}

/// Per-subtype sum of two histograms.
pub fn added_subtype_counts(a: &SubtypeCounts, b: &SubtypeCounts) -> (r: SubtypeCounts)
    requires
        forall|i: int| 0 <= i < SUBTYPE_SLOTS ==> a@[i] + b@[i] <= usize::MAX,
    ensures
        forall|i: int| 0 <= i < SUBTYPE_SLOTS ==> r@[i] == a@[i] + b@[i],
{
    let mut r = empty_subtype_counts();
    let mut i: usize = 0;
    while i < SUBTYPE_SLOTS
        invariant
            i <= SUBTYPE_SLOTS,
            forall|k: int| 0 <= k < SUBTYPE_SLOTS ==> a@[k] + b@[k] <= usize::MAX,
            forall|k: int| 0 <= k < i ==> r@[k] == a@[k] + b@[k],
        decreases SUBTYPE_SLOTS - i,
    {
        let v = a[i] + b[i];
        r[i] = v;
        i = i + 1;
    }
    r
}

/// Statistics about the traffic exchanged on one address:port pair, kept
/// current by merging in the deltas the capture collaborator produces.
#[derive(Clone, Copy, Debug)]
pub struct InfoAddressPortPair {
    /// Source link-layer address, as its 48-bit value, if observed.
    pub mac_address1: Option<u64>,
    /// Destination link-layer address, as its 48-bit value, if observed.
    pub mac_address2: Option<u64>,
    /// Amount of bytes transmitted between the pair.
    pub transmitted_bytes: u128,
    /// Amount of packets transmitted between the pair.
    pub transmitted_packets: u128,
    /// Timestamp of the first packet observed for this pair; set once.
    pub initial_timestamp: Timestamp,
    /// Timestamp of the most recent packet observed for this pair.
    pub final_timestamp: Timestamp,
    /// Upper-layer service carried by the pair; latest observation wins.
    pub service: Service,
    /// Whether the connection is incoming or outgoing; latest wins.
    pub traffic_direction: TrafficDirection,
    /// Counts of the ICMP message types exchanged (all zero if not ICMP).
    pub icmp_types: SubtypeCounts,
    /// Counts of the ARP operations exchanged (all zero if not ARP).
    pub arp_types: SubtypeCounts,
    /// Round-trip latency estimate in milliseconds; last known value wins.
    pub latency: Option<i64>,
    /// Timestamp and direction of the connection-opening packet; last known
    /// value wins.
    pub syn_info: Option<(Timestamp, TrafficDirection)>,
}

impl Default for InfoAddressPortPair {
    /// The empty record: zero counters, epoch timestamps, nothing observed.
    fn default() -> (r: Self)
        ensures
            r.mac_address1 is None,
            r.mac_address2 is None,
            r.transmitted_bytes == 0,
            r.transmitted_packets == 0,
            r.initial_timestamp == (Timestamp { secs: 0, usecs: 0 }),
            r.final_timestamp == (Timestamp { secs: 0, usecs: 0 }),
            r.service == Service::Unknown,
            r.traffic_direction == TrafficDirection::Outgoing,
            forall|i: int| 0 <= i < SUBTYPE_SLOTS ==> r.icmp_types@[i] == 0,
            forall|i: int| 0 <= i < SUBTYPE_SLOTS ==> r.arp_types@[i] == 0,
            r.latency is None,
            r.syn_info is None,
    {
        InfoAddressPortPair {
            mac_address1: None,
            mac_address2: None,
            transmitted_bytes: 0,
            transmitted_packets: 0,
            initial_timestamp: Timestamp { secs: 0, usecs: 0 },
            final_timestamp: Timestamp { secs: 0, usecs: 0 },
            service: Service::Unknown,
            traffic_direction: TrafficDirection::Outgoing,
            icmp_types: empty_subtype_counts(),
            arp_types: empty_subtype_counts(),
            latency: None,
            syn_info: None,
        }
    }
}

/// Projection of a record's counters into the requested unit.
pub open spec fn spec_transmitted_data(rec: InfoAddressPortPair, data_repr: DataRepr) -> int {
    match data_repr {
        DataRepr::Packets => rec.transmitted_packets as int,
        DataRepr::Bytes => rec.transmitted_bytes as int,
        DataRepr::Bits => rec.transmitted_bytes * 8,
    }
}

/// Three-way comparison of two records for the chosen sort key and
/// direction. `Ascending`/`Descending` compare the chosen numeric field (an
/// absent latency sorts below any present one); `Neutral` ignores the sort
/// key and orders by final timestamp descending, most recent first.
pub open spec fn spec_compare(
    a: InfoAddressPortPair,
    b: InfoAddressPortPair,
    sort_by: SortBy,
    sort_type: SortType,
) -> Ordering {
    match sort_type {
        SortType::Ascending => match sort_by {
            SortBy::Packets => spec_cmp_int(
                a.transmitted_packets as int,
                b.transmitted_packets as int,
            ),
            SortBy::Bytes => spec_cmp_int(a.transmitted_bytes as int, b.transmitted_bytes as int),
            SortBy::Latency => spec_cmp_opt_i64(a.latency, b.latency),
        },
        SortType::Descending => match sort_by {
            SortBy::Packets => spec_cmp_int(
                b.transmitted_packets as int,
                a.transmitted_packets as int,
            ),
            SortBy::Bytes => spec_cmp_int(b.transmitted_bytes as int, a.transmitted_bytes as int),
            SortBy::Latency => spec_cmp_opt_i64(b.latency, a.latency),
        },
        SortType::Neutral => spec_cmp_timestamp(b.final_timestamp, a.final_timestamp),
    }
}

impl InfoAddressPortPair {
    /// Merges the delta `other` into `self`: counters and histograms are
    /// added, `final_timestamp`, `service` and `traffic_direction` are
    /// replaced by the delta's values, `initial_timestamp` and the link-layer
    /// addresses are kept, and `latency`/`syn_info` are replaced only when
    /// the delta carries a present value.
    pub fn refresh(&mut self, other: &Self)
        requires
            old(self).transmitted_bytes + other.transmitted_bytes <= u128::MAX,
            old(self).transmitted_packets + other.transmitted_packets <= u128::MAX,
            forall|i: int|
                0 <= i < SUBTYPE_SLOTS ==> old(self).icmp_types@[i] + other.icmp_types@[i]
                    <= usize::MAX,
            forall|i: int|
                0 <= i < SUBTYPE_SLOTS ==> old(self).arp_types@[i] + other.arp_types@[i]
                    <= usize::MAX,
        ensures
            final(self).transmitted_bytes == old(self).transmitted_bytes
                + other.transmitted_bytes,
            final(self).transmitted_packets == old(self).transmitted_packets
                + other.transmitted_packets,
            final(self).initial_timestamp == old(self).initial_timestamp,
            final(self).final_timestamp == other.final_timestamp,
            final(self).service == other.service,
            final(self).traffic_direction == other.traffic_direction,
            forall|i: int|
                0 <= i < SUBTYPE_SLOTS ==> final(self).icmp_types@[i] == old(self).icmp_types@[i]
                    + other.icmp_types@[i],
            forall|i: int|
                0 <= i < SUBTYPE_SLOTS ==> final(self).arp_types@[i] == old(self).arp_types@[i]
                    + other.arp_types@[i],
            final(self).latency == if other.latency is Some {
                other.latency
            } else {
                old(self).latency
            },
            final(self).syn_info == if other.syn_info is Some {
                other.syn_info
            } else {
                old(self).syn_info
            },
            final(self).mac_address1 == old(self).mac_address1,
            final(self).mac_address2 == old(self).mac_address2,
    {
        self.transmitted_bytes = self.transmitted_bytes + other.transmitted_bytes;
        self.transmitted_packets = self.transmitted_packets + other.transmitted_packets;
        self.final_timestamp = other.final_timestamp;
        self.service = other.service;
        self.traffic_direction = other.traffic_direction;
        self.icmp_types = added_subtype_counts(&self.icmp_types, &other.icmp_types);
        self.arp_types = added_subtype_counts(&self.arp_types, &other.arp_types);
        if other.latency.is_some() {
            self.latency = other.latency;
        }
        if other.syn_info.is_some() {
            self.syn_info = other.syn_info;
        }
    }

    /// The record's volume in the requested unit: packet count, byte count,
    /// or bit count (byte count times eight).
    pub fn transmitted_data(&self, data_repr: DataRepr) -> (r: u128)
        requires
            data_repr == DataRepr::Bits ==> self.transmitted_bytes * 8 <= u128::MAX,
        ensures
            r as int == spec_transmitted_data(*self, data_repr),
    {
        match data_repr {
            DataRepr::Packets => self.transmitted_packets,
            DataRepr::Bytes => self.transmitted_bytes,
            DataRepr::Bits => self.transmitted_bytes * 8,
        }
    }

    /// Three-way comparison of two records, agreeing with [`spec_compare`].
    /// The unit of representation never influences the order of records, so
    /// `_data_repr` is unused; it is accepted so that every view is sorted
    /// through one parameter set.
    pub fn compare(
        &self,
        other: &Self,
        sort_by: SortBy,
        sort_type: SortType,
        _data_repr: DataRepr,
    ) -> (o: Ordering)
        ensures
            o == spec_compare(*self, *other, sort_by, sort_type),
    {
        match sort_type {
            SortType::Ascending => match sort_by {
                SortBy::Packets => cmp_u128(self.transmitted_packets, other.transmitted_packets),
                SortBy::Bytes => cmp_u128(self.transmitted_bytes, other.transmitted_bytes),
                SortBy::Latency => cmp_opt_i64(&self.latency, &other.latency),
            },
            SortType::Descending => match sort_by {
                SortBy::Packets => cmp_u128(other.transmitted_packets, self.transmitted_packets),
                SortBy::Bytes => cmp_u128(other.transmitted_bytes, self.transmitted_bytes),
                SortBy::Latency => cmp_opt_i64(&other.latency, &self.latency),
            },
            SortType::Neutral => other.final_timestamp.compare(&self.final_timestamp),
        }
    }
}

/// Projecting into bits always yields exactly eight times the projection
/// into bytes.
pub proof fn lemma_unit_projection(rec: InfoAddressPortPair)
    ensures
        spec_transmitted_data(rec, DataRepr::Bits) == spec_transmitted_data(rec, DataRepr::Bytes)
            * 8,
{
}

/// Swapping the operands of the record comparison mirrors its result, for
/// every sort key and direction: the comparator is a total order.
pub proof fn lemma_compare_antisymmetric(
    a: InfoAddressPortPair,
    b: InfoAddressPortPair,
    sort_by: SortBy,
    sort_type: SortType,
)
    ensures
        spec_compare(a, b, sort_by, sort_type) == reverse_ordering(
            spec_compare(b, a, sort_by, sort_type),
        ),
{
}

/// The not-`Greater` relation of the record comparison is transitive.
pub proof fn lemma_compare_le_transitive(
    a: InfoAddressPortPair,
    b: InfoAddressPortPair,
    c: InfoAddressPortPair,
    sort_by: SortBy,
    sort_type: SortType,
)
    requires
        spec_compare(a, b, sort_by, sort_type) != Ordering::Greater,
        spec_compare(b, c, sort_by, sort_type) != Ordering::Greater,
    ensures
        spec_compare(a, c, sort_by, sort_type) != Ordering::Greater,
{
}

/// Under `Neutral` ordering the requested sort key is ignored entirely: any
/// two sort keys produce the same comparison.
pub proof fn lemma_neutral_ignores_sort_key(
    a: InfoAddressPortPair,
    b: InfoAddressPortPair,
    key1: SortBy,
    key2: SortBy,
)
    ensures
        spec_compare(a, b, key1, SortType::Neutral) == spec_compare(a, b, key2, SortType::Neutral),
{
}

} // verus!
