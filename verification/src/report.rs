//! The query engine: filtered, annotated, sorted and paginated connection
//! reports, and capped sorted snapshots of the host and service tables.

use core::cmp::Ordering;
use vstd::prelude::*;

use crate::data_info::{DataInfo, DataInfoHost};
use crate::info_address_port_pair::{
    lemma_compare_antisymmetric, lemma_compare_le_transitive, spec_compare, InfoAddressPortPair,
};
use crate::order::{
    lemma_sort_by_contains, sort_entries, spec_sort_by, ReportSortable, SortBy, SortParams,
    SortType,
};
use crate::search::{
    get_address_to_lookup, in_blacklist, is_favorite_host, lookup_host, spec_address_to_lookup,
    spec_in_blacklist, spec_is_favorite, spec_lookup_host, SearchMatcher,
};
use crate::types::{Address, AddressPortPair, DataRepr, Host, Service, TrafficDirection};

verus! {

/// Number of connection entries on one report page.
pub const PAGE_ENTRIES: usize = 20;

/// Cap on the entries of a host or service summary view.
pub const MAX_TABLE_ENTRIES: usize = 30;

/// One row of the connection report: a connection key, a snapshot of its
/// traffic record, and the blacklist annotation. Built fresh per query,
/// never stored.
#[derive(Clone, Copy, Debug)]
pub struct ReportEntry {
    /// The connection's identifying address:port pair.
    pub key: AddressPortPair,
    /// Snapshot of the connection's traffic record.
    pub val: InfoAddressPortPair,
    /// Whether either endpoint address of the key is blacklisted.
    pub is_blacklisted: bool,
}

impl ReportSortable for ReportEntry {
    /// Report rows order by their traffic records.
    open spec fn cmp_spec(self, other: Self, p: SortParams) -> Ordering {
        spec_compare(self.val, other.val, p.sort_by, p.sort_type)
    }

    fn cmp_entry(&self, other: &Self, p: SortParams) -> (o: Ordering)
        ensures
            o == self.cmp_spec(*other, p),
    {
        self.val.compare(&other.val, p.sort_by, p.sort_type, p.data_repr)
    }

    fn dup(&self) -> (r: Self)
        ensures
            r == *self,
    {
        *self
    }

    proof fn lemma_cmp_antisymmetric(a: Self, b: Self, p: SortParams) {
        lemma_compare_antisymmetric(a.val, b.val, p.sort_by, p.sort_type);
    }

    proof fn lemma_cmp_le_transitive(a: Self, b: Self, c: Self, p: SortParams) {
        lemma_compare_le_transitive(a.val, b.val, c.val, p.sort_by, p.sort_type);
    }
}

/// The report row derived from one record: its key, the record itself, and
/// the blacklist flag, set exactly when either endpoint address is in the
/// blacklist set.
pub open spec fn spec_report_entry(
    key: AddressPortPair,
    rec: InfoAddressPortPair,
    blacklist: Seq<Address>,
) -> ReportEntry {
    ReportEntry {
        key,
        val: rec,
        is_blacklisted: spec_in_blacklist(blacklist, key.address1) || spec_in_blacklist(
            blacklist,
            key.address2,
        ),
    }
}

/// Whether one record satisfies the search: its remote endpoint is resolved
/// through the resolution index, the favorite flag is taken from the host
/// table, and the predicate is applied to the four of them.
pub open spec fn spec_entry_matches<M: SearchMatcher>(
    search: M,
    hosts: Seq<(Host, DataInfoHost)>,
    resolutions: Seq<(Address, Host)>,
    key: AddressPortPair,
    rec: InfoAddressPortPair,
) -> bool {
    let resolved = spec_lookup_host(
        resolutions,
        spec_address_to_lookup(key, rec.traffic_direction),
    );
    search.matches_spec(key, rec, resolved, spec_is_favorite(hosts, resolved))
}

/// The report rows of all records that satisfy the search, annotated, in
/// the order the record table holds them.
pub open spec fn spec_matched_entries<M: SearchMatcher>(
    records: Seq<(AddressPortPair, InfoAddressPortPair)>,
    search: M,
    hosts: Seq<(Host, DataInfoHost)>,
    resolutions: Seq<(Address, Host)>,
    blacklist: Seq<Address>,
) -> Seq<ReportEntry>
    decreases records.len(),
{
    if records.len() == 0 {
        Seq::empty()
    } else {
        let rest = spec_matched_entries(records.drop_last(), search, hosts, resolutions, blacklist);
        let key = records.last().0;
        let rec = records.last().1;
        if spec_entry_matches(search, hosts, resolutions, key, rec) {
            rest.push(spec_report_entry(key, rec, blacklist))
        } else {
            rest
        }
    }
}

/// Sum of the packet counters of all records in the table.
pub open spec fn spec_total_packets(records: Seq<(AddressPortPair, InfoAddressPortPair)>) -> int
    decreases records.len(),
{
    if records.len() == 0 {
        0
    } else {
        spec_total_packets(records.drop_last()) + records.last().1.transmitted_packets
    }
}

/// Sum of the byte counters of all records in the table.
pub open spec fn spec_total_bytes(records: Seq<(AddressPortPair, InfoAddressPortPair)>) -> int
    decreases records.len(),
{
    if records.len() == 0 {
        0
    } else {
        spec_total_bytes(records.drop_last()) + records.last().1.transmitted_bytes
    }
}

/// Sum of the packet counters of the report rows whose record flows in the
/// given direction.
pub open spec fn spec_agg_packets(s: Seq<ReportEntry>, direction: TrafficDirection) -> int
    decreases s.len(),
{
    if s.len() == 0 {
        0
    } else {
        spec_agg_packets(s.drop_last(), direction) + if s.last().val.traffic_direction
            == direction {
            s.last().val.transmitted_packets as int
        } else {
            0
        }
    }
}

/// Sum of the byte counters of the report rows whose record flows in the
/// given direction.
pub open spec fn spec_agg_bytes(s: Seq<ReportEntry>, direction: TrafficDirection) -> int
    decreases s.len(),
{
    if s.len() == 0 {
        0
    } else {
        spec_agg_bytes(s.drop_last(), direction) + if s.last().val.traffic_direction == direction {
            s.last().val.transmitted_bytes as int
        } else {
            0
        }
    }
}

/// Directional sums over the matched rows are bounded by the table-wide
/// totals, and never negative.
pub proof fn lemma_matched_agg_le_total<M: SearchMatcher>(
    records: Seq<(AddressPortPair, InfoAddressPortPair)>,
    search: M,
    hosts: Seq<(Host, DataInfoHost)>,
    resolutions: Seq<(Address, Host)>,
    blacklist: Seq<Address>,
)
    ensures
        ({
            let m = spec_matched_entries(records, search, hosts, resolutions, blacklist);
            &&& 0 <= spec_agg_packets(m, TrafficDirection::Incoming)
            &&& 0 <= spec_agg_packets(m, TrafficDirection::Outgoing)
            &&& 0 <= spec_agg_bytes(m, TrafficDirection::Incoming)
            &&& 0 <= spec_agg_bytes(m, TrafficDirection::Outgoing)
            &&& spec_agg_packets(m, TrafficDirection::Incoming) + spec_agg_packets(
                m,
                TrafficDirection::Outgoing,
            ) <= spec_total_packets(records)
            &&& spec_agg_bytes(m, TrafficDirection::Incoming) + spec_agg_bytes(
                m,
                TrafficDirection::Outgoing,
            ) <= spec_total_bytes(records)
        }),
    decreases records.len(),
{
    if records.len() == 0 {
    } else {
        lemma_matched_agg_le_total(records.drop_last(), search, hosts, resolutions, blacklist);
        let rest = spec_matched_entries(records.drop_last(), search, hosts, resolutions, blacklist);
        let key = records.last().0;
        let rec = records.last().1;
        if spec_entry_matches(search, hosts, resolutions, key, rec) {
            let e = spec_report_entry(key, rec, blacklist);
            assert(rest.push(e).drop_last() =~= rest);
        }
    }
}

/// Table-wide totals over a prefix of the record table never exceed the
/// totals over the whole table.
pub proof fn lemma_total_prefix_le(
    records: Seq<(AddressPortPair, InfoAddressPortPair)>,
    i: int,
)
    requires
        0 <= i <= records.len(),
    ensures
        spec_total_packets(records.subrange(0, i)) <= spec_total_packets(records),
        spec_total_bytes(records.subrange(0, i)) <= spec_total_bytes(records),
    decreases records.len() - i,
{
    if i == records.len() {
        assert(records.subrange(0, i) =~= records);
    } else {
        lemma_total_prefix_le(records, i + 1);
        assert(records.subrange(0, i + 1).drop_last() =~= records.subrange(0, i));
        assert(records.subrange(0, i + 1).last() == records[i]);
    }
}

/// First index of a report page, page numbers below one clamping to zero.
pub open spec fn spec_page_start(page_number: int) -> int {
    if page_number <= 1 {
        0
    } else {
        (page_number - 1) * (PAGE_ENTRIES as int)
    }
}

/// The slice of the sorted match set that one report page shows: rows
/// `[(page_number - 1) * 20, page_number * 20)`, clipped to the set; a page
/// beyond the available rows is empty.
pub open spec fn spec_query_page(s: Seq<ReportEntry>, page_number: int) -> Seq<ReportEntry> {
    let start = spec_page_start(page_number);
    let upper = if page_number * (PAGE_ENTRIES as int) <= s.len() {
        page_number * (PAGE_ENTRIES as int)
    } else {
        s.len() as int
    };
    if start < upper {
        s.subrange(start, upper)
    } else {
        Seq::empty()
    }
}

/// Returns the report page of the connections that satisfy the search, the
/// total number of matches, and the volume totals over all matches split by
/// traffic direction.
///
/// The record table, resolution index, host table and blacklist are borrowed
/// from the surrounding capture state, which must keep them consistent for
/// the duration of the call.
pub fn get_searched_entries<M: SearchMatcher>(
    records: &Vec<(AddressPortPair, InfoAddressPortPair)>,
    hosts: &Vec<(Host, DataInfoHost)>,
    resolutions: &Vec<(Address, Host)>,
    blacklist: &Vec<Address>,
    search: &M,
    sort_by: SortBy,
    sort_type: SortType,
    data_repr: DataRepr,
    page_number: usize,
) -> (r: (Vec<ReportEntry>, usize, DataInfo))
    requires
        page_number <= usize::MAX / PAGE_ENTRIES,
        spec_total_packets(records@) <= u128::MAX,
        spec_total_bytes(records@) <= u128::MAX,
    ensures
        ({
            let m = spec_matched_entries(records@, *search, hosts@, resolutions@, blacklist@);
            let p = SortParams { sort_by, sort_type, data_repr };
            &&& r.0@ == spec_query_page(spec_sort_by(m, p), page_number as int)
            &&& r.0@.len() <= PAGE_ENTRIES
            &&& r.1 == m.len()
            &&& r.2.incoming_packets as int == spec_agg_packets(m, TrafficDirection::Incoming)
            &&& r.2.outgoing_packets as int == spec_agg_packets(m, TrafficDirection::Outgoing)
            &&& r.2.incoming_bytes as int == spec_agg_bytes(m, TrafficDirection::Incoming)
            &&& r.2.outgoing_bytes as int == spec_agg_bytes(m, TrafficDirection::Outgoing)
        }),
{
    let mut agglomerate: DataInfo = Default::default();
    let mut all_results: Vec<ReportEntry> = Vec::new();
    let mut i: usize = 0;
    proof {
        assert(records@.subrange(0, 0) =~= Seq::<(AddressPortPair, InfoAddressPortPair)>::empty());
    }
    while i < records.len()
        invariant
            i <= records@.len(),
            spec_total_packets(records@) <= u128::MAX,
            spec_total_bytes(records@) <= u128::MAX,
            all_results@ == spec_matched_entries(
                records@.subrange(0, i as int),
                *search,
                hosts@,
                resolutions@,
                blacklist@,
            ),
            agglomerate.incoming_packets as int == spec_agg_packets(
                all_results@,
                TrafficDirection::Incoming,
            ),
            agglomerate.outgoing_packets as int == spec_agg_packets(
                all_results@,
                TrafficDirection::Outgoing,
            ),
            agglomerate.incoming_bytes as int == spec_agg_bytes(
                all_results@,
                TrafficDirection::Incoming,
            ),
            agglomerate.outgoing_bytes as int == spec_agg_bytes(
                all_results@,
                TrafficDirection::Outgoing,
            ),
        decreases records@.len() - i,
    {
        let key: AddressPortPair = (&records[i]).0;
        let val: InfoAddressPortPair = (&records[i]).1;
        let address_to_lookup = get_address_to_lookup(&key, val.traffic_direction);
        let resolved = lookup_host(resolutions, &address_to_lookup);
        let favorite = is_favorite_host(hosts, resolved);
        proof {
            assert(records@.subrange(0, i + 1).drop_last() =~= records@.subrange(0, i as int));
            assert(records@.subrange(0, i + 1).last() == records@[i as int]);
        }
        if search.match_entry(&key, &val, resolved, favorite) {
            proof {
                lemma_matched_agg_le_total(
                    records@.subrange(0, i + 1),
                    *search,
                    hosts@,
                    resolutions@,
                    blacklist@,
                );
                lemma_total_prefix_le(records@, i + 1);
                let e = spec_report_entry(key, val, blacklist@);
                assert(all_results@.push(e).drop_last() =~= all_results@);
            }
            agglomerate.add_packets(
                val.transmitted_packets,
                val.transmitted_bytes,
                val.traffic_direction,
            );
            let mut is_blacklisted = in_blacklist(blacklist, &key.address1);
            if !is_blacklisted {
                is_blacklisted = in_blacklist(blacklist, &key.address2);
            }
            all_results.push(ReportEntry { key, val, is_blacklisted });
        }
        i = i + 1;
    }
    proof {
        assert(records@.subrange(0, records@.len() as int) =~= records@);
    }
    let total = all_results.len();
    let sorted = sort_entries(&all_results, SortParams { sort_by, sort_type, data_repr });
    let start = if page_number >= 1 {
        (page_number - 1) * PAGE_ENTRIES
    } else {
        0
    };
    let upper = if page_number * PAGE_ENTRIES <= total {
        page_number * PAGE_ENTRIES
    } else {
        total
    };
    let mut page: Vec<ReportEntry> = Vec::new();
    if start < upper {
        let mut idx: usize = start;
        proof {
            assert(sorted@.subrange(start as int, start as int) =~= Seq::<ReportEntry>::empty());
        }
        while idx < upper
            invariant
                start <= idx <= upper,
                upper <= sorted@.len(),
                page@ == sorted@.subrange(start as int, idx as int),
            decreases upper - idx,
        {
            proof {
                assert(sorted@.subrange(start as int, idx + 1) =~= sorted@.subrange(
                    start as int,
                    idx as int,
                ).push(sorted@[idx as int]));
            }
            let entry: ReportEntry = (&sorted[idx]).dup();
            page.push(entry);
            idx = idx + 1;
        }
    }
    (page, total, agglomerate)
}

/// Sort parameters of the host and service views: their comparator reads
/// only the direction and the unit, so the sort key is pinned arbitrarily.
pub open spec fn spec_agg_sort_params(sort_type: SortType, data_repr: DataRepr) -> SortParams {
    SortParams { sort_by: SortBy::Packets, sort_type, data_repr }
}

/// Returns an owned snapshot of the host table, sorted by the aggregate
/// comparator and capped at [`MAX_TABLE_ENTRIES`] entries.
pub fn get_host_entries(
    hosts: &Vec<(Host, DataInfoHost)>,
    data_repr: DataRepr,
    sort_type: SortType,
) -> (r: Vec<(Host, DataInfoHost)>)
    ensures
        ({
            let sorted = spec_sort_by(hosts@, spec_agg_sort_params(sort_type, data_repr));
            &&& r@ == sorted.subrange(
                0,
                if sorted.len() <= MAX_TABLE_ENTRIES {
                    sorted.len() as int
                } else {
                    MAX_TABLE_ENTRIES as int
                },
            )
            &&& r@.len() <= MAX_TABLE_ENTRIES
        }),
{
    let mut owned: Vec<(Host, DataInfoHost)> = Vec::new();
    let mut i: usize = 0;
    while i < hosts.len()
        invariant
            i <= hosts@.len(),
            owned@ == hosts@.subrange(0, i as int),
        decreases hosts@.len() - i,
    {
        proof {
            assert(hosts@.subrange(0, i + 1) =~= hosts@.subrange(0, i as int).push(
                hosts@[i as int],
            ));
        }
        owned.push((&hosts[i]).dup());
        i = i + 1;
    }
    proof {
        assert(hosts@.subrange(0, hosts@.len() as int) =~= hosts@);
    }
    let mut sorted_vec = sort_entries(&owned, SortParams {
        sort_by: SortBy::Packets,
        sort_type,
        data_repr,
    });
    sorted_vec.truncate(MAX_TABLE_ENTRIES);
    proof {
        if spec_sort_by(hosts@, spec_agg_sort_params(sort_type, data_repr)).len()
            <= MAX_TABLE_ENTRIES {
            assert(sorted_vec@ =~= spec_sort_by(
                hosts@,
                spec_agg_sort_params(sort_type, data_repr),
            ).subrange(
                0,
                spec_sort_by(hosts@, spec_agg_sort_params(sort_type, data_repr)).len() as int,
            ));
        }
    }
    sorted_vec
}

/// The service table without its sentinel "not applicable" entry.
pub open spec fn spec_relevant_services(services: Seq<(Service, DataInfo)>) -> Seq<
    (Service, DataInfo),
>
    decreases services.len(),
{
    if services.len() == 0 {
        Seq::empty()
    } else {
        let rest = spec_relevant_services(services.drop_last());
        if services.last().0 == Service::NotApplicable {
            rest
        } else {
            rest.push(services.last())
        }
    }
}

/// Returns an owned snapshot of the service table, without the sentinel
/// "not applicable" service, sorted by the aggregate comparator and capped
/// at [`MAX_TABLE_ENTRIES`] entries.
pub fn get_service_entries(
    services: &Vec<(Service, DataInfo)>,
    data_repr: DataRepr,
    sort_type: SortType,
) -> (r: Vec<(Service, DataInfo)>)
    ensures
        ({
            let sorted = spec_sort_by(
                spec_relevant_services(services@),
                spec_agg_sort_params(sort_type, data_repr),
            );
            &&& r@ == sorted.subrange(
                0,
                if sorted.len() <= MAX_TABLE_ENTRIES {
                    sorted.len() as int
                } else {
                    MAX_TABLE_ENTRIES as int
                },
            )
            &&& r@.len() <= MAX_TABLE_ENTRIES
        }),
{
    let mut relevant: Vec<(Service, DataInfo)> = Vec::new();
    let mut i: usize = 0;
    proof {
        assert(services@.subrange(0, 0) =~= Seq::<(Service, DataInfo)>::empty());
    }
    while i < services.len()
        invariant
            i <= services@.len(),
            relevant@ == spec_relevant_services(services@.subrange(0, i as int)),
        decreases services@.len() - i,
    {
        proof {
            assert(services@.subrange(0, i + 1).drop_last() =~= services@.subrange(0, i as int));
            assert(services@.subrange(0, i + 1).last() == services@[i as int]);
        }
        let keep = match (&services[i]).0 {
            Service::NotApplicable => false,
            _ => true,
        };
        if keep {
            relevant.push((&services[i]).dup());
        }
        i = i + 1;
    }
    proof {
        assert(services@.subrange(0, services@.len() as int) =~= services@);
    }
    let mut sorted_vec = sort_entries(&relevant, SortParams {
        sort_by: SortBy::Packets,
        sort_type,
        data_repr,
    });
    sorted_vec.truncate(MAX_TABLE_ENTRIES);
    proof {
        let sorted = spec_sort_by(
            spec_relevant_services(services@),
            spec_agg_sort_params(sort_type, data_repr),
        );
        if sorted.len() <= MAX_TABLE_ENTRIES {
            assert(sorted_vec@ =~= sorted.subrange(0, sorted.len() as int));
        }
    }
    sorted_vec
}

/// Concatenation of report pages one through `k` of the sorted match set.
pub open spec fn spec_pages_concat(s: Seq<ReportEntry>, k: int) -> Seq<ReportEntry>
    decreases k,
{
    if k <= 0 {
        Seq::empty()
    } else {
        spec_pages_concat(s, k - 1) + spec_query_page(s, k)
    }
}

/// Pages one through `k` together hold exactly the first
/// `min(PAGE_ENTRIES * k, total)` rows of the sorted match set.
pub proof fn lemma_pages_concat_prefix(s: Seq<ReportEntry>, k: int)
    requires
        0 <= k,
    ensures
        spec_pages_concat(s, k) == s.subrange(
            0,
            if (PAGE_ENTRIES as int) * k <= s.len() {
                (PAGE_ENTRIES as int) * k
            } else {
                s.len() as int
            },
        ),
    decreases k,
{
    if k == 0 {
        assert(spec_pages_concat(s, 0) =~= s.subrange(0, 0));
    } else {
        lemma_pages_concat_prefix(s, k - 1);
        let prev = if (PAGE_ENTRIES as int) * (k - 1) <= s.len() {
            (PAGE_ENTRIES as int) * (k - 1)
        } else {
            s.len() as int
        };
        let here = if (PAGE_ENTRIES as int) * k <= s.len() {
            (PAGE_ENTRIES as int) * k
        } else {
            s.len() as int
        };
        let start = spec_page_start(k);
        if start < here {
            assert(s.subrange(0, prev) + s.subrange(start, here) =~= s.subrange(0, here));
        } else {
            assert(s.subrange(0, prev) + Seq::<ReportEntry>::empty() =~= s.subrange(0, here));
        }
    }
}

/// Pagination is complete: once `k` pages cover the whole match set,
/// concatenating pages one through `k` reproduces the sorted match set
/// exactly, each row once.
pub proof fn lemma_pagination_complete(s: Seq<ReportEntry>, k: int)
    requires
        0 <= k,
        s.len() <= (PAGE_ENTRIES as int) * k,
    ensures
        spec_pages_concat(s, k) == s,
{
    lemma_pages_concat_prefix(s, k);
    assert(s.subrange(0, s.len() as int) =~= s);
}

/// Pagination of the connection query is complete: with a fixed search and
/// sort, once `k` pages cover all matches, concatenating pages one through
/// `k` reproduces the whole sorted match set, each row exactly once.
pub proof fn lemma_query_pagination_complete<M: SearchMatcher>(
    records: Seq<(AddressPortPair, InfoAddressPortPair)>,
    search: M,
    hosts: Seq<(Host, DataInfoHost)>,
    resolutions: Seq<(Address, Host)>,
    blacklist: Seq<Address>,
    p: SortParams,
    k: int,
)
    requires
        0 <= k,
        spec_matched_entries(records, search, hosts, resolutions, blacklist).len() <= (
        PAGE_ENTRIES as int) * k,
    ensures
        ({
            let sorted = spec_sort_by(
                spec_matched_entries(records, search, hosts, resolutions, blacklist),
                p,
            );
            spec_pages_concat(sorted, k) == sorted
        }),
{
    let m = spec_matched_entries(records, search, hosts, resolutions, blacklist);
    crate::order::lemma_sort_by_multiset(m, p);
    lemma_pagination_complete(spec_sort_by(m, p), k);
}

/// Every row the filter produces is flagged blacklisted exactly when one of
/// its two endpoint addresses is in the blacklist set.
pub proof fn lemma_blacklist_flag<M: SearchMatcher>(
    records: Seq<(AddressPortPair, InfoAddressPortPair)>,
    search: M,
    hosts: Seq<(Host, DataInfoHost)>,
    resolutions: Seq<(Address, Host)>,
    blacklist: Seq<Address>,
    e: ReportEntry,
)
    requires
        spec_matched_entries(records, search, hosts, resolutions, blacklist).contains(e),
    ensures
        e.is_blacklisted <==> (spec_in_blacklist(blacklist, e.key.address1) || spec_in_blacklist(
            blacklist,
            e.key.address2,
        )),
    decreases records.len(),
{
    let m = spec_matched_entries(records, search, hosts, resolutions, blacklist);
    if records.len() > 0 {
        let rest = spec_matched_entries(records.drop_last(), search, hosts, resolutions, blacklist);
        let key = records.last().0;
        let rec = records.last().1;
        if spec_entry_matches(search, hosts, resolutions, key, rec) {
            let en = spec_report_entry(key, rec, blacklist);
            if e != en {
                let j = choose|j: int| 0 <= j < m.len() && m[j] == e;
                assert(rest[j] == e);
                assert(rest.contains(e));
                lemma_blacklist_flag(records.drop_last(), search, hosts, resolutions, blacklist, e);
            }
        } else {
            lemma_blacklist_flag(records.drop_last(), search, hosts, resolutions, blacklist, e);
        }
    }
}

/// Every row on any page of the connection report carries a correct
/// blacklist flag: set exactly when one of its two endpoint addresses is in
/// the blacklist set.
pub proof fn lemma_page_blacklist_flag<M: SearchMatcher>(
    records: Seq<(AddressPortPair, InfoAddressPortPair)>,
    search: M,
    hosts: Seq<(Host, DataInfoHost)>,
    resolutions: Seq<(Address, Host)>,
    blacklist: Seq<Address>,
    p: SortParams,
    page_number: int,
    e: ReportEntry,
)
    requires
        spec_query_page(
            spec_sort_by(
                spec_matched_entries(records, search, hosts, resolutions, blacklist),
                p,
            ),
            page_number,
        ).contains(e),
    ensures
        e.is_blacklisted <==> (spec_in_blacklist(blacklist, e.key.address1) || spec_in_blacklist(
            blacklist,
            e.key.address2,
        )),
{
    let m = spec_matched_entries(records, search, hosts, resolutions, blacklist);
    let sorted = spec_sort_by(m, p);
    let page = spec_query_page(sorted, page_number);
    let j = choose|j: int| 0 <= j < page.len() && page[j] == e;
    assert(sorted.contains(e)) by {
        assert(sorted[spec_page_start(page_number) + j] == e);
    }
    lemma_sort_by_contains(m, p, e);
    lemma_blacklist_flag(records, search, hosts, resolutions, blacklist, e);
}

} // verus!
