use std::cmp::Ordering;

use traffic_report::data_info::{DataInfo, DataInfoHost};
use traffic_report::info_address_port_pair::InfoAddressPortPair;
use traffic_report::order::{sort_entries, SortBy, SortParams, SortType};
use traffic_report::report::{get_host_entries, get_searched_entries, get_service_entries, ReportEntry};
use traffic_report::search::{MatchAll, MatchDirection, MatchFavorites};
use traffic_report::timestamp::Timestamp;
use traffic_report::types::{Address, AddressPortPair, DataRepr, Host, Service, TrafficDirection};

fn addr(value: u128) -> Address {
    Address { value }
}

fn key(a1: u128, a2: u128) -> AddressPortPair {
    AddressPortPair {
        address1: addr(a1),
        port1: Some(443),
        address2: addr(a2),
        port2: Some(50000),
    }
}

fn record(bytes: u128, packets: u128, secs: i64) -> InfoAddressPortPair {
    InfoAddressPortPair {
        transmitted_bytes: bytes,
        transmitted_packets: packets,
        final_timestamp: Timestamp::new(secs, 0),
        ..Default::default()
    }
}

fn data_info(incoming_bytes: u128, outgoing_bytes: u128) -> DataInfo {
    DataInfo {
        incoming_packets: incoming_bytes / 100,
        outgoing_packets: outgoing_bytes / 100,
        incoming_bytes,
        outgoing_bytes,
    }
}

#[test]
fn test_sort_example_two_records() {
    // Records A (1000 bytes, 10 packets, latency 100, older) and
    // B (1100 bytes, 8 packets, latency 200, more recent).
    let mut rec_a = record(1000, 10, 1300);
    rec_a.latency = Some(100);
    let mut rec_b = record(1100, 8, 1500);
    rec_b.latency = Some(200);
    let entries = vec![
        ReportEntry { key: key(1, 2), val: rec_a, is_blacklisted: false },
        ReportEntry { key: key(3, 4), val: rec_b, is_blacklisted: false },
    ];

    let by_bytes_asc = sort_entries(
        &entries,
        SortParams { sort_by: SortBy::Bytes, sort_type: SortType::Ascending, data_repr: DataRepr::Bytes },
    );
    assert_eq!(by_bytes_asc[0].val.transmitted_bytes, 1000);
    assert_eq!(by_bytes_asc[1].val.transmitted_bytes, 1100);

    let by_packets_desc = sort_entries(
        &entries,
        SortParams { sort_by: SortBy::Packets, sort_type: SortType::Descending, data_repr: DataRepr::Bytes },
    );
    assert_eq!(by_packets_desc[0].val.transmitted_bytes, 1000);
    assert_eq!(by_packets_desc[1].val.transmitted_bytes, 1100);

    let neutral = sort_entries(
        &entries,
        SortParams { sort_by: SortBy::Packets, sort_type: SortType::Neutral, data_repr: DataRepr::Bytes },
    );
    assert_eq!(neutral[0].val.transmitted_bytes, 1100);
    assert_eq!(neutral[1].val.transmitted_bytes, 1000);
}

fn forty_five_records() -> Vec<(AddressPortPair, InfoAddressPortPair)> {
    (0..45u128).map(|i| (key(i, 1000 + i), record(100 + i, 10, i as i64))).collect()
}

#[test]
fn test_pagination_page_three_of_45() {
    let records = forty_five_records();
    let (page, total, _agg) = get_searched_entries(
        &records,
        &Vec::new(),
        &Vec::new(),
        &Vec::new(),
        &MatchAll,
        SortBy::Bytes,
        SortType::Ascending,
        DataRepr::Bytes,
        3,
    );
    assert_eq!(total, 45);
    assert_eq!(page.len(), 5);
    // Entries [40, 45) of the ascending-by-bytes order.
    for (offset, entry) in page.iter().enumerate() {
        assert_eq!(entry.val.transmitted_bytes, 100 + 40 + offset as u128);
    }
}

#[test]
fn test_pagination_concatenation_reproduces_all_matches() {
    let records = forty_five_records();
    let mut seen: Vec<u128> = Vec::new();
    for page_number in 1..=3usize {
        let (page, total, _) = get_searched_entries(
            &records,
            &Vec::new(),
            &Vec::new(),
            &Vec::new(),
            &MatchAll,
            SortBy::Bytes,
            SortType::Ascending,
            DataRepr::Bytes,
            page_number,
        );
        assert_eq!(total, 45);
        if page_number < 3 {
            assert_eq!(page.len(), 20);
        }
        seen.extend(page.iter().map(|e| e.val.transmitted_bytes));
    }
    let expected: Vec<u128> = (0..45u128).map(|i| 100 + i).collect();
    assert_eq!(seen, expected);
}

#[test]
fn test_page_beyond_matches_is_empty() {
    let records = forty_five_records();
    let (page, total, _) = get_searched_entries(
        &records,
        &Vec::new(),
        &Vec::new(),
        &Vec::new(),
        &MatchAll,
        SortBy::Bytes,
        SortType::Ascending,
        DataRepr::Bytes,
        4,
    );
    assert_eq!(total, 45);
    assert!(page.is_empty());
}

#[test]
fn test_empty_tables_give_empty_results() {
    let (page, total, agg) = get_searched_entries(
        &Vec::new(),
        &Vec::new(),
        &Vec::new(),
        &Vec::new(),
        &MatchAll,
        SortBy::Packets,
        SortType::Neutral,
        DataRepr::Bytes,
        1,
    );
    assert!(page.is_empty());
    assert_eq!(total, 0);
    assert_eq!(agg.incoming_packets, 0);
    assert_eq!(agg.outgoing_packets, 0);
    assert_eq!(get_host_entries(&Vec::new(), DataRepr::Bytes, SortType::Neutral).len(), 0);
    assert_eq!(get_service_entries(&Vec::new(), DataRepr::Bytes, SortType::Neutral).len(), 0);
}

#[test]
fn test_blacklist_flags_either_endpoint() {
    let records = vec![
        (key(1, 2), record(10, 1, 0)),
        (key(3, 4), record(20, 2, 1)),
        (key(5, 3), record(30, 3, 2)),
    ];
    let blacklist = vec![addr(3)];
    let (page, total, _) = get_searched_entries(
        &records,
        &Vec::new(),
        &Vec::new(),
        &blacklist,
        &MatchAll,
        SortBy::Bytes,
        SortType::Ascending,
        DataRepr::Bytes,
        1,
    );
    assert_eq!(total, 3);
    assert_eq!(page.len(), 3);
    assert!(!page[0].is_blacklisted);
    assert!(page[1].is_blacklisted);
    assert!(page[2].is_blacklisted);
}

#[test]
fn test_agglomerate_splits_by_direction() {
    let mut incoming = record(50, 5, 0);
    incoming.traffic_direction = TrafficDirection::Incoming;
    let mut outgoing = record(70, 7, 1);
    outgoing.traffic_direction = TrafficDirection::Outgoing;
    let records = vec![(key(1, 2), incoming), (key(3, 4), outgoing)];
    let (_, total, agg) = get_searched_entries(
        &records,
        &Vec::new(),
        &Vec::new(),
        &Vec::new(),
        &MatchAll,
        SortBy::Bytes,
        SortType::Ascending,
        DataRepr::Bytes,
        1,
    );
    assert_eq!(total, 2);
    assert_eq!(agg.incoming_packets, 5);
    assert_eq!(agg.incoming_bytes, 50);
    assert_eq!(agg.outgoing_packets, 7);
    assert_eq!(agg.outgoing_bytes, 70);
}

#[test]
fn test_favorites_matcher_uses_resolution_and_host_table() {
    // Outgoing traffic resolves through its destination address.
    let mut rec1 = record(10, 1, 0);
    rec1.traffic_direction = TrafficDirection::Outgoing;
    let mut rec2 = record(20, 2, 1);
    rec2.traffic_direction = TrafficDirection::Outgoing;
    let records = vec![(key(1, 100), rec1), (key(2, 200), rec2)];
    let resolutions = vec![
        (addr(100), Host { id: 1 }),
        (addr(200), Host { id: 2 }),
    ];
    let favorite = DataInfoHost { data_info: data_info(0, 0), is_favorite: true };
    let plain = DataInfoHost { data_info: data_info(0, 0), is_favorite: false };
    let hosts = vec![(Host { id: 1 }, plain), (Host { id: 2 }, favorite)];
    let (page, total, _) = get_searched_entries(
        &records,
        &hosts,
        &resolutions,
        &Vec::new(),
        &MatchFavorites,
        SortBy::Bytes,
        SortType::Ascending,
        DataRepr::Bytes,
        1,
    );
    assert_eq!(total, 1);
    assert_eq!(page.len(), 1);
    assert_eq!(page[0].val.transmitted_bytes, 20);
}

#[test]
fn test_unresolved_hosts_are_not_favorites() {
    let records = vec![(key(1, 100), record(10, 1, 0))];
    // No resolution entry for address 100, so the favorite flag stays false.
    let hosts = vec![(
        Host { id: 1 },
        DataInfoHost { data_info: data_info(0, 0), is_favorite: true },
    )];
    let (_, total, _) = get_searched_entries(
        &records,
        &hosts,
        &Vec::new(),
        &Vec::new(),
        &MatchFavorites,
        SortBy::Bytes,
        SortType::Ascending,
        DataRepr::Bytes,
        1,
    );
    assert_eq!(total, 0);
}

#[test]
fn test_direction_matcher_filters() {
    let mut incoming = record(50, 5, 0);
    incoming.traffic_direction = TrafficDirection::Incoming;
    let mut outgoing = record(70, 7, 1);
    outgoing.traffic_direction = TrafficDirection::Outgoing;
    let records = vec![(key(1, 2), incoming), (key(3, 4), outgoing)];
    let (page, total, agg) = get_searched_entries(
        &records,
        &Vec::new(),
        &Vec::new(),
        &Vec::new(),
        &MatchDirection { direction: TrafficDirection::Incoming },
        SortBy::Bytes,
        SortType::Ascending,
        DataRepr::Bytes,
        1,
    );
    assert_eq!(total, 1);
    assert_eq!(page[0].val.transmitted_bytes, 50);
    assert_eq!(agg.incoming_bytes, 50);
    assert_eq!(agg.outgoing_bytes, 0);
}

#[test]
fn test_host_entries_capped_at_30() {
    let hosts: Vec<(Host, DataInfoHost)> = (0..40u64)
        .map(|i| {
            (
                Host { id: i },
                DataInfoHost { data_info: data_info(i as u128 * 100, 0), is_favorite: false },
            )
        })
        .collect();
    let top = get_host_entries(&hosts, DataRepr::Bytes, SortType::Neutral);
    assert_eq!(top.len(), 30);
    // Neutral orders aggregates by total volume, largest first.
    assert_eq!(top[0].0.id, 39);
    assert_eq!(top[29].0.id, 10);
    let ascending = get_host_entries(&hosts, DataRepr::Bytes, SortType::Ascending);
    assert_eq!(ascending.len(), 30);
    assert_eq!(ascending[0].0.id, 0);
    assert_eq!(ascending[29].0.id, 29);
}

#[test]
fn test_service_entries_exclude_not_applicable() {
    let services = vec![
        (Service::Known(443), data_info(100, 100)),
        (Service::NotApplicable, data_info(90000, 90000)),
        (Service::Known(80), data_info(300, 300)),
        (Service::Unknown, data_info(10, 10)),
    ];
    let top = get_service_entries(&services, DataRepr::Bytes, SortType::Neutral);
    assert_eq!(top.len(), 3);
    assert_eq!(top[0].0, Service::Known(80));
    assert_eq!(top[1].0, Service::Known(443));
    assert_eq!(top[2].0, Service::Unknown);
    assert!(top.iter().all(|(s, _)| *s != Service::NotApplicable));
}

#[test]
fn test_service_entries_capped_at_30() {
    let services: Vec<(Service, DataInfo)> =
        (0..35u16).map(|i| (Service::Known(i), data_info(i as u128, 0))).collect();
    let top = get_service_entries(&services, DataRepr::Packets, SortType::Descending);
    assert_eq!(top.len(), 30);
}

#[test]
fn test_data_info_compare_handles_huge_counters() {
    let a = DataInfo {
        incoming_packets: u128::MAX,
        outgoing_packets: 5,
        incoming_bytes: u128::MAX,
        outgoing_bytes: 5,
    };
    let b = DataInfo {
        incoming_packets: 6,
        outgoing_packets: u128::MAX,
        incoming_bytes: 6,
        outgoing_bytes: u128::MAX,
    };
    // a totals u128::MAX + 5, b totals u128::MAX + 6.
    assert_eq!(a.compare(&b, SortType::Ascending, DataRepr::Bytes), Ordering::Less);
    assert_eq!(a.compare(&b, SortType::Descending, DataRepr::Packets), Ordering::Greater);
    assert_eq!(b.compare(&a, SortType::Ascending, DataRepr::Packets), Ordering::Greater);
    let c = DataInfo {
        incoming_packets: 3,
        outgoing_packets: 4,
        incoming_bytes: 30,
        outgoing_bytes: 40,
    };
    let d = DataInfo {
        incoming_packets: 4,
        outgoing_packets: 3,
        incoming_bytes: 40,
        outgoing_bytes: 30,
    };
    assert_eq!(c.compare(&d, SortType::Ascending, DataRepr::Bytes), Ordering::Equal);
    // Bit ordering coincides with byte ordering.
    assert_eq!(
        a.compare(&b, SortType::Ascending, DataRepr::Bits),
        a.compare(&b, SortType::Ascending, DataRepr::Bytes)
    );
}

#[test]
fn test_data_info_transmitted_data_units() {
    let d = data_info(100, 200);
    assert_eq!(d.transmitted_data(DataRepr::Bytes), 300);
    assert_eq!(d.transmitted_data(DataRepr::Packets), 3);
    assert_eq!(d.transmitted_data(DataRepr::Bits), 2400);
}
