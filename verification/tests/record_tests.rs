use std::cmp::Ordering;

use traffic_report::info_address_port_pair::InfoAddressPortPair;
use traffic_report::order::{SortBy, SortType};
use traffic_report::timestamp::Timestamp;
use traffic_report::types::{DataRepr, Service, TrafficDirection};

#[test]
fn test_info_address_port_pair_data() {
    let mut pair1 = InfoAddressPortPair {
        transmitted_bytes: 1000,
        transmitted_packets: 10,
        final_timestamp: Timestamp::new(8, 1300),
        ..Default::default()
    };
    pair1.latency = Some(100);
    let mut pair2 = InfoAddressPortPair {
        transmitted_bytes: 1100,
        transmitted_packets: 8,
        final_timestamp: Timestamp::new(15, 0),
        ..Default::default()
    };
    pair2.latency = Some(200);

    assert_eq!(pair1.transmitted_data(DataRepr::Bytes), 1000);
    assert_eq!(pair1.transmitted_data(DataRepr::Packets), 10);
    assert_eq!(pair1.transmitted_data(DataRepr::Bits), 8000);

    assert_eq!(pair2.transmitted_data(DataRepr::Bytes), 1100);
    assert_eq!(pair2.transmitted_data(DataRepr::Packets), 8);
    assert_eq!(pair2.transmitted_data(DataRepr::Bits), 8800);

    // Sort by bytes
    assert_eq!(
        pair1.compare(&pair2, SortBy::Bytes, SortType::Ascending, DataRepr::Bytes),
        Ordering::Less
    );
    assert_eq!(
        pair1.compare(&pair2, SortBy::Bytes, SortType::Descending, DataRepr::Bytes),
        Ordering::Greater
    );
    assert_eq!(
        pair1.compare(&pair2, SortBy::Bytes, SortType::Neutral, DataRepr::Bytes),
        Ordering::Greater
    );

    // Sort by packets
    assert_eq!(
        pair1.compare(
            &pair2,
            SortBy::Packets,
            SortType::Ascending,
            DataRepr::Packets
        ),
        Ordering::Greater
    );
    assert_eq!(
        pair1.compare(
            &pair2,
            SortBy::Packets,
            SortType::Descending,
            DataRepr::Packets
        ),
        Ordering::Less
    );
    assert_eq!(
        pair1.compare(
            &pair2,
            SortBy::Packets,
            SortType::Neutral,
            DataRepr::Packets
        ),
        Ordering::Greater
    );

    // Sort by latency
    assert_eq!(
        pair1.compare(
            &pair2,
            SortBy::Latency,
            SortType::Ascending,
            DataRepr::Bytes
        ),
        Ordering::Less
    );
    assert_eq!(
        pair1.compare(
            &pair2,
            SortBy::Latency,
            SortType::Descending,
            DataRepr::Bytes
        ),
        Ordering::Greater
    );
    assert_eq!(
        pair1.compare(&pair2, SortBy::Latency, SortType::Neutral, DataRepr::Bytes),
        Ordering::Greater
    );
}

#[test]
fn test_refresh_merges_additively() {
    let mut base = InfoAddressPortPair {
        transmitted_bytes: 1000,
        transmitted_packets: 10,
        initial_timestamp: Timestamp::new(5, 0),
        final_timestamp: Timestamp::new(8, 0),
        service: Service::Known(443),
        traffic_direction: TrafficDirection::Outgoing,
        ..Default::default()
    };
    base.icmp_types[3] = 2;
    base.arp_types[1] = 7;

    let mut delta = InfoAddressPortPair {
        transmitted_bytes: 100,
        transmitted_packets: 5,
        initial_timestamp: Timestamp::new(9, 0),
        final_timestamp: Timestamp::new(9, 250),
        service: Service::Known(80),
        traffic_direction: TrafficDirection::Incoming,
        ..Default::default()
    };
    delta.icmp_types[3] = 1;
    delta.icmp_types[8] = 4;

    base.refresh(&delta);

    assert_eq!(base.transmitted_bytes, 1100);
    assert_eq!(base.transmitted_packets, 15);
    assert_eq!(base.initial_timestamp, Timestamp::new(5, 0));
    assert_eq!(base.final_timestamp, Timestamp::new(9, 250));
    assert_eq!(base.service, Service::Known(80));
    assert_eq!(base.traffic_direction, TrafficDirection::Incoming);
    assert_eq!(base.icmp_types[3], 3);
    assert_eq!(base.icmp_types[8], 4);
    assert_eq!(base.icmp_types[0], 0);
    assert_eq!(base.arp_types[1], 7);
}

#[test]
fn test_refresh_keeps_known_optionals() {
    let mut base = InfoAddressPortPair {
        latency: Some(40),
        syn_info: Some((Timestamp::new(2, 0), TrafficDirection::Outgoing)),
        ..Default::default()
    };
    let absent = InfoAddressPortPair::default();
    base.refresh(&absent);
    assert_eq!(base.latency, Some(40));
    assert_eq!(
        base.syn_info,
        Some((Timestamp::new(2, 0), TrafficDirection::Outgoing))
    );

    let present = InfoAddressPortPair {
        latency: Some(90),
        syn_info: Some((Timestamp::new(3, 1), TrafficDirection::Incoming)),
        ..Default::default()
    };
    base.refresh(&present);
    assert_eq!(base.latency, Some(90));
    assert_eq!(
        base.syn_info,
        Some((Timestamp::new(3, 1), TrafficDirection::Incoming))
    );
}

#[test]
fn test_default_record_is_empty() {
    let rec = InfoAddressPortPair::default();
    assert_eq!(rec.transmitted_bytes, 0);
    assert_eq!(rec.transmitted_packets, 0);
    assert_eq!(rec.mac_address1, None);
    assert_eq!(rec.mac_address2, None);
    assert_eq!(rec.latency, None);
    assert_eq!(rec.syn_info, None);
    assert_eq!(rec.service, Service::Unknown);
    assert_eq!(rec.traffic_direction, TrafficDirection::Outgoing);
    assert!(rec.icmp_types.iter().all(|c| *c == 0));
    assert!(rec.arp_types.iter().all(|c| *c == 0));
    assert_eq!(rec.transmitted_data(DataRepr::Bits), 0);
}

#[test]
fn test_neutral_ordering_ignores_sort_key() {
    let early = InfoAddressPortPair {
        transmitted_bytes: 9999,
        transmitted_packets: 1,
        final_timestamp: Timestamp::new(10, 0),
        latency: Some(5),
        ..Default::default()
    };
    let late = InfoAddressPortPair {
        transmitted_bytes: 1,
        transmitted_packets: 9999,
        final_timestamp: Timestamp::new(20, 0),
        ..Default::default()
    };
    let by_packets = early.compare(&late, SortBy::Packets, SortType::Neutral, DataRepr::Bytes);
    let by_bytes = early.compare(&late, SortBy::Bytes, SortType::Neutral, DataRepr::Bytes);
    let by_latency = early.compare(&late, SortBy::Latency, SortType::Neutral, DataRepr::Bytes);
    assert_eq!(by_packets, Ordering::Greater);
    assert_eq!(by_packets, by_bytes);
    assert_eq!(by_packets, by_latency);
}

#[test]
fn test_latency_absent_sorts_first() {
    let unknown = InfoAddressPortPair::default();
    let known = InfoAddressPortPair {
        latency: Some(-5),
        ..Default::default()
    };
    assert_eq!(
        unknown.compare(&known, SortBy::Latency, SortType::Ascending, DataRepr::Bytes),
        Ordering::Less
    );
    assert_eq!(
        unknown.compare(&known, SortBy::Latency, SortType::Descending, DataRepr::Bytes),
        Ordering::Greater
    );
    assert_eq!(
        unknown.compare(&unknown, SortBy::Latency, SortType::Ascending, DataRepr::Bytes),
        Ordering::Equal
    );
}

#[test]
fn test_compare_antisymmetric_on_samples() {
    let a = InfoAddressPortPair {
        transmitted_bytes: 10,
        transmitted_packets: 4,
        latency: Some(7),
        final_timestamp: Timestamp::new(3, 9),
        ..Default::default()
    };
    let b = InfoAddressPortPair {
        transmitted_bytes: 11,
        transmitted_packets: 4,
        final_timestamp: Timestamp::new(3, 9),
        ..Default::default()
    };
    for sort_by in [SortBy::Packets, SortBy::Bytes, SortBy::Latency] {
        for sort_type in [SortType::Ascending, SortType::Descending, SortType::Neutral] {
            let fwd = a.compare(&b, sort_by, sort_type, DataRepr::Bytes);
            let bwd = b.compare(&a, sort_by, sort_type, DataRepr::Bytes);
            assert_eq!(fwd, bwd.reverse());
        }
    }
}
