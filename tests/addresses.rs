use ip_to_file::address::{snapshot, IpAddress};

fn v4(a: u8, b: u8, c: u8, d: u8) -> u32 {
    ((a as u32) << 24) | ((b as u32) << 16) | ((c as u32) << 8) | (d as u32)
}

#[test]
fn v4_builds_the_address_value() {
    assert_eq!(IpAddress::v4(10, 0, 0, 5), IpAddress::V4(0x0A00_0005));
    assert_eq!(IpAddress::v4(255, 255, 255, 255), IpAddress::V4(u32::MAX));
}

#[test]
fn loopback_and_multicast_are_recognised() {
    assert!(IpAddress::v4(127, 0, 0, 1).is_loopback());
    assert!(IpAddress::v4(127, 200, 3, 4).is_loopback());
    assert!(!IpAddress::v4(128, 0, 0, 1).is_loopback());
    assert!(IpAddress::v4(224, 0, 0, 1).is_multicast());
    assert!(IpAddress::v4(239, 255, 255, 255).is_multicast());
    assert!(!IpAddress::v4(240, 0, 0, 1).is_multicast());
    assert!(!IpAddress::v4(223, 255, 255, 255).is_multicast());
    assert!(IpAddress::V6(1).is_loopback());
    assert!(IpAddress::V6(0xff02u128 << 112 | 1).is_multicast());
    assert!(!IpAddress::V6(0xfe80u128 << 112).is_multicast());
    assert!(IpAddress::v4(1, 2, 3, 4).is_ipv4());
    assert!(!IpAddress::V6(1).is_ipv4());
}

#[test]
fn snapshot_of_mixed_adapter_report() {
    let addrs = vec![
        IpAddress::v4(10, 0, 0, 5),
        IpAddress::v4(10, 0, 0, 5),
        IpAddress::v4(127, 0, 0, 1),
        IpAddress::V6(1),
        IpAddress::v4(224, 0, 0, 1),
    ];
    assert_eq!(snapshot(&addrs), vec![v4(10, 0, 0, 5)]);
}

#[test]
fn snapshot_drops_duplicates_across_adapters() {
    let addrs = vec![
        IpAddress::v4(192, 168, 1, 20),
        IpAddress::v4(10, 1, 1, 1),
        IpAddress::v4(192, 168, 1, 20),
        IpAddress::v4(10, 1, 1, 1),
        IpAddress::v4(172, 16, 0, 9),
        IpAddress::v4(10, 1, 1, 1),
    ];
    let s = snapshot(&addrs);
    assert_eq!(s, vec![v4(10, 1, 1, 1), v4(172, 16, 0, 9), v4(192, 168, 1, 20)]);
}

#[test]
fn snapshot_drops_loopback_multicast_and_ipv6() {
    let addrs = vec![
        IpAddress::v4(127, 0, 0, 1),
        IpAddress::v4(127, 1, 2, 3),
        IpAddress::v4(239, 1, 1, 1),
        IpAddress::V6(1),
        IpAddress::V6(0xfe80u128 << 112 | 0x1234),
        IpAddress::V6(0xff02u128 << 112 | 1),
    ];
    assert_eq!(snapshot(&addrs), Vec::<u32>::new());
}

#[test]
fn snapshot_of_nothing_is_empty() {
    assert_eq!(snapshot(&vec![]), Vec::<u32>::new());
}

#[test]
fn snapshot_sorts_ascending() {
    let addrs = vec![
        IpAddress::v4(255, 255, 255, 255),
        IpAddress::v4(0, 0, 0, 0),
        IpAddress::v4(100, 0, 0, 1),
    ];
    assert_eq!(snapshot(&addrs), vec![0, v4(100, 0, 0, 1), u32::MAX]);
}
