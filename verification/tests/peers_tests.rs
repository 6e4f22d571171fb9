//! Tests of the LAN device list.

use p2p_core::peers::{sorted, text_le, PeerTable, PEER_TIMEOUT_NANOS, PEER_TIMEOUT_SECS};

#[test]
fn text_order_matches_std() {
    let words = ["", "a", "A", "ab", "b", "Z", "zz", "é", "文件", "a b", "a(b)", "10.0.0.2", "9"];
    for a in words {
        for b in words {
            assert_eq!(text_le(a, b), a <= b, "{:?} <= {:?}", a, b);
        }
    }
}

#[test]
fn devices_are_listed_sorted_and_once_per_address() {
    let mut t = PeerTable::new();
    t.seen("192.168.1.9".to_string(), "Zeta".to_string(), 0);
    t.seen("192.168.1.7".to_string(), "Alpha".to_string(), 10);
    t.seen("192.168.1.8".to_string(), "Mid".to_string(), 20);
    // The same address again: renamed, not duplicated.
    t.seen("192.168.1.9".to_string(), "Beta".to_string(), 30);
    assert_eq!(t.len(), 3);
    assert_eq!(
        t.labels(),
        vec![
            "Alpha (192.168.1.7)".to_string(),
            "Beta (192.168.1.9)".to_string(),
            "Mid (192.168.1.8)".to_string(),
        ]
    );
}

#[test]
fn silent_devices_are_dropped() {
    assert_eq!(PEER_TIMEOUT_SECS, 12);
    assert_eq!(PEER_TIMEOUT_NANOS, PEER_TIMEOUT_SECS * 1_000_000_000);
    let mut t = PeerTable::new();
    t.seen("10.0.0.1".to_string(), "Old".to_string(), 0);
    t.seen("10.0.0.2".to_string(), "New".to_string(), 5_000_000_000);
    t.prune(PEER_TIMEOUT_NANOS - 1);
    assert_eq!(t.len(), 2);
    t.prune(PEER_TIMEOUT_NANOS);
    assert_eq!(t.labels(), vec!["New (10.0.0.2)".to_string()]);
    // A clock reading before the last answer keeps the device.
    t.prune(0);
    assert_eq!(t.len(), 1);
    t.prune(u64::MAX);
    assert_eq!(t.len(), 0);
    assert!(t.labels().is_empty());
}

#[test]
fn equal_labels_are_all_kept() {
    let mut t = PeerTable::new();
    t.seen("1.1.1.1".to_string(), "X".to_string(), 0);
    t.seen("1.1.1.2".to_string(), "X".to_string(), 0);
    let labels = t.labels();
    assert_eq!(labels, vec!["X (1.1.1.1)".to_string(), "X (1.1.1.2)".to_string()]);
}

#[test]
fn file_names_are_sorted() {
    let names: Vec<String> = ["b.txt", "A.txt", "a.txt", "b.txt", "文件.txt", ""]
        .iter()
        .map(|s| s.to_string())
        .collect();
    let mut expected = names.clone();
    expected.sort();
    assert_eq!(sorted(names), expected);
    assert!(sorted(Vec::new()).is_empty());
}
