//! Tests of pairing: codes, the attempt limit and the 24-hour table.

use p2p_core::config::AppConfig;
use p2p_core::pairing::{
    add_pairing, add_pairing_at, format_verification_code, generate_verification_code,
    get_all_pairings, get_all_pairings_at, is_paired, is_paired_at, remove_expired,
    remove_pairing, PairingGuard, PairingSlots, MAX_PAIRING_ATTEMPTS, PAIRING_EXPIRY_SECS,
};
use std::path::PathBuf;

#[test]
fn test_verification_code_format() {
    let code = generate_verification_code();
    assert_eq!(code.len(), 4);
    assert!(code.chars().all(|c| c.is_ascii_digit()));
}

#[test]
fn verification_codes_are_zero_padded() {
    assert_eq!(format_verification_code(0), "0000");
    assert_eq!(format_verification_code(7), "0007");
    assert_eq!(format_verification_code(1234), "1234");
    assert_eq!(format_verification_code(12345), "2345");
    assert_eq!(format_verification_code(u32::MAX), "7295");
}

#[test]
fn test_concurrency_limit() {
    let mut slots = PairingSlots::new();

    let g1 = PairingGuard::try_acquire(&mut slots);
    assert!(g1.is_some());

    let g2 = PairingGuard::try_acquire(&mut slots);
    assert!(g2.is_some());

    let g3 = PairingGuard::try_acquire(&mut slots);
    assert!(g3.is_some());

    // Should fail now
    let g4 = PairingGuard::try_acquire(&mut slots);
    assert!(g4.is_none());

    // Drop one
    g1.unwrap().release(&mut slots);

    // Should succeed now
    let g5 = PairingGuard::try_acquire(&mut slots);
    assert!(g5.is_some());

    // Should fail again
    let g6 = PairingGuard::try_acquire(&mut slots);
    assert!(g6.is_none());

    // Cleanup
    g2.unwrap().release(&mut slots);
    g3.unwrap().release(&mut slots);
    g5.unwrap().release(&mut slots);

    assert_eq!(slots.active(), 0);
    assert_eq!(MAX_PAIRING_ATTEMPTS, 3);
}

fn config() -> AppConfig {
    AppConfig::new(PathBuf::from("/tmp/downloads"))
}

#[test]
fn pairing_lasts_one_day_on_values() {
    let mut c = config();
    let t0 = 1_000_000;
    add_pairing_at(&mut c, "peer-a", "Alice", t0);
    assert!(is_paired_at(&c, "peer-a", t0));
    assert!(is_paired_at(&c, "peer-a", t0 + PAIRING_EXPIRY_SECS - 1));
    assert!(!is_paired_at(&c, "peer-a", t0 + PAIRING_EXPIRY_SECS));
    assert!(!is_paired_at(&c, "peer-b", t0));
    // A clock that went backwards still counts as fresh.
    assert!(is_paired_at(&c, "peer-a", t0 - 5));
    assert_eq!(c.download_path, PathBuf::from("/tmp/downloads"));
}

#[test]
fn adding_a_pairing_drops_expired_ones() {
    let mut c = config();
    add_pairing_at(&mut c, "old", "Old", 100);
    add_pairing_at(&mut c, "mid", "Mid", 100 + PAIRING_EXPIRY_SECS / 2);
    add_pairing_at(&mut c, "new", "New", 100 + PAIRING_EXPIRY_SECS);
    assert_eq!(
        get_all_pairings_at(&c, 100 + PAIRING_EXPIRY_SECS),
        vec![("mid".to_string(), "Mid".to_string()), ("new".to_string(), "New".to_string())]
    );
    assert_eq!(c.pairing.len(), 2);
    // Pairing again renews the timestamp and the name, keeping one entry.
    add_pairing_at(&mut c, "mid", "Mid 2", 200 + PAIRING_EXPIRY_SECS);
    assert_eq!(c.pairing.len(), 2);
    assert_eq!(
        get_all_pairings_at(&c, 200 + PAIRING_EXPIRY_SECS),
        vec![("mid".to_string(), "Mid 2".to_string()), ("new".to_string(), "New".to_string())]
    );
}

#[test]
fn expiry_and_removal() {
    let mut c = config();
    add_pairing_at(&mut c, "a", "A", 10);
    add_pairing_at(&mut c, "b", "B", 20);
    remove_expired(&mut c, 15 + PAIRING_EXPIRY_SECS);
    assert!(!c.pairing.contains_key("a"));
    assert!(c.pairing.contains_key("b"));
    remove_pairing(&mut c, "b");
    assert_eq!(c.pairing.len(), 0);
    // Removing what is not there changes nothing.
    remove_pairing(&mut c, "zzz");
    assert_eq!(get_all_pairings_at(&c, 0), Vec::new());
}

#[test]
fn pairing_with_the_clock() {
    let mut c = config();
    add_pairing(&mut c, "live", "Live");
    assert!(is_paired(&c, "live"));
    assert!(!is_paired(&c, "other"));
    assert_eq!(get_all_pairings(&c), vec![("live".to_string(), "Live".to_string())]);
}
