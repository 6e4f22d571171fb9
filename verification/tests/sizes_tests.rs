//! Byte counts print exactly as std prints the `f64` quotient with `{:.2}`.

use p2p_core::sizes::{format_size, GB, KB, MB};

fn float_text(bytes: u64) -> String {
    if bytes >= GB {
        format!("{:.2} GB", bytes as f64 / GB as f64)
    } else if bytes >= MB {
        format!("{:.2} MB", bytes as f64 / MB as f64)
    } else if bytes >= KB {
        format!("{:.2} KB", bytes as f64 / KB as f64)
    } else {
        format!("{} B", bytes)
    }
}

#[test]
fn small_and_boundary_sizes() {
    assert_eq!(format_size(0), "0 B");
    assert_eq!(format_size(1023), "1023 B");
    assert_eq!(format_size(1024), "1.00 KB");
    assert_eq!(format_size(1536), "1.50 KB");
    assert_eq!(format_size(MB), "1.00 MB");
    assert_eq!(format_size(GB), "1.00 GB");
    assert_eq!(format_size(10 * GB), "10.00 GB");
    for b in 0..20_000u64 {
        assert_eq!(format_size(b), float_text(b), "bytes = {}", b);
    }
}

#[test]
fn ties_round_like_std() {
    // 1.125 and 1.375 of each unit sit exactly between two hundredths.
    for unit in [KB, MB, GB] {
        for num in [1125u64, 1375, 2625, 9875, 1005] {
            let b = unit / 1000 * num + (unit % 1000) * num / 1000;
            assert_eq!(format_size(b), float_text(b), "bytes = {}", b);
        }
        for k in 1..2000u64 {
            let b = unit + k * (unit / 128);
            assert_eq!(format_size(b), float_text(b), "bytes = {}", b);
        }
    }
}

#[test]
fn large_sizes_round_like_f64() {
    let mut samples = vec![u64::MAX, u64::MAX - 1, 1 << 53, (1 << 53) + 1, (1 << 53) - 1, (1 << 63) + 1];
    for e in 10..64 {
        let p = 1u64 << e;
        samples.extend_from_slice(&[p - 1, p, p + 1, p + (p >> 1), p | 0x7ff, p | 0x400]);
    }
    let mut x: u64 = 0x9e37_79b9_7f4a_7c15;
    for _ in 0..200_000 {
        x = x.wrapping_mul(6364136223846793005).wrapping_add(1442695040888963407);
        samples.push(x >> (x % 64));
    }
    for b in samples {
        assert_eq!(format_size(b), float_text(b), "bytes = {}", b);
    }
}
