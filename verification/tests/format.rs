//! Byte formatting against the floating-point rendering it reproduces.

use memclean::mem::format_bytes;

/// The floating-point computation the integer implementation stands for.
fn float_format_bytes(bytes: u64) -> String {
    let units = ["B", "KB", "MB", "GB", "TB"];
    let mut v = bytes as f64;
    let mut i = 0;
    while v >= 1024.0 && i < units.len() - 1 {
        v /= 1024.0;
        i += 1;
    }
    if i == 0 {
        format!("{} {}", bytes, units[i])
    } else {
        format!("{:.1} {}", v, units[i])
    }
}

fn check(bytes: u64) {
    assert_eq!(format_bytes(bytes), float_format_bytes(bytes), "bytes = {}", bytes);
}

#[test]
fn format_bytes_exact_values() {
    assert_eq!(format_bytes(0), "0 B");
    assert_eq!(format_bytes(1023), "1023 B");
    assert_eq!(format_bytes(1024), "1.0 KB");
    assert_eq!(format_bytes(1536), "1.5 KB");
    assert_eq!(format_bytes(1024 * 1024), "1.0 MB");
    assert_eq!(format_bytes(1024u64 * 1024 * 1024), "1.0 GB");
    assert_eq!(format_bytes(1024u64 * 1024 * 1024 * 1024), "1.0 TB");
    assert_eq!(format_bytes(1024 * 1024 - 1), "1024.0 KB");
}

#[test]
fn format_bytes_ties_round_to_even() {
    // 1.25 KB and 1.75 KB are exact halves of a tenth.
    assert_eq!(format_bytes(1280), "1.2 KB");
    assert_eq!(format_bytes(1792), "1.8 KB");
    check(1280);
    check(1792);
}

#[test]
fn format_bytes_small_range_matches_float() {
    for b in 0..20_000u64 {
        check(b);
    }
}

#[test]
fn format_bytes_unit_edges_match_float() {
    for k in 1..=6u32 {
        let p = 1u64 << (10 * k).min(63);
        for d in 0..64u64 {
            check(p.saturating_sub(d));
            check(p.saturating_add(d));
        }
    }
}

#[test]
fn format_bytes_large_values_match_float() {
    let top = 1u64 << 53;
    for d in 0..2048u64 {
        check(top - 1024 + d);
    }
    check(u64::MAX);
    check(u64::MAX - 1);
    check(1u64 << 63);
    // Values next to halves of a tenth of a terabyte, where the conversion
    // to a double decides the rounding.
    for j in [5u64, 15, 25, 35, 45, 1005, 33333 * 5, 12345 * 10 + 5] {
        let tie = j << 38;
        for d in 0..40u64 {
            check(tie - d * 97);
            check(tie + d * 97);
        }
        let big = (j << 38) | (1 << 60);
        for d in 0..40u64 {
            check(big.wrapping_sub(d * 1025));
            check(big.wrapping_add(d * 1025));
        }
    }
}

#[test]
fn format_bytes_pseudo_random_match_float() {
    let mut x: u64 = 0x9E37_79B9_7F4A_7C15;
    for _ in 0..200_000 {
        x ^= x << 13;
        x ^= x >> 7;
        x ^= x << 17;
        check(x >> (x % 64));
    }
}
