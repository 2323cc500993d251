//! Smoke tests: the core modules load and their basic behaviour holds.

use memclean::config::AppConfig;
use memclean::mem::{clean_by_level, format_bytes, memory_snapshot, physical_usage_percent, MemStatus};
use memclean::util::{wide, wide_to_string};

#[test]
fn smoke_core_modules_load() {
    let _ = wide("hello");
    let _ = wide_to_string(&[0x0068, 0x0065, 0x006C, 0x006C, 0x006F, 0x0000]);
}

#[test]
fn smoke_config_load() {
    let cfg = AppConfig::defaults();
    assert_eq!(cfg.interval_minutes, 5);
    assert_eq!(cfg.level, 1);
    assert!(cfg.fullscreen_avoid);
    assert!(!cfg.autostart);
}

#[test]
fn smoke_config_sanitize() {
    let mut cfg = AppConfig::defaults();
    cfg.interval_minutes = 0;
    cfg.level = 99;
    cfg.sanitize();
    assert_eq!(cfg.interval_minutes, 1);
    assert_eq!(cfg.level, 1);
}

#[test]
fn smoke_config_boundary() {
    let mut cfg = AppConfig::defaults();
    cfg.interval_minutes = 1440;
    cfg.sanitize();
    assert_eq!(cfg.interval_minutes, 1440);

    cfg.interval_minutes = 1441;
    cfg.sanitize();
    assert_eq!(cfg.interval_minutes, 1440);
}

#[test]
fn smoke_util_roundtrip() {
    let original = "Hello, 世界!";
    let w = wide(original);
    assert_eq!(*w.last().unwrap(), 0);
    let back = wide_to_string(&w[..w.len() - 1]);
    assert_eq!(back, original);
}

#[test]
fn smoke_util_empty() {
    let w = wide("");
    assert_eq!(w.len(), 1);
    assert_eq!(w[0], 0);
}

#[test]
fn smoke_util_ascii() {
    let w = wide("abc");
    assert_eq!(w.len(), 4);
    assert_eq!(w[0], 'a' as u16);
    assert_eq!(w[1], 'b' as u16);
    assert_eq!(w[2], 'c' as u16);
    assert_eq!(w[3], 0);
}

#[test]
fn smoke_util_chinese() {
    let w = wide("你好");
    assert_eq!(w.len(), 3);
    assert!(w[0] > 0x7F);
    assert!(w[1] > 0x7F);
}

#[test]
fn smoke_format_bytes() {
    let s = format_bytes(0);
    assert!(s.contains("0"));

    let s = format_bytes(1024);
    assert!(s.contains("KB"));

    let s = format_bytes(1024 * 1024);
    assert!(s.contains("MB"));

    let s = format_bytes(1024u64 * 1024 * 1024);
    assert!(s.contains("GB"));
}

fn sample_status() -> MemStatus {
    MemStatus {
        total_phys: 16 * 1024 * 1024 * 1024,
        avail_phys: 6 * 1024 * 1024 * 1024,
        total_page_file: 24 * 1024 * 1024 * 1024,
        avail_page_file: 9 * 1024 * 1024 * 1024,
    }
}

#[test]
fn smoke_physical_usage() {
    let pct = physical_usage_percent(&sample_status());
    assert!(pct <= 100);
    assert_eq!(pct, 62);
}

#[test]
fn smoke_memory_snapshot() {
    let snap = memory_snapshot(&sample_status(), 3 * 1024 * 1024 * 1024, 4 * 1024 * 1024 * 1024);
    assert!(snap.phys_total > 0);
    assert!(snap.phys_percent <= 100);
    assert!(snap.page_total > 0);
    assert!(snap.page_percent <= 100);
    assert_eq!(snap.phys_used, 10 * 1024 * 1024 * 1024);
    assert_eq!(snap.page_percent, 62);
    assert_eq!(snap.cache_percent, 75);
}

#[test]
fn smoke_clean_standard() {
    let plan = clean_by_level(1);
    assert!(!plan.message.is_empty());
    assert_eq!(plan.message, "标准清理完成");
}
