//! Configuration rules and text conversion.

use memclean::config::{strip_bom, AppConfig};
use memclean::util::{trimmed_ascii_lowercase, wide, wide_to_string};

#[test]
fn config_default_is_defaults() {
    assert_eq!(AppConfig::default(), AppConfig::defaults());
}

#[test]
fn config_sanitize_is_idempotent_and_keeps_sane_values() {
    for interval in [0u32, 1, 2, 5, 1439, 1440, 1441, u32::MAX] {
        for level in [0u32, 1, 2, 3, 99, u32::MAX] {
            let mut c = AppConfig { interval_minutes: interval, level, fullscreen_avoid: false, autostart: true };
            c.sanitize();
            assert!((1..=1440).contains(&c.interval_minutes));
            assert!((1..=2).contains(&c.level));
            assert!(!c.fullscreen_avoid);
            assert!(c.autostart);
            let once = c;
            c.sanitize();
            assert_eq!(c, once);
            if (1..=1440).contains(&interval) && (1..=2).contains(&level) {
                assert_eq!(c.interval_minutes, interval);
                assert_eq!(c.level, level);
            }
        }
    }
}

#[test]
fn config_from_loaded() {
    assert_eq!(AppConfig::from_loaded(None), AppConfig::defaults());
    let parsed = AppConfig { interval_minutes: 5000, level: 7, fullscreen_avoid: false, autostart: true };
    let c = AppConfig::from_loaded(Some(parsed));
    assert_eq!(c, AppConfig { interval_minutes: 1440, level: 1, fullscreen_avoid: false, autostart: true });
    let good = AppConfig { interval_minutes: 10, level: 2, fullscreen_avoid: true, autostart: false };
    assert_eq!(AppConfig::from_loaded(Some(good)), good);
}

#[test]
fn config_with_panel_values() {
    let c = AppConfig::defaults();
    let n = c.with_panel_values(Some(30), 2, true, false);
    assert_eq!(n, AppConfig { interval_minutes: 30, level: 2, fullscreen_avoid: false, autostart: true });
    let kept = c.with_panel_values(None, 1, false, true);
    assert_eq!(kept.interval_minutes, 5);
    let clamped = c.with_panel_values(Some(0), 9, false, true);
    assert_eq!(clamped.interval_minutes, 1);
    assert_eq!(clamped.level, 1);
}

#[test]
fn config_strip_bom() {
    assert_eq!(strip_bom("\u{FEFF}{\"level\": 2}"), "{\"level\": 2}");
    assert_eq!(strip_bom("\u{FEFF}\u{FEFF}x"), "x");
    assert_eq!(strip_bom("x\u{FEFF}"), "x\u{FEFF}");
    assert_eq!(strip_bom(""), "");
    for s in ["{}", "\u{FEFF}", " \u{FEFF}a", "\u{FEFF}é\u{FEFF}"] {
        assert_eq!(strip_bom(s), s.trim_start_matches('\u{FEFF}'));
    }
}

#[test]
fn wide_matches_utf16_encoding() {
    for s in ["", "a", "Hello, 世界!", "😀 emoji 𝄞", "\u{FFFF}\u{10000}\u{10FFFF}", "mixed é ü 中"] {
        let mut expected: Vec<u16> = s.encode_utf16().collect();
        expected.push(0);
        assert_eq!(wide(s), expected);
    }
}

#[test]
fn wide_to_string_matches_lossy_decoding() {
    let cases: Vec<Vec<u16>> = vec![
        vec![],
        vec![0x41, 0x42],
        vec![0x41, 0, 0x42],
        vec![0xD83D, 0xDE00, 0x21],
        vec![0xD83D],
        vec![0xDE00, 0x41],
        vec![0xD83D, 0x41, 0xDE00],
        vec![0xD800, 0xD800, 0xDC00],
        vec![0x4F60, 0x597D, 0, 0xFFFF],
    ];
    for buf in cases {
        let len = buf.iter().position(|&c| c == 0).unwrap_or(buf.len());
        assert_eq!(wide_to_string(&buf), String::from_utf16_lossy(&buf[..len]));
    }
}

#[test]
fn wide_roundtrip_law() {
    for s in ["", "abc", "Hello, 世界!", "😀𝄞x", "tab\tend"] {
        let w = wide(s);
        assert_eq!(wide_to_string(&w), s);
        assert_eq!(wide_to_string(&w[..w.len() - 1]), s);
    }
    // A NUL inside the text ends the conversion.
    assert_eq!(wide_to_string(&wide("ab\0cd")), "ab");
}

#[test]
fn trimmed_ascii_lowercase_matches_std() {
    for s in ["  Explorer.EXE ", "\u{3000}TaskMgr.exe\t", "ÄBC", "", "   ", "System"] {
        assert_eq!(trimmed_ascii_lowercase(s), s.trim().to_ascii_lowercase());
    }
}
