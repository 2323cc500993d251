//! Automatic-cleaning schedule, interface decisions and start-up switches.

use memclean::config::AppConfig;
use memclean::scheduler::{Scheduler, SchedulerAction};
use memclean::startup::{is_restart, is_silent_start, other_instance_running};
use memclean::ui::about::{bgra_pixels, link_text_color, centered_position, dialog_height, mouse_point, point_in_link, AboutLayout};
use memclean::ui::tray::{
    dib_pixel, glyph_bounds, glyph_origin, icon_bg_color, tip_field, tooltip_text, tray_command, tray_menu,
    tray_notification, GlyphBox, MenuEntry, TrayCommand, TrayIconState, TrayNotification, ID_ABOUT,
    ID_CLEAN_DEEP, ID_CLEAN_STD, ID_QUIT, ID_SHOW, WM_LBUTTONDBLCLK, WM_RBUTTONUP,
};
use memclean::ui::window::{
    autostart_value, bar_color, bar_fill_width, bar_label, bottom_right_position, combo_index_of_level,
    edit_value, level_of_combo_index, panel_action, requested_clean_level, usage_label, window_title,
    MainLayout, PanelAction, Rect, IDC_AUTOSTART, IDC_COMBO_LEVEL, IDC_FSAVOID, IDC_INTERVAL_EDIT,
    TITLE_PHYSICAL, RGB,
};

const MIN: u64 = 60 * 1_000_000_000;

fn cfg(interval: u32, level: u32, avoid: bool) -> AppConfig {
    AppConfig { interval_minutes: interval, level, fullscreen_avoid: avoid, autostart: false }
}

#[test]
fn scheduler_cleans_after_interval() {
    let mut s = Scheduler::new();
    s.start(1000);
    let c = cfg(5, 2, false);
    assert_eq!(s.tick(&c, 1000 + 5 * MIN - 1), SchedulerAction::Sleep(5));
    assert_eq!(s.tick(&c, 1000 + 5 * MIN), SchedulerAction::Clean(2));
    assert_eq!(s.cleaned(1000 + 5 * MIN + 7), SchedulerAction::Sleep(5));
    assert_eq!(s.tick(&c, 1000 + 6 * MIN), SchedulerAction::Sleep(5));
    assert_eq!(s.tick(&c, 1000 + 10 * MIN + 7), SchedulerAction::Clean(2));
}

#[test]
fn scheduler_zero_interval_means_one_minute() {
    let mut s = Scheduler::new();
    s.start(0);
    let c = cfg(0, 1, false);
    assert_eq!(s.tick(&c, MIN - 1), SchedulerAction::Sleep(5));
    assert_eq!(s.tick(&c, MIN), SchedulerAction::Clean(1));
}

#[test]
fn scheduler_postpones_for_fullscreen() {
    let mut s = Scheduler::new();
    s.start(0);
    let c = cfg(1, 2, true);
    assert_eq!(s.tick(&c, MIN), SchedulerAction::CheckFullscreen);
    assert_eq!(s.fullscreen_checked(true), SchedulerAction::Sleep(10));
    assert_eq!(s.tick(&c, MIN + 10), SchedulerAction::CheckFullscreen);
    assert_eq!(s.fullscreen_checked(false), SchedulerAction::Clean(2));
    assert_eq!(s.cleaned(MIN + 20), SchedulerAction::Sleep(5));
    assert_eq!(s.tick(&c, MIN + 30), SchedulerAction::Sleep(5));
}

#[test]
fn scheduler_stop_exits() {
    let mut s = Scheduler::new();
    assert!(s.running());
    s.stop();
    assert!(!s.running());
    assert_eq!(s.tick(&cfg(1, 1, false), u64::MAX), SchedulerAction::Exit);
    assert_eq!(s.tick(&cfg(1, 1, false), 0), SchedulerAction::Exit);
}

#[test]
fn scheduler_clock_going_back_is_no_elapsed_time() {
    let mut s = Scheduler::new();
    s.start(10 * MIN);
    assert_eq!(s.tick(&cfg(1, 1, false), 0), SchedulerAction::Sleep(5));
}

#[test]
fn colors_and_bars() {
    assert_eq!(RGB(0xD0, 0x30, 0x30), 0x3030D0);
    assert_eq!(bar_color(67), 0x3030D0);
    assert_eq!(bar_color(66), 0x10A0E0);
    assert_eq!(bar_color(34), 0x10A0E0);
    assert_eq!(bar_color(33), 0x50A030);
    assert_eq!(icon_bg_color(90), bar_color(90));
    assert_eq!(dib_pixel(0x3030D0), 0xD03030);
    assert_eq!(bar_fill_width(100, 50), 50);
    assert_eq!(bar_fill_width(99, 33), 32);
    assert_eq!(bar_fill_width(0, 100), 0);
    assert_eq!(bar_label(42), "42%");
    assert_eq!(bar_label(250), "100%");
}

#[test]
fn combo_mapping() {
    assert_eq!(combo_index_of_level(1), 0);
    assert_eq!(combo_index_of_level(2), 1);
    assert_eq!(combo_index_of_level(0), 0);
    assert_eq!(combo_index_of_level(9), 1);
    assert_eq!(level_of_combo_index(0), 1);
    assert_eq!(level_of_combo_index(1), 2);
    assert_eq!(level_of_combo_index(7), 2);
    assert_eq!(level_of_combo_index(u32::MAX), 1);
    for level in 1..=2u32 {
        assert_eq!(level_of_combo_index(combo_index_of_level(level) as u32), level);
    }
}

#[test]
fn interval_field_parsing_matches_std() {
    for s in ["5", " 30 ", "+7", "0", "", "   ", "+", "-1", "-0", "12a", "4294967295", "4294967296",
        "00017", "\u{3000}9\n", "99999999999999999999", "1 2", "٣"] {
        assert_eq!(edit_value(s), s.trim().parse::<u32>().ok(), "text = {:?}", s);
    }
}

#[test]
fn labels_and_layout() {
    assert_eq!(usage_label(TITLE_PHYSICAL, 1536, 2048), "物理内存 1.5 KB / 2.0 KB");
    let l = MainLayout::compute(160);
    assert_eq!(l.win_w, 298);
    assert_eq!(l.text_w, 160);
    assert_eq!(l.win_h, 203);
    assert_eq!(l.check_w, 86);
    assert_eq!(MainLayout::compute(10).win_w, 280);
    let wa = Rect { left: 0, top: 0, right: 1920, bottom: 1040 };
    let win = Rect { left: -100, top: -100, right: 198, bottom: 103 };
    assert_eq!(bottom_right_position(wa, win), (1920 - 298 - 10, 1040 - 203 - 10));
}

#[test]
fn tray_requests_and_autostart() {
    assert_eq!(requested_clean_level(2, Some(1)), 2);
    assert_eq!(requested_clean_level(0, Some(1)), 1);
    assert_eq!(requested_clean_level(4, None), 2);
    assert_eq!(requested_clean_level((1usize << 32) + 3, Some(1)), 3);
    let mut expected: Vec<u16> = "\"C:\\memclean.exe\" silent".encode_utf16().collect();
    expected.push(0);
    expected.push(0);
    assert_eq!(autostart_value("C:\\memclean.exe"), expected);
    assert_eq!(window_title(true), "WinMemCleaner-管理员");
    assert_eq!(window_title(false), "WinMemCleaner-非管理员");
}

#[test]
fn panel_actions() {
    assert_eq!(panel_action(IDC_COMBO_LEVEL as usize), PanelAction::Save);
    assert_eq!(panel_action(IDC_FSAVOID as usize), PanelAction::Save);
    assert_eq!(panel_action(IDC_AUTOSTART as usize), PanelAction::SetAutostartAndSave);
    assert_eq!(panel_action(IDC_INTERVAL_EDIT as usize), PanelAction::Ignore);
    assert_eq!(panel_action((8 << 16) | IDC_INTERVAL_EDIT as usize), PanelAction::Save);
    assert_eq!(panel_action(1234), PanelAction::Ignore);
}

#[test]
fn tray_commands_and_notifications() {
    assert_eq!(tray_command(ID_SHOW), Some(TrayCommand::Show));
    assert_eq!(tray_command(ID_CLEAN_STD), Some(TrayCommand::Clean(1)));
    assert_eq!(tray_command(ID_CLEAN_DEEP | (1 << 16)), Some(TrayCommand::Clean(2)));
    assert_eq!(tray_command(ID_ABOUT), Some(TrayCommand::About));
    assert_eq!(tray_command(ID_QUIT), Some(TrayCommand::Quit));
    assert_eq!(tray_command(2004), None);
    assert_eq!(tray_notification(WM_RBUTTONUP), TrayNotification::ShowMenu);
    assert_eq!(tray_notification(WM_LBUTTONDBLCLK), TrayNotification::ShowWindow);
    assert_eq!(tray_notification(0x0200), TrayNotification::Ignore);
    let menu = tray_menu();
    assert_eq!(menu.len(), 7);
    assert_eq!(menu[0], MenuEntry::Item(ID_SHOW, "显示窗口"));
    assert_eq!(menu[1], MenuEntry::Separator);
    assert_eq!(menu[6], MenuEntry::Item(ID_QUIT, "完全退出"));
}

#[test]
fn tray_icon_glyph_and_tooltip() {
    let mut px = vec![0x0030A050u32; 256];
    assert_eq!(glyph_bounds(&px), None);
    px[3 * 16 + 2] = 0x00FFFFFF;
    px[9 * 16 + 7] = 0x00F0F0F0;
    px[5 * 16 + 4] = 0x00C8FFFF; // one component at 200: not text
    let b = glyph_bounds(&px).unwrap();
    assert_eq!(b, GlyphBox { left: 2, right: 7, top: 3, bottom: 9 });
    assert_eq!(glyph_origin(b), (3, 1));
    let mut st = TrayIconState { last_pct: 40 };
    assert!(!st.update(40));
    assert!(st.update(41));
    assert_eq!(st.last_pct, 41);
    let tip: Vec<u16> = (1..=200u16).collect();
    let f = tip_field(&tip);
    assert_eq!(f.len(), 128);
    assert_eq!(f[126], 127);
    assert_eq!(f[127], 0);
    let short = tip_field(&[7, 8]);
    assert_eq!(&short[..3], &[7, 8, 0]);
    let snap = memclean::mem::MemSnapshot {
        phys_total: 2048,
        phys_used: 1024,
        phys_percent: 50,
        page_total: 4096,
        page_used: 512,
        page_percent: 12,
        cache_used: 10,
        cache_total: 20,
        cache_percent: 50,
    };
    assert_eq!(tooltip_text(&snap), "物理 1.0 KB / 2.0 KB  虚拟 512 B / 4.0 KB  缓存 10 B / 20 B");
}

#[test]
fn about_dialog_geometry() {
    let l = AboutLayout::compute(464, 60);
    assert_eq!(l.content_w, 424);
    assert_eq!(l.link_w, 68);
    assert_eq!(l.link_x, 198);
    assert_eq!(l.qr_x, 12);
    assert_eq!(l.qr2_x, 252);
    let narrow = AboutLayout::compute(100, 200);
    assert_eq!(narrow.link_x, (60 - 208) / 2 + 20);
    assert_eq!(narrow.qr_x, (100 - 440) / 2);
    let win = Rect { left: 0, top: 0, right: 480, bottom: 500 };
    let client = Rect { left: 0, top: 0, right: 464, bottom: 461 };
    assert_eq!(dialog_height(win, client), 434 + 39);
    let wa = Rect { left: 0, top: 0, right: 1921, bottom: 1041 };
    assert_eq!(centered_position(wa, win), ((1921 - 480) / 2, (1041 - 500) / 2));
    assert_eq!(mouse_point(0x0010_0020), (0x20, 0x10));
    assert_eq!(mouse_point(0xFFFF_FFFEu32 as isize), (-2, -1));
    assert!(point_in_link(10, 5, 10, 5, 20, 20));
    assert!(!point_in_link(30, 5, 10, 5, 20, 20));
    let raw = [1u8, 2, 3, 4, 5, 6, 7, 8, 9];
    assert_eq!(bgra_pixels(&raw, 10), vec![0x04010203, 0x08050607]);
    assert_eq!(bgra_pixels(&raw, 1), vec![0x04010203]);
}

#[test]
fn startup_switches() {
    let args: Vec<String> = vec!["memclean.exe".into(), "--restart".into()];
    assert!(is_restart(&args));
    assert!(!is_silent_start(&args));
    assert!(is_silent_start(&vec!["x".to_string(), "slient".to_string()]));
    assert!(is_silent_start(&vec!["silent".to_string()]));
    assert!(!is_restart(&vec!["--restart=1".to_string()]));
    assert!(other_instance_running(183));
    assert!(other_instance_running(5));
    assert!(!other_instance_running(0));
}

#[test]
fn link_colour_follows_hover() {
    assert_eq!(link_text_color(true), 0x0000_00FF);
    assert_eq!(link_text_color(false), 0x00FF_0000);
}
