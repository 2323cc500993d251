//! Main settings window: usage bars, their labels, the settings panel and
//! the window placement.

use vstd::prelude::*;
use crate::mem::{format_bytes, spec_format_bytes};
use crate::util::{trim, trim_bounds, utf16_encode, wide};
use vstd::assert_by_contradiction;
use vstd::string::StringExecFns;

verus! {

/// A decimal digit character.
pub open spec fn is_digit(c: char) -> bool {
    '0' <= c <= '9'
}

/// The value of a digit character.
pub open spec fn digit_value(c: char) -> nat {
    ((c as u32) - 48) as nat
}

/// The number a string of decimal digits spells.
pub open spec fn digits_value(s: Seq<char>) -> nat
    decreases s.len(),
{
    if s.len() == 0 {
        0
    } else {
        digits_value(s.drop_last()) * 10 + digit_value(s.last())
    }
}

/// Every character is a decimal digit.
pub open spec fn all_digits(d: Seq<char>) -> bool {
    forall|i: int| 0 <= i < d.len() ==> is_digit(#[trigger] d[i])
}

/// The text after an optional leading `+`.
pub open spec fn unsigned_part(s: Seq<char>) -> Seq<char> {
    if s.len() > 0 && s[0] == '+' {
        s.drop_first()
    } else {
        s
    }
}

/// `str::parse::<u32>`: an optional `+` and at least one decimal digit, of
/// value at most `u32::MAX`.
pub open spec fn parse_u32(s: Seq<char>) -> Option<u32> {
    let d = unsigned_part(s);
    if d.len() > 0 && all_digits(d) && digits_value(d) <= u32::MAX {
        Some(digits_value(d) as u32)
    } else {
        None
    }
}

proof fn lemma_digits_value_grows(s: Seq<char>, k: int)
    requires
        0 <= k <= s.len(),
        forall|i: int| 0 <= i < s.len() ==> is_digit(#[trigger] s[i]),
    ensures
        digits_value(s.take(k)) <= digits_value(s),
    decreases s.len() - k,
{
    if k < s.len() {
        lemma_digits_value_grows(s.drop_last(), k);
        assert(s.drop_last().take(k) =~= s.take(k));
    } else {
        assert(s.take(k) =~= s);
    }
}

/// The number typed into the interval field: its text without surrounding
/// white space, parsed as `u32`; `None` when that fails.
pub fn edit_value(text: &str) -> (v: Option<u32>)
    ensures
        v == parse_u32(trim(text@)),
{
    let (start, end) = trim_bounds(text);
    let ghost t = trim(text@);
    let mut i = start;
    if i < end && text.get_char(i) == '+' {
        i += 1;
    }
    let ghost d = unsigned_part(t);
    assert(d =~= text@.subrange(i as int, end as int));
    if i == end {
        return None;
    }
    let first = i;
    let mut acc: u64 = 0;
    while i < end
        invariant
            start <= first <= i <= end <= text@.len(),
            d == text@.subrange(first as int, end as int),
            d == unsigned_part(trim(text@)),
            d.len() > 0,
            forall|j: int| 0 <= j < i - first ==> is_digit(#[trigger] d[j]),
            acc == digits_value(d.take(i - first)),
            acc <= u32::MAX,
        decreases end - i,
    {
        let c = text.get_char(i);
        assert(d[i - first] == c);
        if !('0' <= c && c <= '9') {
            assert(!is_digit(d[i - first]));
            return None;
        }
        let dv = (c as u32 - 48) as u64;
        let ghost k = i - first;
        assert(d.take(k + 1).drop_last() =~= d.take(k));
        assert(d.take(k + 1).last() == c);
        assert(digit_value(c) == dv);
        acc = acc * 10 + dv;
        assert(acc == digits_value(d.take(k + 1)));
        if acc > 0xFFFF_FFFF {
            proof {
                assert_by_contradiction!(!all_digits(d) || digits_value(d) > u32::MAX, {
                    lemma_digits_value_grows(d, k + 1);
                });
            }
            return None;
        }
        i += 1;
    }
    assert(d.take(end - first) =~= d);
    Some(acc as u32)
}

/// Packs red, green and blue into a Windows `COLORREF` (`0x00BBGGRR`).
#[allow(non_snake_case)]
pub fn RGB(r: u32, g: u32, b: u32) -> (c: u32)
    ensures
        c == (b << 16u32) | (g << 8u32) | r,
        r < 256 && g < 256 && b < 256 ==> c == r + 256 * g + 65536 * b,
{
    let c = (b << 16u32) | (g << 8u32) | r;
    proof {
        if r < 256 && g < 256 && b < 256 {
            assert(((b << 16u32) | (g << 8u32) | r) == r + 256 * g + 65536 * b) by (bit_vector)
                requires r < 256u32 && g < 256u32 && b < 256u32;
        }
    }
    c
}

/// Colour of a usage percentage: green (RGB 30 A0 50) up to 33 %, amber
/// (E0 A0 10) up to 66 %, red (D0 30 30) above, as `COLORREF` values.
pub open spec fn usage_color(pct: u32) -> u32 {
    if pct > 66 {
        0x3030D0
    } else if pct > 33 {
        0x10A0E0
    } else {
        0x50A030
    }
}

/// Colour of a usage bar.
pub fn bar_color(pct: u32) -> (c: u32)
    ensures
        c == usage_color(pct),
{
    if pct > 66 {
        RGB(0xD0, 0x30, 0x30)
    } else if pct > 33 {
        RGB(0xE0, 0xA0, 0x10)
    } else {
        RGB(0x30, 0xA0, 0x50)
    }
}

/// Width of the filled part of a bar `w` pixels wide at `pct` percent.
pub fn bar_fill_width(w: i32, pct: u32) -> (f: i32)
    requires
        (w as u64) * (pct as u64) <= u64::MAX,
    ensures
        f == ((w as u64) * (pct as u64) / 100) as i32,
        0 <= w && pct <= 100 ==> f == w * pct / 100 && 0 <= f <= w,
{
    let f = ((w as u64) * (pct as u64) / 100) as i32;
    proof {
        if 0 <= w && pct <= 100 {
            assert((w as u64) as int == w as int);
            assert(w * pct / 100 <= w) by (nonlinear_arith)
                requires 0 <= w, pct <= 100;
            assert(w * pct / 100 >= 0) by (nonlinear_arith)
                requires 0 <= w, pct >= 0;
        }
    }
    f
}

/// Text inside a bar: the percentage (at most 100) and a percent sign.
pub fn bar_label(pct: u32) -> (s: String)
    ensures
        s@ == crate::text::decimal(if pct > 100 { 100nat } else { pct as nat }) + "%"@,
{
    let p = if pct > 100 { 100 } else { pct };
    let mut s = String::new();
    crate::text::push_decimal(&mut s, p as u128);
    s.append("%");
    s
}

/// Position of a strength in the strength list (standard first, deep second).
pub open spec fn combo_index(level: u32) -> usize {
    if level <= 1 {
        0
    } else {
        1
    }
}

/// Strength of a position chosen in the list (`u32::MAX` when none is).
pub open spec fn combo_level(sel: u32) -> u32 {
    if sel == u32::MAX || sel == 0 {
        1
    } else {
        2
    }
}

/// Position in the strength list that shows a strength.
pub fn combo_index_of_level(level: u32) -> (i: usize)
    ensures
        i == combo_index(level),
{
    if level <= 1 {
        0
    } else {
        1
    }
}

/// Strength chosen in the strength list.
pub fn level_of_combo_index(sel: u32) -> (level: u32)
    ensures
        level == combo_level(sel),
{
    if sel == u32::MAX {
        1
    } else if sel + 1 > 2 {
        2
    } else {
        sel + 1
    }
}

/// Showing a strength in the list and reading it back gives it unchanged;
/// whatever is chosen reads back as a valid strength.
pub proof fn law_combo_roundtrip(level: u32, sel: u32)
    ensures
        crate::config::valid_level(level) ==> combo_level(combo_index(level) as u32) == level,
        crate::config::valid_level(combo_level(sel)),
{
}

/// A usage line: title, used amount and total, e.g. "物理内存 3.2 GB / 15.9 GB".
pub open spec fn spec_usage_label(title: Seq<char>, used: u64, total: u64) -> Seq<char> {
    title + " "@ + spec_format_bytes(used) + " / "@ + spec_format_bytes(total)
}

/// The usage line shown beside a bar.
pub fn usage_label(title: &str, used: u64, total: u64) -> (s: String)
    ensures
        s@ == spec_usage_label(title@, used, total),
{
    let mut s = String::from_str(title);
    s.append(" ");
    s.append(format_bytes(used).as_str());
    s.append(" / ");
    s.append(format_bytes(total).as_str());
    s
}

/// Titles of the three usage lines.
pub const TITLE_PHYSICAL: &'static str = "物理内存";
pub const TITLE_VIRTUAL: &'static str = "虚拟内存";
pub const TITLE_CACHE: &'static str = "系统缓存";

/// Margin around the window content, in pixels.
pub const MARGIN: i32 = 14;
/// Width of a usage bar.
pub const BAR_W: i32 = 100;
/// Gap between a bar and its line.
pub const BAR_GAP: i32 = 10;
/// Height of a bar row.
pub const ROW: i32 = 24;
/// Left edge of the usage lines.
pub const TEXT_X: i32 = 124;
/// Top of the settings group box.
pub const BOX_Y: i32 = 86;
/// Width of the settings group box.
pub const BOX_W: i32 = 172;
/// Height of the settings group box.
pub const BOX_H: i32 = 72;
/// Left edge of the check boxes.
pub const CHECK_X: i32 = 198;
/// Narrowest window.
pub const MIN_WIN_W: i32 = 280;
/// Window height.
pub const WIN_H: i32 = 203;

/// Sizes of the main window that depend on its text.
#[derive(Clone, Copy, Debug, PartialEq, Eq)]
pub struct MainLayout {
    /// Window width: room for a bar and the widest line, at least 280.
    pub win_w: i32,
    /// Window height.
    pub win_h: i32,
    /// Width of the usage lines.
    pub text_w: i32,
    /// Width of the check boxes.
    pub check_w: i32,
}

impl MainLayout {
    /// The layout for usage lines at most `max_text_w` pixels wide.
    pub fn compute(max_text_w: i32) -> (l: MainLayout)
        requires
            max_text_w <= i32::MAX - (2 * MARGIN + BAR_W + BAR_GAP),
        ensures
            l.win_w == (if max_text_w + 2 * MARGIN + BAR_W + BAR_GAP > MIN_WIN_W {
                max_text_w + 2 * MARGIN + BAR_W + BAR_GAP
            } else {
                MIN_WIN_W as int
            }),
            l.win_h == WIN_H,
            l.text_w == l.win_w - MARGIN - TEXT_X,
            l.check_w == l.win_w - MARGIN - CHECK_X,
            l.text_w >= max_text_w,
    {
        let content_w = MARGIN + BAR_W + BAR_GAP + max_text_w + MARGIN;
        let win_w = if content_w > MIN_WIN_W { content_w } else { MIN_WIN_W };
        MainLayout {
            win_w,
            win_h: BOX_Y + BOX_H + MARGIN + 31,
            text_w: win_w - MARGIN - TEXT_X,
            check_w: win_w - MARGIN - CHECK_X,
        }
    }
}

/// A screen rectangle.
#[derive(Clone, Copy, Debug, PartialEq, Eq, Default)]
pub struct Rect {
    pub left: i32,
    pub top: i32,
    pub right: i32,
    pub bottom: i32,
}

/// Gap between the window and the work area's corner.
pub const CORNER_GAP: i32 = 10;

/// The top-left position that puts a window of the size of `window` in the
/// bottom-right corner of the work area, 10 pixels from its edges.
pub fn bottom_right_position(work_area: Rect, window: Rect) -> (p: (i32, i32))
    requires
        i32::MIN <= work_area.right - work_area.left <= i32::MAX,
        i32::MIN <= work_area.bottom - work_area.top <= i32::MAX,
        i32::MIN <= window.right - window.left <= i32::MAX,
        i32::MIN <= window.bottom - window.top <= i32::MAX,
        i32::MIN <= work_area.right - (window.right - window.left) <= i32::MAX,
        i32::MIN <= work_area.bottom - (window.bottom - window.top) <= i32::MAX,
        i32::MIN <= work_area.right - (window.right - window.left) - CORNER_GAP <= i32::MAX,
        i32::MIN <= work_area.bottom - (window.bottom - window.top) - CORNER_GAP <= i32::MAX,
    ensures
        p.0 == work_area.right - (window.right - window.left) - CORNER_GAP,
        p.1 == work_area.bottom - (window.bottom - window.top) - CORNER_GAP,
{
    let wa_w = work_area.right - work_area.left;
    let wa_h = work_area.bottom - work_area.top;
    let w_w = window.right - window.left;
    let w_h = window.bottom - window.top;
    let x = work_area.left + wa_w - w_w - CORNER_GAP;
    let y = work_area.top + wa_h - w_h - CORNER_GAP;
    (x, y)
}

/// The strength of a cleaning asked for from the tray: the strength it
/// carries (truncated to 32 bits) when that is 1 to 3, else the configured one
/// (deep when the configuration cannot be read).
pub open spec fn spec_requested_level(carried: usize, configured: Option<u32>) -> u32 {
    if 1 <= carried as u32 <= 3 {
        carried as u32
    } else {
        match configured {
            Some(l) => l,
            None => 2u32,
        }
    }
}

/// The strength of a cleaning asked for from the tray.
pub fn requested_clean_level(carried: usize, configured: Option<u32>) -> (level: u32)
    ensures
        level == spec_requested_level(carried, configured),
{
    let lv = carried as u32;
    if 1 <= lv && lv <= 3 {
        lv
    } else {
        match configured {
            Some(l) => l,
            None => 2,
        }
    }
}

/// The command line registered for starting with the session: the quoted
/// program path followed by `silent`.
pub open spec fn autostart_command(exe_path: Seq<char>) -> Seq<char> {
    "\""@ + exe_path + "\" silent"@
}

/// Registry value data for starting with the session: the command line in
/// UTF-16 with two terminating NULs.
pub fn autostart_value(exe_path: &str) -> (v: Vec<u16>)
    ensures
        v@ == utf16_encode(autostart_command(exe_path@)).push(0).push(0),
{
    let mut cmd = String::from_str("\"");
    cmd.append(exe_path);
    cmd.append("\" silent");
    let mut data = wide(cmd.as_str());
    data.push(0);
    data
}

/// Window title telling whether the process runs elevated.
pub fn window_title(elevated: bool) -> (s: &'static str)
    ensures
        s@ == (if elevated { "WinMemCleaner-管理员"@ } else { "WinMemCleaner-非管理员"@ }),
{
    if elevated {
        "WinMemCleaner-管理员"
    } else {
        "WinMemCleaner-非管理员"
    }
}

/// Interval field.
pub const IDC_INTERVAL_EDIT: i32 = 2101;
/// Strength list.
pub const IDC_COMBO_LEVEL: i32 = 2102;
/// "Start with the session" check box.
pub const IDC_AUTOSTART: i32 = 2007;
/// "Avoid full-screen applications" check box.
pub const IDC_FSAVOID: i32 = 2008;
/// Notification: an edit control lost the keyboard focus.
pub const EN_KILLFOCUS: i32 = 8;

/// What a control notification of the settings panel asks for.
#[derive(Clone, Copy, Debug, PartialEq, Eq)]
pub enum PanelAction {
    /// Read the panel, store the configuration and show it again.
    Save,
    /// Register or remove the autostart entry as the box says, then save.
    SetAutostartAndSave,
    /// Nothing.
    Ignore,
}

/// The meaning of a control notification: the control is the low word of
/// the first message parameter, the notification code the word above it.
pub open spec fn spec_panel_action(wparam: usize) -> PanelAction {
    let id = (wparam & 0xFFFFusize) as i32;
    let notify = (wparam >> 16u32) as i32;
    if id == IDC_COMBO_LEVEL || id == IDC_FSAVOID {
        PanelAction::Save
    } else if id == IDC_INTERVAL_EDIT {
        if notify == EN_KILLFOCUS {
            PanelAction::Save
        } else {
            PanelAction::Ignore
        }
    } else if id == IDC_AUTOSTART {
        PanelAction::SetAutostartAndSave
    } else {
        PanelAction::Ignore
    }
}

/// What a control notification of the settings panel asks for.
pub fn panel_action(wparam: usize) -> (a: PanelAction)
    ensures
        a == spec_panel_action(wparam),
{
    let id = (wparam & 0xFFFF) as i32;
    let notify = (wparam >> 16u32) as i32;
    if id == IDC_COMBO_LEVEL || id == IDC_FSAVOID {
        PanelAction::Save
    } else if id == IDC_INTERVAL_EDIT {
        if notify == EN_KILLFOCUS {
            PanelAction::Save
        } else {
            PanelAction::Ignore
        }
    } else if id == IDC_AUTOSTART {
        PanelAction::SetAutostartAndSave
    } else {
        PanelAction::Ignore
    }
}

} // verus!
