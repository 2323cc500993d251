//! Tray icon: the percentage icon's colour and glyph placement, the tooltip,
//! the context menu and the meaning of tray notifications.

use vstd::prelude::*;
use vstd::string::StringExecFns;
use crate::mem::{format_bytes, spec_format_bytes, MemSnapshot};
use crate::ui::window::{spec_requested_level, usage_color, RGB};

verus! {

/// First message number free for applications.
pub const WM_APP: u32 = 0x8000;
/// Tray asks the main window to show itself.
pub const MSG_TRAY_SHOW: u32 = WM_APP + 1;
/// Tray asks the main window to clean; the first message parameter carries the strength.
pub const MSG_TRAY_CLEAN: u32 = WM_APP + 2;
/// Tray asks the application to quit.
pub const MSG_TRAY_QUIT: u32 = WM_APP + 3;
/// Tray asks for the about dialog.
pub const MSG_TRAY_ABOUT: u32 = WM_APP + 4;
/// Notifications of the tray icon to its window.
pub const WM_TRAY: u32 = WM_APP + 10;

/// Menu item "show window".
pub const ID_SHOW: usize = 2001;
/// Menu item "standard cleaning".
pub const ID_CLEAN_STD: usize = 2002;
/// Menu item "deep cleaning".
pub const ID_CLEAN_DEEP: usize = 2003;
/// Menu item "quit".
pub const ID_QUIT: usize = 2005;
/// Menu item "about".
pub const ID_ABOUT: usize = 2006;
/// Identifier of the tray icon.
pub const TRAY_UID: u32 = 1;
/// Timer that refreshes the icon and the tooltip every second.
pub const TRAY_TIMER: usize = 2;
/// Right mouse button released.
pub const WM_RBUTTONUP: u32 = 0x0205;
/// Left mouse button double-clicked.
pub const WM_LBUTTONDBLCLK: u32 = 0x0203;

/// Background colour of the tray icon: the same scale as the usage bars.
pub fn icon_bg_color(pct: u32) -> (c: u32)
    ensures
        c == usage_color(pct),
{
    if pct > 66 {
        RGB(0xD0, 0x30, 0x30)
    } else if pct > 33 {
        RGB(0xE0, 0xA0, 0x10)
    } else {
        RGB(0x30, 0xA0, 0x50)
    }
}

/// A `COLORREF` (`0x00BBGGRR`) as a 32-bit DIB pixel (`0x00RRGGBB`).
pub open spec fn spec_dib_pixel(cr: u32) -> u32 {
    ((cr & 0xFFu32) << 16u32) | (cr & 0x00FF00u32) | ((cr >> 16u32) & 0xFFu32)
}

/// The DIB pixel of a colour: red and blue swap places.
pub fn dib_pixel(cr: u32) -> (p: u32)
    ensures
        p == spec_dib_pixel(cr),
{
    ((cr & 0xFF) << 16u32) | (cr & 0x00FF00) | ((cr >> 16u32) & 0xFF)
}

/// Swapping red and blue of a packed colour puts its components where a DIB
/// pixel expects them.
pub proof fn law_dib_pixel_of_rgb(r: u32, g: u32, b: u32)
    requires
        r < 256,
        g < 256,
        b < 256,
    ensures
        spec_dib_pixel((r + 256 * g + 65536 * b) as u32) == 65536 * r + 256 * g + b,
{
    let cr = (r + 256 * g + 65536 * b) as u32;
    assert(((cr & 0xFFu32) << 16u32) | (cr & 0x00FF00u32) | ((cr >> 16u32) & 0xFFu32) == 65536 * r + 256 * g
        + b) by (bit_vector)
        requires
            r < 256u32 && g < 256u32 && b < 256u32,
            cr == r + 256 * g + 65536 * b,
    ;
}

/// Side of the tray icon in pixels.
pub const ICON_SIZE: usize = 16;

/// A white or near-white pixel (each component above 200): part of the text.
pub open spec fn is_text_pixel(v: u32) -> bool {
    &&& ((v >> 16u32) & 0xFFu32) > 200
    &&& ((v >> 8u32) & 0xFFu32) > 200
    &&& (v & 0xFFu32) > 200
}

/// Smallest box around the text pixels of the icon.
#[derive(Clone, Copy, Debug, PartialEq, Eq)]
pub struct GlyphBox {
    /// Leftmost column.
    pub left: i32,
    /// Rightmost column.
    pub right: i32,
    /// Topmost row.
    pub top: i32,
    /// Bottom row.
    pub bottom: i32,
}

/// Whether pixel (`row`, `col`) of a 16 x 16 row-major image is text.
pub open spec fn text_at(px: Seq<u32>, row: int, col: int) -> bool {
    0 <= row < 16 && 0 <= col < 16 && is_text_pixel(px[row * 16 + col])
}

/// `b` is the smallest box holding every text pixel of `px`.
pub open spec fn is_glyph_box(px: Seq<u32>, b: GlyphBox) -> bool {
    &&& forall|row: int, col: int| #[trigger] text_at(px, row, col) ==> b.left <= col <= b.right && b.top
        <= row <= b.bottom
    &&& exists|row: int| #[trigger] text_at(px, row, b.left as int)
    &&& exists|row: int| #[trigger] text_at(px, row, b.right as int)
    &&& exists|col: int| #[trigger] text_at(px, b.top as int, col)
    &&& exists|col: int| #[trigger] text_at(px, b.bottom as int, col)
}

fn is_text_pixel_exec(v: u32) -> (b: bool)
    ensures
        b == is_text_pixel(v),
{
    let bv = v & 0xFF;
    let gv = (v >> 8u32) & 0xFF;
    let rv = (v >> 16u32) & 0xFF;
    assert(bv < 256 && gv < 256 && rv < 256) by (bit_vector)
        requires
            bv == v & 0xFF,
            gv == (v >> 8u32) & 0xFF,
            rv == (v >> 16u32) & 0xFF,
    ;
    let b = bv as u8;
    let g = gv as u8;
    let r = rv as u8;
    r > 200 && g > 200 && b > 200
}

/// The box around the text drawn into the icon, `None` when nothing was drawn.
pub fn glyph_bounds(px: &[u32]) -> (r: Option<GlyphBox>)
    requires
        px@.len() == 256,
    ensures
        match r {
            Some(b) => is_glyph_box(px@, b),
            None => forall|row: int, col: int| !#[trigger] text_at(px@, row, col),
        },
{
    let mut lo: i32 = 16;
    let mut hi: i32 = -1;
    let mut tr: i32 = 16;
    let mut bo: i32 = -1;
    let ghost mut lo_row: int = 0;
    let ghost mut hi_row: int = 0;
    let ghost mut tr_col: int = 0;
    let ghost mut bo_col: int = 0;
    let mut row: i32 = 0;
    while row < 16
        invariant
            px@.len() == 256,
            0 <= row <= 16,
            forall|r: int, c: int| 0 <= r < row && #[trigger] text_at(px@, r, c) ==> lo <= c <= hi && tr <= r
                <= bo,
            hi < 0 ==> forall|r: int, c: int| 0 <= r < row ==> !#[trigger] text_at(px@, r, c),
            hi >= 0 ==> text_at(px@, lo_row, lo as int) && text_at(px@, hi_row, hi as int) && text_at(
                px@,
                tr as int,
                tr_col,
            ) && text_at(px@, bo as int, bo_col),
            -1 <= hi < 16,
            0 <= lo <= 16,
            -1 <= bo < 16,
            0 <= tr <= 16,
        decreases 16 - row,
    {
        let mut col: i32 = 0;
        while col < 16
            invariant
                px@.len() == 256,
                0 <= row < 16,
                0 <= col <= 16,
                forall|r: int, c: int|
                    (0 <= r < row || (r == row && 0 <= c < col)) && #[trigger] text_at(px@, r, c) ==> lo
                        <= c <= hi && tr <= r <= bo,
                hi < 0 ==> forall|r: int, c: int|
                    (0 <= r < row || (r == row && 0 <= c < col)) ==> !#[trigger] text_at(px@, r, c),
                hi >= 0 ==> text_at(px@, lo_row, lo as int) && text_at(px@, hi_row, hi as int) && text_at(
                    px@,
                    tr as int,
                    tr_col,
                ) && text_at(px@, bo as int, bo_col),
                -1 <= hi < 16,
                0 <= lo <= 16,
                -1 <= bo < 16,
                0 <= tr <= 16,
            decreases 16 - col,
        {
            let v = px[(row * 16 + col) as usize];
            if is_text_pixel_exec(v) {
                assert(text_at(px@, row as int, col as int));
                let first = hi < 0;
                if first || col < lo {
                    lo = col;
                    proof {
                        lo_row = row as int;
                    }
                }
                if first || col > hi {
                    hi = col;
                    proof {
                        hi_row = row as int;
                    }
                }
                if first || row < tr {
                    tr = row;
                    proof {
                        tr_col = col as int;
                    }
                }
                if first || row > bo {
                    bo = row;
                    proof {
                        bo_col = col as int;
                    }
                }
            }
            col += 1;
        }
        row += 1;
    }
    if lo <= hi && tr <= bo {
        let b = GlyphBox { left: lo, right: hi, top: tr, bottom: bo };
        assert(text_at(px@, lo_row, lo as int));
        assert(text_at(px@, hi_row, hi as int));
        assert(text_at(px@, tr as int, tr_col));
        assert(text_at(px@, bo as int, bo_col));
        assert forall|r: int, c: int| #[trigger] text_at(px@, r, c) implies b.left <= c <= b.right && b.top <= r
            <= b.bottom by {
            assert(0 <= r < 16);
        }
        Some(b)
    } else {
        None
    }
}

/// Where to draw the text again so that its box sits in the middle of the
/// icon (rounded towards the top left).
pub fn glyph_origin(b: GlyphBox) -> (o: (i32, i32))
    requires
        0 <= b.left <= b.right < 16,
        0 <= b.top <= b.bottom < 16,
    ensures
        o.0 == (16 - (b.right - b.left + 1)) / 2 - b.left,
        o.1 == (16 - (b.bottom - b.top + 1)) / 2 - b.top,
        ({
            let x = o.0 + b.left;
            0 <= x <= 16 - (b.right - b.left + 1) - x <= x + 1
        }),
        ({
            let y = o.1 + b.top;
            0 <= y <= 16 - (b.bottom - b.top + 1) - y <= y + 1
        }),
{
    let s: i32 = 16;
    let gw = b.right - b.left + 1;
    let gh = b.bottom - b.top + 1;
    ((s - gw) / 2 - b.left, (s - gh) / 2 - b.top)
}

/// The tooltip: physical, virtual and cache use against their totals.
pub open spec fn spec_tooltip_text(s: MemSnapshot) -> Seq<char> {
    "物理 "@ + spec_format_bytes(s.phys_used) + " / "@ + spec_format_bytes(s.phys_total) + "  虚拟 "@
        + spec_format_bytes(s.page_used) + " / "@ + spec_format_bytes(s.page_total) + "  缓存 "@
        + spec_format_bytes(s.cache_used) + " / "@ + spec_format_bytes(s.cache_total)
}

/// The tooltip text of a snapshot.
pub fn tooltip_text(snap: &MemSnapshot) -> (t: String)
    ensures
        t@ == spec_tooltip_text(*snap),
{
    let mut t = String::from_str("物理 ");
    t.append(format_bytes(snap.phys_used).as_str());
    t.append(" / ");
    t.append(format_bytes(snap.phys_total).as_str());
    t.append("  虚拟 ");
    t.append(format_bytes(snap.page_used).as_str());
    t.append(" / ");
    t.append(format_bytes(snap.page_total).as_str());
    t.append("  缓存 ");
    t.append(format_bytes(snap.cache_used).as_str());
    t.append(" / ");
    t.append(format_bytes(snap.cache_total).as_str());
    t
}

/// Size of the tooltip field, terminating NUL included.
pub const TIP_LEN: usize = 128;

/// The tooltip field: as much of the text as fits before the terminating NUL
/// (127 units), the rest zero.
pub open spec fn spec_tip_field(tip: Seq<u16>) -> Seq<u16> {
    let n = if tip.len() < 127 { tip.len() } else { 127 };
    tip.take(n as int) + Seq::new((128 - n) as nat, |i: int| 0u16)
}

/// Fills the tooltip field from UTF-16 text.
pub fn tip_field(tip: &[u16]) -> (f: Vec<u16>)
    ensures
        f@ == spec_tip_field(tip@),
        f@.len() == TIP_LEN,
{
    let n: usize = if tip.len() < 127 { tip.len() } else { 127 };
    let mut f: Vec<u16> = Vec::new();
    let mut i: usize = 0;
    while i < 128
        invariant
            n == (if tip@.len() < 127 { tip@.len() } else { 127 }),
            i <= 128,
            f@.len() == i,
            forall|j: int| 0 <= j < i ==> #[trigger] f@[j] == (if j < n { tip@[j] } else { 0u16 }),
        decreases 128 - i,
    {
        if i < n {
            f.push(tip[i]);
        } else {
            f.push(0);
        }
        i += 1;
    }
    assert(f@ =~= spec_tip_field(tip@));
    f
}

/// What the icon's percentage needs after a refresh.
pub struct TrayIconState {
    /// The percentage the current icon shows.
    pub last_pct: u32,
}

impl TrayIconState {
    /// Records the current percentage; whether the icon must be drawn again
    /// (only when the percentage changed; otherwise only the tooltip is updated).
    pub fn update(&mut self, pct: u32) -> (redraw: bool)
        ensures
            redraw == (old(self).last_pct != pct),
            final(self).last_pct == pct,
    {
        let redraw = self.last_pct != pct;
        self.last_pct = pct;
        redraw
    }
}

/// What a tray menu command asks of the main window.
#[derive(Clone, Copy, Debug, PartialEq, Eq)]
pub enum TrayCommand {
    /// Show the main window.
    Show,
    /// Clean at this strength.
    Clean(usize),
    /// Show the about dialog.
    About,
    /// Quit the application.
    Quit,
}

/// The command a menu selection stands for (the identifier is the low word
/// of the first message parameter).
pub open spec fn spec_tray_command(wparam: usize) -> Option<TrayCommand> {
    let id = wparam & 0xFFFFusize;
    if id == ID_SHOW {
        Some(TrayCommand::Show)
    } else if id == ID_CLEAN_STD {
        Some(TrayCommand::Clean(1))
    } else if id == ID_CLEAN_DEEP {
        Some(TrayCommand::Clean(2))
    } else if id == ID_ABOUT {
        Some(TrayCommand::About)
    } else if id == ID_QUIT {
        Some(TrayCommand::Quit)
    } else {
        None
    }
}

/// The command of a menu selection.
pub fn tray_command(wparam: usize) -> (c: Option<TrayCommand>)
    ensures
        c == spec_tray_command(wparam),
{
    let id = wparam & 0xFFFF;
    if id == ID_SHOW {
        Some(TrayCommand::Show)
    } else if id == ID_CLEAN_STD {
        Some(TrayCommand::Clean(1))
    } else if id == ID_CLEAN_DEEP {
        Some(TrayCommand::Clean(2))
    } else if id == ID_ABOUT {
        Some(TrayCommand::About)
    } else if id == ID_QUIT {
        Some(TrayCommand::Quit)
    } else {
        None
    }
}

/// What a mouse notification of the tray icon asks for.
#[derive(Clone, Copy, Debug, PartialEq, Eq)]
pub enum TrayNotification {
    /// Right click: open the context menu.
    ShowMenu,
    /// Double click: show the main window.
    ShowWindow,
    /// Anything else: nothing.
    Ignore,
}

/// The meaning of a tray icon notification.
pub fn tray_notification(event: u32) -> (n: TrayNotification)
    ensures
        n == (if event == WM_RBUTTONUP {
            TrayNotification::ShowMenu
        } else if event == WM_LBUTTONDBLCLK {
            TrayNotification::ShowWindow
        } else {
            TrayNotification::Ignore
        }),
{
    if event == WM_RBUTTONUP {
        TrayNotification::ShowMenu
    } else if event == WM_LBUTTONDBLCLK {
        TrayNotification::ShowWindow
    } else {
        TrayNotification::Ignore
    }
}

/// An entry of the tray context menu.
#[derive(Clone, Copy, Debug, PartialEq, Eq)]
pub enum MenuEntry {
    /// A command with its identifier and label.
    Item(usize, &'static str),
    /// A dividing line.
    Separator,
}

/// The labels of the context menu, in order.
pub open spec fn menu_spec() -> Seq<(Option<usize>, Seq<char>)> {
    seq![
        (Some(ID_SHOW), "显示窗口"@),
        (None, Seq::empty()),
        (Some(ID_CLEAN_STD), "标准清理"@),
        (Some(ID_CLEAN_DEEP), "深度清理（短暂卡顿）"@),
        (None, Seq::empty()),
        (Some(ID_ABOUT), "关于"@),
        (Some(ID_QUIT), "完全退出"@),
    ]
}

/// An entry as identifier (none for a separator) and label.
pub open spec fn entry_view(e: MenuEntry) -> (Option<usize>, Seq<char>) {
    match e {
        MenuEntry::Item(id, label) => (Some(id), label@),
        MenuEntry::Separator => (None, Seq::empty()),
    }
}

/// The tray context menu: show window, standard and deep cleaning, about, quit.
pub fn tray_menu() -> (m: Vec<MenuEntry>)
    ensures
        m@.map_values(|e: MenuEntry| entry_view(e)) == menu_spec(),
{
    let mut m = Vec::new();
    m.push(MenuEntry::Item(ID_SHOW, "显示窗口"));
    m.push(MenuEntry::Separator);
    m.push(MenuEntry::Item(ID_CLEAN_STD, "标准清理"));
    m.push(MenuEntry::Item(ID_CLEAN_DEEP, "深度清理（短暂卡顿）"));
    m.push(MenuEntry::Separator);
    m.push(MenuEntry::Item(ID_ABOUT, "关于"));
    m.push(MenuEntry::Item(ID_QUIT, "完全退出"));
    assert(m@.map_values(|e: MenuEntry| entry_view(e)) =~= menu_spec());
    m
}

/// Every cleaning offered by the menu carries a valid strength, and the main
/// window cleans at exactly that strength, whatever is configured.
pub proof fn law_menu_cleaning_levels(wparam: usize, configured: Option<u32>)
    ensures
        spec_tray_command(wparam) matches Some(TrayCommand::Clean(l)) ==> 1 <= l <= 2
            && spec_requested_level(l, configured) == l,
{
}

} // verus!
