//! About dialog: layout, placement, link hit testing and the conversion of
//! decoded images into bitmap pixels.

use vstd::prelude::*;
use crate::ui::window::Rect;

verus! {

/// Integer division by two rounding towards zero (Rust's `/` on signed integers).
pub open spec fn half_toward_zero(a: int) -> int {
    if a >= 0 {
        a / 2
    } else {
        -((-a) / 2)
    }
}

/// Side of a QR code image.
pub const QR_SIZE: i32 = 200;
/// Gap between the two QR codes.
pub const QR_GAP: i32 = 40;
/// Dialog width: both codes, the gap and a 20-pixel margin on each side.
pub const DIALOG_W: i32 = 480;
/// Initial dialog height.
pub const DIALOG_H: i32 = 500;
/// Side margin of the dialog content.
pub const DIALOG_MARGIN: i32 = 20;

/// Top of each element of the dialog, from the top of its client area.
pub const TITLE_Y: i32 = 16;
pub const LINK_Y: i32 = 50;
pub const COPYRIGHT_Y: i32 = 94;
pub const EMAIL_Y: i32 = 116;
pub const LICENSE_Y: i32 = 138;
pub const SPONSOR_Y: i32 = 182;
pub const QR_LABEL_Y: i32 = 206;
pub const QR_Y: i32 = 226;
/// Height of the content: the QR codes end at 426, followed by 8 pixels.
pub const CONTENT_BOTTOM: i32 = 434;
/// Height of the repository link.
pub const LINK_H: i32 = 20;

/// Horizontal placement of the dialog elements for a client area `cw`
/// pixels wide and a link text `link_text_w` pixels wide.
#[derive(Clone, Copy, Debug, PartialEq, Eq)]
pub struct AboutLayout {
    /// Width of the centred text lines.
    pub content_w: i32,
    /// Left edge of the link.
    pub link_x: i32,
    /// Width of the link (its text and 8 pixels).
    pub link_w: i32,
    /// Left edge of the first QR code.
    pub qr_x: i32,
    /// Left edge of the second QR code.
    pub qr2_x: i32,
}

impl AboutLayout {
    /// Centres the link within the content and the two QR codes within the
    /// client area (each rounded towards zero).
    pub fn compute(cw: i32, link_text_w: i32) -> (l: AboutLayout)
        requires
            i32::MIN + 2 * DIALOG_MARGIN <= cw,
            link_text_w <= i32::MAX - 8,
            i32::MIN <= cw - 2 * DIALOG_MARGIN - (link_text_w + 8) <= i32::MAX,
            cw - 2 * QR_SIZE - QR_GAP >= i32::MIN,
            cw <= i32::MAX,
        ensures
            l.content_w == cw - 2 * DIALOG_MARGIN,
            l.link_w == link_text_w + 8,
            l.link_x == half_toward_zero(l.content_w - l.link_w) + DIALOG_MARGIN,
            l.qr_x == half_toward_zero(cw - (2 * QR_SIZE + QR_GAP)),
            l.qr2_x == l.qr_x + QR_SIZE + QR_GAP,
    {
        let content_w = cw - DIALOG_MARGIN * 2;
        let link_w = link_text_w + 8;
        let link_x = (content_w - link_w) / 2 + DIALOG_MARGIN;
        let qr_total = QR_SIZE * 2 + QR_GAP;
        let qr_x = (cw - qr_total) / 2;
        AboutLayout { content_w, link_x, link_w, qr_x, qr2_x: qr_x + QR_SIZE + QR_GAP }
    }
}

/// Height of the dialog: its content plus the frame (window height minus
/// client height).
pub fn dialog_height(window: Rect, client: Rect) -> (h: i32)
    requires
        i32::MIN <= window.bottom - window.top <= i32::MAX,
        i32::MIN <= client.bottom - client.top <= i32::MAX,
        i32::MIN <= (window.bottom - window.top) - (client.bottom - client.top) <= i32::MAX,
        i32::MIN <= CONTENT_BOTTOM + (window.bottom - window.top) - (client.bottom - client.top)
            <= i32::MAX,
    ensures
        h == CONTENT_BOTTOM + (window.bottom - window.top) - (client.bottom - client.top),
{
    let non_client_h = (window.bottom - window.top) - (client.bottom - client.top);
    CONTENT_BOTTOM + non_client_h
}

/// The top-left position that centres a window of the size of `window` in
/// the work area (rounded towards zero).
pub fn centered_position(work_area: Rect, window: Rect) -> (p: (i32, i32))
    requires
        i32::MIN <= window.right - window.left <= i32::MAX,
        i32::MIN <= window.bottom - window.top <= i32::MAX,
        i32::MIN <= work_area.right - work_area.left <= i32::MAX,
        i32::MIN <= work_area.bottom - work_area.top <= i32::MAX,
        i32::MIN <= work_area.right - work_area.left - (window.right - window.left) <= i32::MAX,
        i32::MIN <= work_area.bottom - work_area.top - (window.bottom - window.top) <= i32::MAX,
        i32::MIN <= half_toward_zero(work_area.right - work_area.left - (window.right - window.left))
            + work_area.left <= i32::MAX,
        i32::MIN <= half_toward_zero(work_area.bottom - work_area.top - (window.bottom - window.top))
            + work_area.top <= i32::MAX,
    ensures
        p.0 == half_toward_zero(work_area.right - work_area.left - (window.right - window.left))
            + work_area.left,
        p.1 == half_toward_zero(work_area.bottom - work_area.top - (window.bottom - window.top))
            + work_area.top,
{
    let ww = window.right - window.left;
    let wh = window.bottom - window.top;
    let x = (work_area.right - work_area.left - ww) / 2 + work_area.left;
    let y = (work_area.bottom - work_area.top - wh) / 2 + work_area.top;
    (x, y)
}

/// A 16-bit word read as a signed number.
pub open spec fn signed_word(w: int) -> int {
    if w >= 0x8000 {
        w - 0x10000
    } else {
        w
    }
}

/// The client coordinates a mouse message carries: the low and high words of
/// its second parameter, each a signed 16-bit number.
pub fn mouse_point(lparam: isize) -> (p: (i32, i32))
    ensures
        p.0 == signed_word((lparam & 0xFFFFisize) as int),
        p.1 == signed_word(((lparam >> 16u32) & 0xFFFFisize) as int),
{
    let lo = lparam & 0xFFFF;
    let hi = (lparam >> 16u32) & 0xFFFF;
    proof {
        assert(0 <= lo < 0x10000 && 0 <= hi < 0x10000) by (bit_vector)
            requires
                lo == lparam & 0xFFFFisize,
                hi == (lparam >> 16u32) & 0xFFFFisize,
        ;
    }
    let x: i32 = if lo >= 0x8000 { (lo - 0x10000) as i32 } else { lo as i32 };
    let y: i32 = if hi >= 0x8000 { (hi - 0x10000) as i32 } else { hi as i32 };
    (x, y)
}

/// Text colour of the repository link (`COLORREF`): red while the mouse is
/// over it, blue otherwise.
pub fn link_text_color(hover: bool) -> (c: u32)
    ensures
        c == (if hover { 0x0000_00FFu32 } else { 0x00FF_0000u32 }),
{
    if hover {
        0x0000_00FF
    } else {
        0x00FF_0000
    }
}

/// Whether a point lies within the link (left and top edges included).
pub fn point_in_link(mx: i32, my: i32, x: i32, y: i32, w: i32, h: i32) -> (b: bool)
    requires
        i32::MIN <= x + w <= i32::MAX,
        i32::MIN <= y + h <= i32::MAX,
    ensures
        b == (x <= mx < x + w && y <= my < y + h),
{
    mx >= x && mx < x + w && my >= y && my < y + h
}

/// A decoded RGBA pixel as a 32-bit DIB pixel (blue, green, red, alpha from
/// the low byte up).
pub open spec fn bgra_of(r: u8, g: u8, b: u8, a: u8) -> u32 {
    (b + 256 * g + 65536 * r + 16777216 * a) as u32
}

/// Bitmap pixels of decoded RGBA bytes: one pixel per whole group of four
/// bytes, at most `count` of them.
pub open spec fn spec_bgra_pixels(raw: Seq<u8>, count: nat) -> Seq<u32> {
    let n = if raw.len() / 4 < count { raw.len() / 4 } else { count };
    Seq::new(n, |i: int| bgra_of(raw[4 * i], raw[4 * i + 1], raw[4 * i + 2], raw[4 * i + 3]))
}

fn bgra(r: u8, g: u8, b: u8, a: u8) -> (p: u32)
    ensures
        p == bgra_of(r, g, b, a),
{
    let p = (b as u32) | (g as u32) << 8u32 | (r as u32) << 16u32 | (a as u32) << 24u32;
    assert(((b as u32) | (g as u32) << 8u32 | (r as u32) << 16u32 | (a as u32) << 24u32) == b + 256 * g
        + 65536 * r + 16777216 * a) by (bit_vector);
    p
}

/// Converts decoded RGBA bytes into bitmap pixels, for an image of `count`
/// pixels.
pub fn bgra_pixels(raw: &[u8], count: usize) -> (px: Vec<u32>)
    ensures
        px@ == spec_bgra_pixels(raw@, count as nat),
{
    let n: usize = if raw.len() / 4 < count { raw.len() / 4 } else { count };
    let mut px: Vec<u32> = Vec::new();
    let mut i: usize = 0;
    while i < n
        invariant
            n == (if raw@.len() / 4 < count { raw@.len() / 4 } else { count as nat }),
            i <= n,
            n <= raw.len() / 4,
            raw.len() == raw@.len(),
            px@.len() == i,
            forall|j: int| 0 <= j < i ==> #[trigger] px@[j] == bgra_of(
                raw@[4 * j],
                raw@[4 * j + 1],
                raw@[4 * j + 2],
                raw@[4 * j + 3],
            ),
        decreases n - i,
    {
        assert(4 * i + 3 < raw.len());
        let k = 4 * i;
        px.push(bgra(raw[k], raw[k + 1], raw[k + 2], raw[k + 3]));
        i += 1;
    }
    assert(px@ =~= spec_bgra_pixels(raw@, count as nat));
    px
}

} // verus!
