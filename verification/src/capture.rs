//! Region capture geometry.

use vstd::prelude::*;

use crate::config::Resolution;
use crate::settings::OverlayAnchor;
use crate::unicode::{decode_utf16_lossy, utf16_lossy};

verus! {

/// A sub-rectangle of a capture source, in source pixels.
#[derive(Debug, Clone, Copy, PartialEq, Eq, Structural)]
pub struct CaptureRegion {
    pub x: u32,
    pub y: u32,
    pub width: u32,
    pub height: u32,
}

/// `n` rounded down to an even number.
pub open spec fn even_floor(n: int) -> int {
    n - n % 2
}

pub open spec fn min_int(a: int, b: int) -> int {
    if a < b { a } else { b }
}

/// The region clipped to the source, with even dimensions (NV12 chroma
/// subsampling needs them); `None` when less than a 2x2 block of it lies
/// inside, so that an empty region is never handed on.
pub open spec fn clamp_region(r: CaptureRegion, source: Resolution) -> Option<CaptureRegion> {
    if r.x >= source.width || r.y >= source.height {
        None
    } else {
        let w = min_int(r.width as int, source.width - r.x);
        let h = min_int(r.height as int, source.height - r.y);
        if w < 2 || h < 2 {
            None
        } else {
            Some(CaptureRegion { x: r.x, y: r.y, width: even_floor(w) as u32, height: even_floor(h) as u32 })
        }
    }
}

impl CaptureRegion {
    /// Clamps the region to fit inside the source. `None` tells the caller
    /// to fall back to full-source capture and warn the user.
    pub fn clamped_to(&self, source: Resolution) -> (r: Option<CaptureRegion>)
        ensures
            r == clamp_region(*self, source),
    {
        if self.x >= source.width || self.y >= source.height {
            return None;
        }
        let avail_w = source.width - self.x;
        let avail_h = source.height - self.y;
        let width = if self.width < avail_w { self.width } else { avail_w };
        let height = if self.height < avail_h { self.height } else { avail_h };
        if width < 2 || height < 2 {
            return None;
        }
        Some(CaptureRegion { x: self.x, y: self.y, width: width - width % 2, height: height - height % 2 })
    }
}

/// A clamped region lies entirely inside the source and has even,
/// non-zero dimensions; a region starting outside the source gives `None`.
pub proof fn law_clamped_region_fits(r: CaptureRegion, source: Resolution)
    ensures
        (r.x >= source.width || r.y >= source.height) ==> clamp_region(r, source) is None,
        clamp_region(r, source) matches Some(c) ==> {
            &&& c.x + c.width <= source.width
            &&& c.y + c.height <= source.height
            &&& c.width % 2 == 0
            &&& c.height % 2 == 0
            &&& c.width > 0 && c.height > 0
            &&& c.x == r.x && c.y == r.y
            &&& c.width <= r.width && c.height <= r.height
        },
{
}

/// The source box of a GPU crop of `r`: left, top, right, bottom.
pub fn crop_box(r: CaptureRegion) -> (b: (u32, u32, u32, u32))
    requires
        r.x + r.width <= u32::MAX,
        r.y + r.height <= u32::MAX,
    ensures
        b == (r.x, r.y, (r.x + r.width) as u32, (r.y + r.height) as u32),
{
    (r.x, r.y, r.x + r.width, r.y + r.height)
}

/// Where an overlay of `w` by `h` pixels goes in the output frame for its
/// anchor, kept `margin_x` / `margin_y` pixels from the anchored edges.
pub open spec fn anchored_position(
    anchor: OverlayAnchor,
    output: Resolution,
    w: int,
    h: int,
    margin_x: int,
    margin_y: int,
) -> (int, int) {
    match anchor {
        OverlayAnchor::TopLeft => (margin_x, margin_y),
        OverlayAnchor::TopRight => (output.width - w - margin_x, margin_y),
        OverlayAnchor::BottomLeft => (margin_x, output.height - h - margin_y),
        OverlayAnchor::BottomRight => (output.width - w - margin_x, output.height - h - margin_y),
    }
}

/// Places an overlay by its anchor, in output pixels. The overlay's size
/// and margins are worked out by the caller from the percentages the user
/// set.
pub fn overlay_position(
    anchor: OverlayAnchor,
    output: Resolution,
    w: u32,
    h: u32,
    margin_x: i32,
    margin_y: i32,
) -> (p: (i32, i32))
    requires
        output.width <= i32::MAX,
        output.height <= i32::MAX,
        w <= i32::MAX,
        h <= i32::MAX,
        i32::MIN <= output.width - w - margin_x <= i32::MAX,
        i32::MIN <= output.height - h - margin_y <= i32::MAX,
    ensures
        (p.0 as int, p.1 as int) == anchored_position(anchor, output, w as int, h as int, margin_x as int, margin_y as int),
{
    let ow = output.width as i32;
    let oh = output.height as i32;
    let wi = w as i32;
    let hi = h as i32;
    match anchor {
        OverlayAnchor::TopLeft => (margin_x, margin_y),
        OverlayAnchor::TopRight => (ow - wi - margin_x, margin_y),
        OverlayAnchor::BottomLeft => (margin_x, oh - hi - margin_y),
        OverlayAnchor::BottomRight => (ow - wi - margin_x, oh - hi - margin_y),
    }
}

/// `n` rounded down to even, as the encoder's chroma subsampling needs.
pub fn even_down(n: u32) -> (e: u32)
    ensures
        e == even_floor(n as int),
{
    n - n % 2
}

/// Whether any compositing is needed this frame. Without a webcam or an
/// overlay the captured texture goes to the encoder untouched.
pub fn needs_compositing(webcam_enabled: bool, overlay_count: usize) -> (b: bool)
    ensures
        b == (webcam_enabled || overlay_count > 0),
{
    webcam_enabled || overlay_count > 0
}

/// Something that can be captured: a monitor or a top-level window,
/// identified by its raw handle value.
#[derive(Debug, Clone)]
pub enum CaptureSource {
    Monitor { handle_id: isize, friendly_name: String },
    Window { hwnd_id: isize, title: String },
}

/// The `WS_EX_TOOLWINDOW` extended style bit.
pub open spec fn tool_window_style() -> u32 {
    0x80
}

/// Whether a top-level window is offered for capture: visible, not a
/// tool window (a floating palette), and titled.
pub open spec fn is_capturable_window(visible: bool, ex_style: u32, title_units: Seq<u16>) -> bool {
    visible && ex_style & 0x80u32 == 0 && title_units.len() > 0
}

/// The capture source for a top-level window, from what the window APIs
/// reported: its handle, whether it is visible, its extended style and the
/// UTF-16 units of its title. `None` for windows that are not offered.
pub fn window_source(hwnd_id: isize, visible: bool, ex_style: u32, title_units: &[u16]) -> (r: Option<CaptureSource>)
    ensures
        is_capturable_window(visible, ex_style, title_units@) <==> r is Some,
        r matches Some(CaptureSource::Window { hwnd_id: h, title: t }) ==> h == hwnd_id && t@ == utf16_lossy(title_units@),
        r matches Some(src) ==> src is Window,
{
    if !visible || ex_style & 0x80 != 0 || title_units.len() == 0 {
        return None;
    }
    Some(CaptureSource::Window { hwnd_id, title: decode_utf16_lossy(title_units) })
}

/// The `CURSOR_SHOWING` flag value: the cursor is drawn only when this is
/// exactly what the system reports.
pub fn cursor_showing(flags: u32) -> (b: bool)
    ensures
        b == (flags == 1),
{
    flags == 1
}

/// Where the cursor is drawn in a captured frame: its screen position
/// relative to the captured area's origin.
pub fn cursor_position(screen_x: i32, screen_y: i32, origin_x: i32, origin_y: i32) -> (p: (i32, i32))
    requires
        i32::MIN <= screen_x - origin_x <= i32::MAX,
        i32::MIN <= screen_y - origin_y <= i32::MAX,
    ensures
        p.0 == screen_x - origin_x,
        p.1 == screen_y - origin_y,
{
    (screen_x - origin_x, screen_y - origin_y)
}

/// Whether a mouse button reads as held down: the high bit of its
/// asynchronous key state.
pub fn button_held(key_state: i16) -> (b: bool)
    ensures
        b == (key_state < 0),
{
    key_state < 0
}

/// A click highlight is drawn while either main mouse button is held.
pub fn should_draw_click_highlight(left_state: i16, right_state: i16) -> (b: bool)
    ensures
        b == (left_state < 0 || right_state < 0),
{
    button_held(left_state) || button_held(right_state)
}

/// The size of a captured frame: the content size the frame reports, or
/// the frame pool's size when it reports none; each side read as
/// unsigned.
pub fn captured_frame_size(content_size: Option<(i32, i32)>, pool_size: (i32, i32)) -> (r: Resolution)
    ensures
        r == (match content_size {
            Some((w, h)) => (Resolution { width: w as u32, height: h as u32 }),
            None => (Resolution { width: pool_size.0 as u32, height: pool_size.1 as u32 }),
        }),
{
    let (w, h) = match content_size {
        Some(s) => s,
        None => pool_size,
    };
    Resolution { width: w as u32, height: h as u32 }
}

} // verus!
