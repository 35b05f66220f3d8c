//! Window-side logic: the presentation viewport, mouse-coordinate
//! remapping from the client area to the logical surface, message routing
//! of the relay window procedure, and window placements.
use vstd::prelude::*;
use crate::abi::{Dword, Long, Uint, Rect, WM_ERASEBKGND, WM_PAINT, WM_NCDESTROY, is_mouse_message,
    mouse_message, SWP_FRAMECHANGED, SWP_SHOWWINDOW, SWP_NOSENDCHANGING};
use crate::blit::clamp_spec;

verus! {

pub open spec fn spec_viewport(client_width: i32, client_height: i32, logical_width: i32, logical_height: i32) -> Rect {
    if client_width <= 0 || client_height <= 0 || logical_width <= 0 || logical_height <= 0 {
        Rect {
            left: 0,
            top: 0,
            right: if client_width < 0 { 0 } else { client_width },
            bottom: if client_height < 0 { 0 } else { client_height },
        }
    } else {
        Rect { left: 0, top: 0, right: client_width, bottom: client_height }
    }
}

/// Where the logical surface is shown in the client area: the whole client
/// area (a negative client size counts as empty).
pub fn viewport(client_width: i32, client_height: i32, logical_width: i32, logical_height: i32) -> (r: Rect)
    ensures r == spec_viewport(client_width, client_height, logical_width, logical_height),
{
    if client_width <= 0 || client_height <= 0 || logical_width <= 0 || logical_height <= 0 {
        return Rect {
            left: 0,
            top: 0,
            right: if client_width < 0 { 0 } else { client_width },
            bottom: if client_height < 0 { 0 } else { client_height },
        };
    }
    Rect { left: 0, top: 0, right: client_width, bottom: client_height }
}

/// The low 16 bits of `raw` as a signed value.
pub open spec fn low_word_signed(raw: u32) -> i32 {
    let w = raw % 65536;
    if w >= 32768 { (w - 65536) as i32 } else { w as i32 }
}

/// The mouse position packed in a message's `lParam`: x in the low word,
/// y in the high word, both signed.
pub open spec fn spec_unpack_mouse(lparam: isize) -> (i32, i32) {
    (low_word_signed(lparam as u32), low_word_signed((lparam as u32) / 65536))
}

fn signed_word(w: u32) -> (r: i32)
    requires w < 65536,
    ensures r == low_word_signed(w),
{
    if w >= 32768 { w as i32 - 65536 } else { w as i32 }
}

pub fn unpack_mouse(lparam: isize) -> (r: (i32, i32))
    ensures r == spec_unpack_mouse(lparam),
{
    let raw = lparam as u32;
    (signed_word(raw % 65536), signed_word(raw / 65536))
}

/// `v` limited to the range of `i16`.
pub open spec fn clamp16(v: i32) -> int {
    clamp_spec(v as int, -32768, 32767)
}

/// The 16-bit two's-complement word of a value in the `i16` range.
pub open spec fn word_of(v: int) -> int {
    if v < 0 { v + 65536 } else { v }
}

pub open spec fn spec_pack_mouse(x: i32, y: i32) -> isize {
    ((word_of(clamp16(x)) + 65536 * word_of(clamp16(y))) as u32) as isize
}

/// Packs a position into an `lParam`, each coordinate limited to `i16`.
pub fn pack_mouse(x: i32, y: i32) -> (r: isize)
    ensures r == spec_pack_mouse(x, y),
{
    let cx: i32 = if x < -32768 { -32768 } else if x > 32767 { 32767 } else { x };
    let cy: i32 = if y < -32768 { -32768 } else if y > 32767 { 32767 } else { y };
    let low: u32 = if cx < 0 { (cx + 65536) as u32 } else { cx as u32 };
    let high: u32 = if cy < 0 { (cy + 65536) as u32 } else { cy as u32 };
    let combined: u32 = low + 65536 * high;
    combined as isize
}

proof fn lemma_u32_isize_round_trip(c: u32)
    ensures ((c as isize) as u32) == c,
{
    assert(((c as isize) as u32) == c) by (bit_vector);
}

/// Unpacking a packed position gives back each coordinate limited to `i16`.
pub proof fn law_mouse_pack_round_trip(x: i32, y: i32)
    ensures
        spec_unpack_mouse(spec_pack_mouse(x, y)).0 == clamp16(x),
        spec_unpack_mouse(spec_pack_mouse(x, y)).1 == clamp16(y),
{
    let c = (word_of(clamp16(x)) + 65536 * word_of(clamp16(y))) as u32;
    lemma_u32_isize_round_trip(c);
    assert(c == word_of(clamp16(x)) + 65536 * word_of(clamp16(y)));
    assert(c % 65536 == word_of(clamp16(x))) by {
        vstd::arithmetic::div_mod::lemma_fundamental_div_mod_converse(c as int, 65536, word_of(clamp16(y)), word_of(clamp16(x)));
    }
    assert(c / 65536 == word_of(clamp16(y))) by {
        vstd::arithmetic::div_mod::lemma_fundamental_div_mod_converse(c as int, 65536, word_of(clamp16(y)), word_of(clamp16(x)));
    }
}

/// One mouse coordinate mapped from the viewport to the logical surface,
/// limited to `0..=logical - 1`.
pub open spec fn mouse_axis(v: int, origin: int, extent: int, logical: Dword) -> int {
    clamp_spec((v - origin) * logical / extent, 0, if logical == 0 { 0 } else { logical - 1 })
}

pub open spec fn spec_remap_mouse(lparam: isize, client_width: i32, client_height: i32, logical_width: Dword, logical_height: Dword) -> isize {
    let view = spec_viewport(client_width, client_height, logical_width as i32, logical_height as i32);
    if view.spec_width() <= 0 || view.spec_height() <= 0 {
        lparam
    } else {
        let (x, y) = spec_unpack_mouse(lparam);
        spec_pack_mouse(
            mouse_axis(x as int, view.left as int, view.spec_width() as int, logical_width) as i32,
            mouse_axis(y as int, view.top as int, view.spec_height() as int, logical_height) as i32,
        )
    }
}

fn map_axis(v: i32, origin: i32, extent: i32, logical: Dword) -> (r: i32)
    requires
        extent > 0,
        origin == 0,
        -32768 <= v <= 32767,
    ensures
        r == mouse_axis(v as int, origin as int, extent as int, logical) as i32,
{
    let d: i64 = v as i64 - origin as i64;
    assert(-0x8000_0000_0000 <= d * (logical as i64) <= 0x8000_0000_0000) by (nonlinear_arith)
        requires -32768 <= d <= 32767, 0 <= logical <= 0xffff_ffff;
    let num: i64 = d * logical as i64;
    let hi: i64 = if logical == 0 { 0 } else { (logical - 1) as i64 };
    let q: i64 = if num < 0 { 0 } else { num / extent as i64 };
    proof {
        if num < 0 {
            assert((num as int) / (extent as int) <= 0) by (nonlinear_arith)
                requires num < 0, extent > 0;
        }
    }
    let c: i64 = if q < 0 { 0 } else if q > hi { hi } else { q };
    c as i32
}

/// Maps a mouse position in client coordinates to logical-surface
/// coordinates; the message is left as it is when the viewport is empty.
pub fn remap_mouse(lparam: isize, client_width: i32, client_height: i32, logical_width: Dword, logical_height: Dword) -> (r: isize)
    ensures r == spec_remap_mouse(lparam, client_width, client_height, logical_width, logical_height),
{
    let view = viewport(client_width, client_height, logical_width as i32, logical_height as i32);
    let vw = view.width();
    let vh = view.height();
    if vw <= 0 || vh <= 0 {
        return lparam;
    }
    let (x, y) = unpack_mouse(lparam);
    let lx = map_axis(x, view.left, vw, logical_width);
    let ly = map_axis(y, view.top, vh, logical_height);
    pack_mouse(lx, ly)
}

/// A remapped mouse position always lies on the logical surface (for any
/// logical size whose largest coordinate fits an `i32`).
pub proof fn law_remapped_mouse_on_surface(lparam: isize, cw: i32, ch: i32, lw: Dword, lh: Dword)
    requires
        cw > 0,
        ch > 0,
        1 <= lw <= 0x8000_0000,
        1 <= lh <= 0x8000_0000,
    ensures
        0 <= spec_unpack_mouse(spec_remap_mouse(lparam, cw, ch, lw, lh)).0 < lw,
        0 <= spec_unpack_mouse(spec_remap_mouse(lparam, cw, ch, lw, lh)).1 < lh,
{
    let view = spec_viewport(cw, ch, lw as i32, lh as i32);
    let (x, y) = spec_unpack_mouse(lparam);
    let mx = mouse_axis(x as int, view.left as int, view.spec_width() as int, lw) as i32;
    let my = mouse_axis(y as int, view.top as int, view.spec_height() as int, lh) as i32;
    law_mouse_pack_round_trip(mx, my);
}

/// How the relay window procedure treats a message.
#[derive(Clone, Copy, Debug, PartialEq, Eq, Structural)]
pub enum MessageRoute {
    /// `WM_ERASEBKGND`: reported as handled; the presenter covers the client area.
    SuppressErase,
    /// `WM_PAINT`: the primary surface is presented into the paint DC.
    Paint,
    /// Anything else goes to the engine's window procedure, mouse positions
    /// remapped first; after `WM_NCDESTROY` the relay is removed.
    Forward { remap_mouse: bool, destroy: bool },
}

pub open spec fn spec_route_message(message: Uint) -> MessageRoute {
    if message == WM_ERASEBKGND {
        MessageRoute::SuppressErase
    } else if message == WM_PAINT {
        MessageRoute::Paint
    } else {
        MessageRoute::Forward { remap_mouse: is_mouse_message(message), destroy: message == WM_NCDESTROY }
    }
}

pub fn route_message(message: Uint) -> (r: MessageRoute)
    ensures r == spec_route_message(message),
{
    if message == WM_ERASEBKGND {
        MessageRoute::SuppressErase
    } else if message == WM_PAINT {
        MessageRoute::Paint
    } else {
        MessageRoute::Forward { remap_mouse: mouse_message(message), destroy: message == WM_NCDESTROY }
    }
}

/// What installing the relay window procedure does.
#[derive(Clone, Copy, Debug, PartialEq, Eq, Structural)]
pub enum RelayPlan {
    /// No window: nothing happens.
    Ignore,
    /// The window is already relayed: only the active state is updated.
    AlreadyHooked,
    /// The relay is already the window procedure: record the window as hooked.
    AdoptCurrent,
    /// Subclass the window, remembering its current procedure.
    Subclass,
}

pub open spec fn spec_relay_plan(hwnd: usize, hooked: usize, current: usize, relay: usize) -> RelayPlan {
    if hwnd == 0 {
        RelayPlan::Ignore
    } else if hooked == hwnd {
        RelayPlan::AlreadyHooked
    } else if current == relay {
        RelayPlan::AdoptCurrent
    } else {
        RelayPlan::Subclass
    }
}

pub fn relay_plan(hwnd: usize, hooked: usize, current: usize, relay: usize) -> (r: RelayPlan)
    ensures r == spec_relay_plan(hwnd, hooked, current, relay),
{
    if hwnd == 0 {
        RelayPlan::Ignore
    } else if hooked == hwnd {
        RelayPlan::AlreadyHooked
    } else if current == relay {
        RelayPlan::AdoptCurrent
    } else {
        RelayPlan::Subclass
    }
}

/// Style, extended style and `SetWindowPos` arguments for a window.
#[derive(Clone, Copy, Debug, PartialEq, Eq, Structural)]
pub struct Placement {
    pub style: Long,
    pub ex_style: Long,
    pub x: i32,
    pub y: i32,
    pub width: i32,
    pub height: i32,
    pub flags: Uint,
}

/// `WS_POPUP | WS_VISIBLE`.
pub const BORDERLESS_STYLE: Long = -1879048192;
/// `SWP_FRAMECHANGED | SWP_SHOWWINDOW | SWP_NOSENDCHANGING`.
pub const PLACEMENT_FLAGS: Uint = 0x0000_0460;

/// A borderless popup covering the whole monitor.
pub fn borderless_placement(monitor: Rect) -> (r: Placement)
    ensures
        r == (Placement {
            style: BORDERLESS_STYLE,
            ex_style: 0,
            x: monitor.left,
            y: monitor.top,
            width: monitor.spec_width(),
            height: monitor.spec_height(),
            flags: PLACEMENT_FLAGS,
        }),
{
    Placement {
        style: BORDERLESS_STYLE,
        ex_style: 0,
        x: monitor.left,
        y: monitor.top,
        width: monitor.width(),
        height: monitor.height(),
        flags: PLACEMENT_FLAGS,
    }
}

/// The saved style and rectangle, each dimension at least 1.
pub fn restore_placement(style: Long, ex_style: Long, rect: Rect) -> (r: Placement)
    ensures
        r == (Placement {
            style,
            ex_style,
            x: rect.left,
            y: rect.top,
            width: if rect.spec_width() < 1 { 1 } else { rect.spec_width() },
            height: if rect.spec_height() < 1 { 1 } else { rect.spec_height() },
            flags: PLACEMENT_FLAGS,
        }),
{
    let w = rect.width();
    let h = rect.height();
    Placement {
        style,
        ex_style,
        x: rect.left,
        y: rect.top,
        width: if w < 1 { 1 } else { w },
        height: if h < 1 { 1 } else { h },
        flags: PLACEMENT_FLAGS,
    }
}

} // verus!
