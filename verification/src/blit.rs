//! Software pixel operations on surface memory: native pixel encoding,
//! colour fill, scaled copy with source colour keys, and buffer exchange.
//!
//! A surface's pixels live in a byte buffer whose index 0 is the logical
//! pixel (0, 0); row `y` starts `y * pitch` bytes later and each pixel takes
//! `bytes_per_pixel(bpp)` bytes, stored little-endian.
use vstd::prelude::*;
use vstd::arithmetic::div_mod::{lemma_fundamental_div_mod, lemma_fundamental_div_mod_converse};
use crate::abi::{Dword, Rect, Hresult, DD_OK, E_NOTIMPL, DdColorKey};

verus! {

/// Largest accepted surface width or height.
pub const MAX_SURFACE_DIMENSION: u32 = 16_384;

pub open spec fn spec_bytes_per_pixel(bpp: Dword) -> int {
    if bpp == 8 { 1 } else if bpp == 16 { 2 } else if bpp == 24 { 3 } else { 4 }
}

/// Bytes taken by one pixel of the given depth; unknown depths take four.
pub fn bytes_per_pixel(bpp: Dword) -> (r: usize)
    ensures r == spec_bytes_per_pixel(bpp),
{
    match bpp {
        8 => 1,
        16 => 2,
        24 => 3,
        _ => 4,
    }
}

pub open spec fn spec_normalized_bpp(bpp: Dword) -> Dword {
    if bpp == 8 || bpp == 16 || bpp == 24 || bpp == 32 { bpp } else { 32 }
}

/// The supported depths are kept; any other depth becomes 32.
pub fn normalized_bpp(bpp: Dword) -> (r: Dword)
    ensures r == spec_normalized_bpp(bpp),
{
    match bpp {
        8 | 16 | 24 | 32 => bpp,
        _ => 32,
    }
}

pub open spec fn is_supported_bpp(bpp: Dword) -> bool {
    bpp == 8 || bpp == 16 || bpp == 24 || bpp == 32
}

pub open spec fn clamp_spec(v: int, lo: int, hi: int) -> int {
    if v < lo { lo } else if v > hi { hi } else { v }
}

pub open spec fn spec_clamp_rect(rect: Rect, width: Dword, height: Dword) -> Rect {
    Rect {
        left: clamp_spec(rect.left as int, 0, width as int) as i32,
        top: clamp_spec(rect.top as int, 0, height as int) as i32,
        right: clamp_spec(rect.right as int, 0, width as int) as i32,
        bottom: clamp_spec(rect.bottom as int, 0, height as int) as i32,
    }
}

fn clamp_i32(v: i32, lo: i32, hi: i32) -> (r: i32)
    requires lo <= hi,
    ensures r == clamp_spec(v as int, lo as int, hi as int),
{
    if v < lo { lo } else if v > hi { hi } else { v }
}

/// Clamps every edge of `rect` into `0..=width` and `0..=height`.
pub fn clamp_rect(rect: Rect, width: Dword, height: Dword) -> (r: Rect)
    requires
        width <= i32::MAX,
        height <= i32::MAX,
    ensures
        r == spec_clamp_rect(rect, width, height),
{
    Rect {
        left: clamp_i32(rect.left, 0, width as i32),
        top: clamp_i32(rect.top, 0, height as i32),
        right: clamp_i32(rect.right, 0, width as i32),
        bottom: clamp_i32(rect.bottom, 0, height as i32),
    }
}

pub open spec fn nonneg(v: int) -> int {
    if v < 0 { 0 } else { v }
}

/// Area of the part of `rect` that lies on a `width` x `height` surface.
pub open spec fn spec_overlap_area(rect: Rect, width: Dword, height: Dword) -> int {
    let c = spec_clamp_rect(rect, width, height);
    nonneg(c.spec_width() as int) * nonneg(c.spec_height() as int)
}

pub fn overlap_area(rect: Rect, width: Dword, height: Dword) -> (r: i64)
    requires
        width <= i32::MAX,
        height <= i32::MAX,
    ensures
        r == spec_overlap_area(rect, width, height),
{
    let clipped = clamp_rect(rect, width, height);
    let w = clipped.width();
    let h = clipped.height();
    let w: i64 = if w < 0 { 0 } else { w as i64 };
    let h: i64 = if h < 0 { 0 } else { h as i64 };
    assert(0 <= w * h <= 0x7fff_ffff * 0x7fff_ffff) by (nonlinear_arith)
        requires 0 <= w <= 0x7fff_ffff, 0 <= h <= 0x7fff_ffff;
    w * h
}

/// Where a surface's logical pixels lie in its byte buffer.
#[derive(Clone, Copy, Debug, PartialEq, Eq, Structural)]
pub struct PixelGeometry {
    pub width: Dword,
    pub height: Dword,
    pub bpp: Dword,
    pub pitch: usize,
}

impl PixelGeometry {
    pub open spec fn bytes(self) -> int {
        spec_bytes_per_pixel(self.bpp)
    }

    /// The geometry describes a buffer of `len` bytes.
    pub open spec fn fits(self, len: int) -> bool {
        &&& is_supported_bpp(self.bpp)
        &&& self.width <= MAX_SURFACE_DIMENSION
        &&& self.height <= MAX_SURFACE_DIMENSION
        &&& 0 < self.pitch
        &&& self.width * self.bytes() <= self.pitch
        &&& self.pitch <= i32::MAX
        &&& self.height * self.pitch <= len
    }

    /// Byte offset of pixel (x, y).
    pub open spec fn offset(self, x: int, y: int) -> int {
        y * self.pitch + x * self.bytes()
    }

    pub open spec fn row_of(self, i: int) -> int {
        i / (self.pitch as int)
    }

    pub open spec fn col_of(self, i: int) -> int {
        (i % (self.pitch as int)) / self.bytes()
    }

    pub open spec fn lane_of(self, i: int) -> int {
        (i % (self.pitch as int)) % self.bytes()
    }
}

/// Each byte index is the offset of its (column, row) plus its lane.
pub proof fn lemma_encode(g: PixelGeometry, i: int)
    requires
        0 < g.pitch,
        is_supported_bpp(g.bpp),
        0 <= i,
    ensures
        i == g.offset(g.col_of(i), g.row_of(i)) + g.lane_of(i),
        0 <= g.lane_of(i) < g.bytes(),
        0 <= g.col_of(i),
        0 <= g.row_of(i),
        g.col_of(i) * g.bytes() + g.lane_of(i) < g.pitch,
{
    let p = g.pitch as int;
    let b = g.bytes();
    lemma_fundamental_div_mod(i, p);
    lemma_fundamental_div_mod(i % p, b);
    assert(i == p * (i / p) + i % p);
    assert(i % p == b * ((i % p) / b) + (i % p) % b);
    assert(0 <= i % p < p) by {
        vstd::arithmetic::div_mod::lemma_mod_bound(i, p);
    }
    assert(0 <= (i % p) % b < b) by {
        vstd::arithmetic::div_mod::lemma_mod_bound(i % p, b);
    }
    assert(0 <= i / p) by {
        vstd::arithmetic::div_mod::lemma_div_pos_is_pos(i, p);
    }
    assert(0 <= (i % p) / b) by {
        vstd::arithmetic::div_mod::lemma_div_pos_is_pos(i % p, b);
    }
    assert(p * (i / p) == (i / p) * p) by (nonlinear_arith);
    assert(b * ((i % p) / b) == ((i % p) / b) * b) by (nonlinear_arith);
}

/// The byte `k` of pixel (x, y) decodes back to (x, y, k).
pub proof fn lemma_decode(g: PixelGeometry, x: int, y: int, k: int)
    requires
        0 < g.pitch,
        is_supported_bpp(g.bpp),
        g.width * g.bytes() <= g.pitch,
        0 <= x < g.width,
        0 <= y,
        0 <= k < g.bytes(),
    ensures
        g.row_of(g.offset(x, y) + k) == y,
        g.col_of(g.offset(x, y) + k) == x,
        g.lane_of(g.offset(x, y) + k) == k,
{
    let p = g.pitch as int;
    let b = g.bytes();
    let w = g.width as int;
    assert(x * b + k < p) by (nonlinear_arith)
        requires 0 <= x < w, 0 <= k < b, w * b <= p;
    assert(0 <= x * b + k) by (nonlinear_arith)
        requires 0 <= x, 0 <= k, 0 < b;
    let i = g.offset(x, y) + k;
    assert(i == y * p + (x * b + k));
    lemma_fundamental_div_mod_converse(i, p, y, x * b + k);
    lemma_fundamental_div_mod_converse(x * b + k, b, x, k);
}

/// Pixel (x, y) lies wholly inside the logical rows of the buffer.
pub proof fn lemma_offset_bounds(g: PixelGeometry, x: int, y: int, len: int)
    requires
        g.fits(len),
        0 <= x < g.width,
        0 <= y < g.height,
    ensures
        0 <= g.offset(x, y),
        g.offset(x, y) + g.bytes() <= g.height * g.pitch,
        g.height * g.pitch <= len,
{
    let p = g.pitch as int;
    let b = g.bytes();
    let w = g.width as int;
    let h = g.height as int;
    assert(x * b + b <= p) by (nonlinear_arith)
        requires 0 <= x < w, 0 < b, w * b <= p;
    assert(y * p + p <= h * p) by (nonlinear_arith)
        requires 0 <= y < h, 0 < p;
    assert(0 <= y * p) by (nonlinear_arith)
        requires 0 <= y, 0 < p;
    assert(0 <= x * b) by (nonlinear_arith)
        requires 0 <= x, 0 < b;
}

pub open spec fn pow256(k: int) -> int {
    if k == 0 { 1 } else if k == 1 { 256 } else if k == 2 { 65536 } else { 16777216 }
}

/// Little-endian value of the `n` bytes of `s` starting at `off`.
pub open spec fn le_value(s: Seq<u8>, off: int, n: int) -> int {
    if n == 1 {
        s[off] as int
    } else if n == 2 {
        s[off] + 256 * s[off + 1]
    } else if n == 3 {
        s[off] + 256 * s[off + 1] + 65536 * s[off + 2]
    } else {
        s[off] + 256 * s[off + 1] + 65536 * s[off + 2] + 16777216 * s[off + 3]
    }
}

/// Byte `k` of the little-endian encoding of `value`.
pub open spec fn le_byte(value: u32, k: int) -> u8 {
    ((value as int / pow256(k)) % 256) as u8
}

/// Reads one pixel of `bytes` bytes at `off`, little-endian.
pub fn read_native(buf: &[u8], off: usize, bytes: usize) -> (r: u32)
    requires
        1 <= bytes <= 4,
        off + bytes <= buf@.len(),
    ensures
        r == le_value(buf@, off as int, bytes as int),
{
    let b0 = buf[off] as u32;
    if bytes == 1 {
        return b0;
    }
    let b1 = buf[off + 1] as u32;
    if bytes == 2 {
        return b0 + 256 * b1;
    }
    let b2 = buf[off + 2] as u32;
    if bytes == 3 {
        return b0 + 256 * b1 + 65536 * b2;
    }
    let b3 = buf[off + 3] as u32;
    b0 + 256 * b1 + 65536 * b2 + 16777216 * b3
}

/// Writes the low `bytes` bytes of `value` at `off`, little-endian; no
/// other byte changes.
pub fn write_native(buf: &mut [u8], off: usize, bytes: usize, value: u32)
    requires
        1 <= bytes <= 4,
        off + bytes <= old(buf)@.len(),
    ensures
        final(buf)@.len() == old(buf)@.len(),
        forall|j: int| 0 <= j < old(buf)@.len() ==> #[trigger] final(buf)@[j] == if off <= j < off + bytes {
            le_byte(value, j - off)
        } else {
            old(buf)@[j]
        },
{
    buf[off] = (value % 256) as u8;
    if bytes >= 2 {
        buf[off + 1] = ((value / 256) % 256) as u8;
    }
    if bytes >= 3 {
        buf[off + 2] = ((value / 65536) % 256) as u8;
    }
    if bytes >= 4 {
        buf[off + 3] = ((value / 16777216) % 256) as u8;
    }
}

/// The bytes of pixel (cx, cy) are exactly the indices that decode to it.
pub proof fn lemma_pixel_bytes(g: PixelGeometry, cx: int, cy: int, i: int)
    requires
        0 < g.pitch,
        is_supported_bpp(g.bpp),
        g.width * g.bytes() <= g.pitch,
        0 <= cx < g.width,
        0 <= cy,
        0 <= i,
    ensures
        (g.offset(cx, cy) <= i < g.offset(cx, cy) + g.bytes()) <==> (g.col_of(i) == cx && g.row_of(i) == cy),
        (g.col_of(i) == cx && g.row_of(i) == cy) ==> g.lane_of(i) == i - g.offset(cx, cy),
{
    lemma_encode(g, i);
    if g.offset(cx, cy) <= i < g.offset(cx, cy) + g.bytes() {
        lemma_decode(g, cx, cy, i - g.offset(cx, cy));
    }
}

pub open spec fn in_rect(r: Rect, x: int, y: int) -> bool {
    r.left <= x < r.right && r.top <= y < r.bottom
}

/// Pixel (x, y) is visited before the scan position (cx, cy) in row-major order.
pub open spec fn before(x: int, y: int, cx: int, cy: int) -> bool {
    y < cy || (y == cy && x < cx)
}

/// The content of byte `i` after filling `rect` (clipped to the surface)
/// with the native encoding of `value`.
pub open spec fn fill_byte(old: Seq<u8>, g: PixelGeometry, rect: Rect, value: u32, i: int) -> u8 {
    if in_rect(spec_clamp_rect(rect, g.width, g.height), g.col_of(i), g.row_of(i)) {
        le_byte(value, g.lane_of(i))
    } else {
        old[i]
    }
}

/// Fills the part of `rect` that lies on the surface with `value`.
pub fn fill_native(buf: &mut [u8], g: PixelGeometry, rect: Rect, value: Dword) -> (hr: Hresult)
    requires
        g.fits(old(buf)@.len() as int),
    ensures
        hr == DD_OK,
        final(buf)@.len() == old(buf)@.len(),
        forall|i: int| 0 <= i < old(buf)@.len() ==> #[trigger] final(buf)@[i] == fill_byte(old(buf)@, g, rect, value, i),
{
    let ghost old_buf = buf@;
    // Asking for the length brings in that it fits in a usize.
    let _ = buf.len();
    assert(old_buf.len() <= usize::MAX);
    let c = clamp_rect(rect, g.width, g.height);
    if c.width() <= 0 || c.height() <= 0 {
        assert forall|i: int| 0 <= i < old_buf.len() implies #[trigger] buf@[i] == fill_byte(old_buf, g, rect, value, i) by {
            assert(!in_rect(c, g.col_of(i), g.row_of(i)));
        }
        return DD_OK;
    }
    let bytes = bytes_per_pixel(g.bpp);
    let mut y: i32 = c.top;
    while y < c.bottom
        invariant
            g.fits(old_buf.len() as int),
            old_buf.len() <= usize::MAX,
            c == spec_clamp_rect(rect, g.width, g.height),
            0 <= c.left <= c.right <= g.width,
            0 <= c.top <= y <= c.bottom <= g.height,
            bytes == g.bytes(),
            buf@.len() == old_buf.len(),
            forall|i: int| 0 <= i < old_buf.len() ==> #[trigger] buf@[i] == if before(g.col_of(i), g.row_of(i), c.left as int, y as int) {
                fill_byte(old_buf, g, rect, value, i)
            } else {
                old_buf[i]
            },
        decreases c.bottom - y,
    {
        let mut x: i32 = c.left;
        while x < c.right
            invariant
                g.fits(old_buf.len() as int),
                old_buf.len() <= usize::MAX,
                c == spec_clamp_rect(rect, g.width, g.height),
                0 <= c.left <= x <= c.right <= g.width,
                0 <= c.top <= y < c.bottom <= g.height,
                bytes == g.bytes(),
                buf@.len() == old_buf.len(),
                forall|i: int| 0 <= i < old_buf.len() ==> #[trigger] buf@[i] == if before(g.col_of(i), g.row_of(i), x as int, y as int) {
                    fill_byte(old_buf, g, rect, value, i)
                } else {
                    old_buf[i]
                },
            decreases c.right - x,
        {
            proof {
                lemma_offset_bounds(g, x as int, y as int, old_buf.len() as int);
            }
            let off = y as usize * g.pitch + x as usize * bytes;
            let ghost prev = buf@;
            write_native(buf, off, bytes, value);
            assert forall|i: int| 0 <= i < old_buf.len() implies #[trigger] buf@[i] == if before(g.col_of(i), g.row_of(i), x + 1, y as int) {
                fill_byte(old_buf, g, rect, value, i)
            } else {
                old_buf[i]
            } by {
                lemma_pixel_bytes(g, x as int, y as int, i);
                assert(prev[i] == if before(g.col_of(i), g.row_of(i), x as int, y as int) {
                    fill_byte(old_buf, g, rect, value, i)
                } else {
                    old_buf[i]
                });
            }
            x = x + 1;
        }
        assert forall|i: int| 0 <= i < old_buf.len() implies #[trigger] buf@[i] == if before(g.col_of(i), g.row_of(i), c.left as int, y + 1) {
            fill_byte(old_buf, g, rect, value, i)
        } else {
            old_buf[i]
        } by {
            if g.row_of(i) == y && g.col_of(i) >= c.right {
                assert(fill_byte(old_buf, g, rect, value, i) == old_buf[i]);
            }
            if g.row_of(i) == y + 1 && g.col_of(i) < c.left {
                assert(fill_byte(old_buf, g, rect, value, i) == old_buf[i]);
            }
        }
        y = y + 1;
    }
    assert forall|i: int| 0 <= i < old_buf.len() implies #[trigger] buf@[i] == fill_byte(old_buf, g, rect, value, i) by {
        if !before(g.col_of(i), g.row_of(i), c.left as int, y as int) {
            assert(!in_rect(c, g.col_of(i), g.row_of(i)));
        }
    }
    DD_OK
}

/// Copies `n` bytes from `src[soff..]` to `dst[doff..]`; no other byte changes.
pub fn copy_bytes(dst: &mut [u8], doff: usize, src: &[u8], soff: usize, n: usize)
    requires
        doff + n <= old(dst)@.len(),
        soff + n <= src@.len(),
    ensures
        final(dst)@.len() == old(dst)@.len(),
        forall|j: int| 0 <= j < old(dst)@.len() ==> #[trigger] final(dst)@[j] == if doff <= j < doff + n {
            src@[soff + j - doff]
        } else {
            old(dst)@[j]
        },
{
    let ghost old_dst = dst@;
    // Asking for the lengths brings in that they fit in a usize.
    let _ = dst.len();
    let _ = src.len();
    let mut k: usize = 0;
    while k < n
        invariant
            k <= n,
            old_dst.len() <= usize::MAX,
            src@.len() <= usize::MAX,
            doff + n <= old_dst.len(),
            soff + n <= src@.len(),
            dst@.len() == old_dst.len(),
            forall|j: int| 0 <= j < old_dst.len() ==> #[trigger] dst@[j] == if doff <= j < doff + k {
                src@[soff + j - doff]
            } else {
                old_dst[j]
            },
        decreases n - k,
    {
        dst[doff + k] = src[soff + k];
        k = k + 1;
    }
}

/// Nearest-neighbour sampling: the source coordinate for the destination
/// coordinate `rel` steps past the destination origin.
pub open spec fn sample(origin: int, rel: int, src_extent: int, dst_extent: int) -> int {
    origin + rel * src_extent / dst_extent
}

/// Both rectangles have a positive width and height.
pub open spec fn blit_dims_ok(dst_rect: Rect, src_rect: Rect) -> bool {
    &&& dst_rect.spec_width() > 0
    &&& dst_rect.spec_height() > 0
    &&& src_rect.spec_width() > 0
    &&& src_rect.spec_height() > 0
}

/// Source column sampled for destination column `x`; the scale comes from
/// the unclipped rectangles.
pub open spec fn source_col(dst_rect: Rect, src_rect: Rect, x: int) -> int {
    sample(src_rect.left as int, x - dst_rect.left, src_rect.spec_width() as int, dst_rect.spec_width() as int)
}

/// Source row sampled for destination row `y`.
pub open spec fn source_row(dst_rect: Rect, src_rect: Rect, y: int) -> int {
    sample(src_rect.top as int, y - dst_rect.top, src_rect.spec_height() as int, dst_rect.spec_height() as int)
}

pub open spec fn keyed(key: Option<DdColorKey>, v: int) -> bool {
    key matches Some(k) && k.low <= v <= k.high
}

/// Destination pixel (x, y) receives a source pixel: it lies in the
/// clipped destination, its sample lies on the source, and the sampled
/// value is not covered by the source colour key.
pub open spec fn copies_pixel(
    src: Seq<u8>,
    dg: PixelGeometry,
    dst_rect: Rect,
    sg: PixelGeometry,
    src_rect: Rect,
    key: Option<DdColorKey>,
    x: int,
    y: int,
) -> bool {
    let sx = source_col(dst_rect, src_rect, x);
    let sy = source_row(dst_rect, src_rect, y);
    &&& blit_dims_ok(dst_rect, src_rect)
    &&& in_rect(spec_clamp_rect(dst_rect, dg.width, dg.height), x, y)
    &&& 0 <= sx < sg.width
    &&& 0 <= sy < sg.height
    &&& !keyed(key, le_value(src, sg.offset(sx, sy), sg.bytes()))
}

/// The content of destination byte `i` after a scaled copy.
pub open spec fn blit_byte(
    old: Seq<u8>,
    src: Seq<u8>,
    dg: PixelGeometry,
    dst_rect: Rect,
    sg: PixelGeometry,
    src_rect: Rect,
    key: Option<DdColorKey>,
    i: int,
) -> u8 {
    let x = dg.col_of(i);
    let y = dg.row_of(i);
    if copies_pixel(src, dg, dst_rect, sg, src_rect, key, x, y) {
        src[sg.offset(source_col(dst_rect, src_rect, x), source_row(dst_rect, src_rect, y)) + dg.lane_of(i)]
    } else {
        old[i]
    }
}

/// A clipped row or column never starts before the rectangle it clips.
proof fn lemma_clip_start(lo: int, hi: int, extent: int)
    requires
        0 <= extent,
        lo < hi,
        clamp_spec(lo, 0, extent) < clamp_spec(hi, 0, extent),
    ensures
        lo <= clamp_spec(lo, 0, extent),
        clamp_spec(hi, 0, extent) <= hi,
{
}

/// Scaled copy of `src_rect` of the source onto `dst_rect` of the
/// destination, nearest-neighbour, optionally skipping source pixels whose
/// value lies in the source colour-key range. Only the destination
/// iteration area is clipped; the scale always comes from the unclipped
/// rectangles, and samples that fall off the source are skipped.
pub fn copy_scaled(
    dst: &mut [u8],
    dg: PixelGeometry,
    dst_rect: Rect,
    src: &[u8],
    sg: PixelGeometry,
    src_rect: Rect,
    source_key: Option<DdColorKey>,
) -> (hr: Hresult)
    requires
        dg.fits(old(dst)@.len() as int),
        sg.fits(src@.len() as int),
    ensures
        final(dst)@.len() == old(dst)@.len(),
        dg.bpp != sg.bpp ==> hr == E_NOTIMPL && final(dst)@ == old(dst)@,
        dg.bpp == sg.bpp ==> hr == DD_OK && forall|i: int| 0 <= i < old(dst)@.len() ==>
            #[trigger] final(dst)@[i] == blit_byte(old(dst)@, src@, dg, dst_rect, sg, src_rect, source_key, i),
{
    let ghost old_dst = dst@;
    // Asking for the lengths brings in that they fit in a usize.
    let _ = dst.len();
    let _ = src.len();
    assert(old_dst.len() <= usize::MAX);
    assert(src@.len() <= usize::MAX);
    if dg.bpp != sg.bpp {
        return E_NOTIMPL;
    }
    let dw = dst_rect.width();
    let dh = dst_rect.height();
    let sw = src_rect.width();
    let sh = src_rect.height();
    if dw <= 0 || dh <= 0 || sw <= 0 || sh <= 0 {
        return DD_OK;
    }
    let c = clamp_rect(dst_rect, dg.width, dg.height);
    if c.width() <= 0 || c.height() <= 0 {
        assert forall|i: int| 0 <= i < old_dst.len() implies #[trigger] dst@[i]
            == blit_byte(old_dst, src@, dg, dst_rect, sg, src_rect, source_key, i) by {
            assert(!in_rect(c, dg.col_of(i), dg.row_of(i)));
        }
        return DD_OK;
    }
    proof {
        lemma_clip_start(dst_rect.left as int, dst_rect.right as int, dg.width as int);
        lemma_clip_start(dst_rect.top as int, dst_rect.bottom as int, dg.height as int);
    }
    let bytes = bytes_per_pixel(dg.bpp);
    let mut y: i32 = c.top;
    while y < c.bottom
        invariant
            dg.fits(old_dst.len() as int),
            sg.fits(src@.len() as int),
            dg.bpp == sg.bpp,
            old_dst.len() <= usize::MAX,
            src@.len() <= usize::MAX,
            blit_dims_ok(dst_rect, src_rect),
            dw == dst_rect.spec_width(),
            dh == dst_rect.spec_height(),
            sw == src_rect.spec_width(),
            sh == src_rect.spec_height(),
            c == spec_clamp_rect(dst_rect, dg.width, dg.height),
            0 <= c.left <= c.right <= dg.width,
            0 <= c.top <= y <= c.bottom <= dg.height,
            dst_rect.left <= c.left,
            dst_rect.top <= c.top,
            bytes == dg.bytes(),
            dst@.len() == old_dst.len(),
            forall|i: int| 0 <= i < old_dst.len() ==> #[trigger] dst@[i] == if before(dg.col_of(i), dg.row_of(i), c.left as int, y as int) {
                blit_byte(old_dst, src@, dg, dst_rect, sg, src_rect, source_key, i)
            } else {
                old_dst[i]
            },
        decreases c.bottom - y,
    {
        let rel_y: u64 = (y as i64 - dst_rect.top as i64) as u64;
        assert(rel_y * (sh as u64) <= 0x8000_4000u64 * 0x7fff_ffffu64) by (nonlinear_arith)
            requires rel_y <= 0x8000_4000u64, (sh as u64) <= 0x7fff_ffffu64;
        let qy: u64 = rel_y * (sh as u64) / (dh as u64);
        assert(qy <= rel_y * (sh as u64)) by (nonlinear_arith)
            requires dh >= 1, qy == (rel_y * (sh as u64)) as int / (dh as int);
        let sy: i64 = src_rect.top as i64 + qy as i64;
        assert(sy == source_row(dst_rect, src_rect, y as int));
        if 0 <= sy && sy < sg.height as i64 {
            let mut x: i32 = c.left;
            while x < c.right
                invariant
                    dg.fits(old_dst.len() as int),
                    sg.fits(src@.len() as int),
                    dg.bpp == sg.bpp,
                    old_dst.len() <= usize::MAX,
                    src@.len() <= usize::MAX,
                    blit_dims_ok(dst_rect, src_rect),
                    dw == dst_rect.spec_width(),
                    dh == dst_rect.spec_height(),
                    sw == src_rect.spec_width(),
                    sh == src_rect.spec_height(),
                    c == spec_clamp_rect(dst_rect, dg.width, dg.height),
                    0 <= c.left <= x <= c.right <= dg.width,
                    0 <= c.top <= y < c.bottom <= dg.height,
                    dst_rect.left <= c.left,
                    dst_rect.top <= c.top,
                    sy == source_row(dst_rect, src_rect, y as int),
                    0 <= sy < sg.height,
                    bytes == dg.bytes(),
                    dst@.len() == old_dst.len(),
                    forall|i: int| 0 <= i < old_dst.len() ==> #[trigger] dst@[i] == if before(dg.col_of(i), dg.row_of(i), x as int, y as int) {
                        blit_byte(old_dst, src@, dg, dst_rect, sg, src_rect, source_key, i)
                    } else {
                        old_dst[i]
                    },
                decreases c.right - x,
            {
                let rel_x: u64 = (x as i64 - dst_rect.left as i64) as u64;
                assert(rel_x * (sw as u64) <= 0x8000_4000u64 * 0x7fff_ffffu64) by (nonlinear_arith)
                    requires rel_x <= 0x8000_4000u64, (sw as u64) <= 0x7fff_ffffu64;
                let qx: u64 = rel_x * (sw as u64) / (dw as u64);
                assert(qx <= rel_x * (sw as u64)) by (nonlinear_arith)
                    requires dw >= 1, qx == (rel_x * (sw as u64)) as int / (dw as int);
                let sx: i64 = src_rect.left as i64 + qx as i64;
                assert(sx == source_col(dst_rect, src_rect, x as int));
                let ghost prev = dst@;
                let mut wrote = false;
                if 0 <= sx && sx < sg.width as i64 {
                    proof {
                        lemma_offset_bounds(sg, sx as int, sy as int, src@.len() as int);
                    }
                    let soff = sy as usize * sg.pitch + sx as usize * bytes;
                    let value = read_native(src, soff, bytes);
                    let is_keyed = match source_key {
                        Some(k) => value >= k.low && value <= k.high,
                        None => false,
                    };
                    if !is_keyed {
                        proof {
                            lemma_offset_bounds(dg, x as int, y as int, old_dst.len() as int);
                        }
                        let doff = y as usize * dg.pitch + x as usize * bytes;
                        copy_bytes(dst, doff, src, soff, bytes);
                        wrote = true;
                        assert forall|i: int| 0 <= i < old_dst.len() implies #[trigger] dst@[i] == if before(dg.col_of(i), dg.row_of(i), x + 1, y as int) {
                            blit_byte(old_dst, src@, dg, dst_rect, sg, src_rect, source_key, i)
                        } else {
                            old_dst[i]
                        } by {
                            lemma_pixel_bytes(dg, x as int, y as int, i);
                            assert(prev[i] == if before(dg.col_of(i), dg.row_of(i), x as int, y as int) {
                                blit_byte(old_dst, src@, dg, dst_rect, sg, src_rect, source_key, i)
                            } else {
                                old_dst[i]
                            });
                            if dg.col_of(i) == x && dg.row_of(i) == y {
                                assert(copies_pixel(src@, dg, dst_rect, sg, src_rect, source_key, x as int, y as int));
                            }
                        }
                    }
                }
                if !wrote {
                    assert forall|i: int| 0 <= i < old_dst.len() implies #[trigger] dst@[i] == if before(dg.col_of(i), dg.row_of(i), x + 1, y as int) {
                        blit_byte(old_dst, src@, dg, dst_rect, sg, src_rect, source_key, i)
                    } else {
                        old_dst[i]
                    } by {
                        assert(prev[i] == if before(dg.col_of(i), dg.row_of(i), x as int, y as int) {
                            blit_byte(old_dst, src@, dg, dst_rect, sg, src_rect, source_key, i)
                        } else {
                            old_dst[i]
                        });
                        if dg.col_of(i) == x && dg.row_of(i) == y {
                            assert(!copies_pixel(src@, dg, dst_rect, sg, src_rect, source_key, x as int, y as int));
                        }
                    }
                }
                x = x + 1;
            }
        }
        assert forall|i: int| 0 <= i < old_dst.len() implies #[trigger] dst@[i] == if before(dg.col_of(i), dg.row_of(i), c.left as int, y + 1) {
            blit_byte(old_dst, src@, dg, dst_rect, sg, src_rect, source_key, i)
        } else {
            old_dst[i]
        } by {
            if dg.row_of(i) == y {
                if !(0 <= sy < sg.height) || dg.col_of(i) >= c.right {
                    assert(!copies_pixel(src@, dg, dst_rect, sg, src_rect, source_key, dg.col_of(i), dg.row_of(i)));
                }
            }
            if dg.row_of(i) == y + 1 && dg.col_of(i) < c.left {
                assert(!copies_pixel(src@, dg, dst_rect, sg, src_rect, source_key, dg.col_of(i), dg.row_of(i)));
            }
        }
        y = y + 1;
    }
    assert forall|i: int| 0 <= i < old_dst.len() implies #[trigger] dst@[i]
        == blit_byte(old_dst, src@, dg, dst_rect, sg, src_rect, source_key, i) by {
        if !before(dg.col_of(i), dg.row_of(i), c.left as int, y as int) {
            assert(!in_rect(c, dg.col_of(i), dg.row_of(i)));
        }
    }
    DD_OK
}

/// Scaled copy where source and destination are the same surface: the
/// source is read from the surface as it was before the copy started.
pub fn copy_scaled_within(
    buf: &mut [u8],
    g: PixelGeometry,
    dst_rect: Rect,
    src_rect: Rect,
    source_key: Option<DdColorKey>,
) -> (hr: Hresult)
    requires
        g.fits(old(buf)@.len() as int),
    ensures
        hr == DD_OK,
        final(buf)@.len() == old(buf)@.len(),
        forall|i: int| 0 <= i < old(buf)@.len() ==>
            #[trigger] final(buf)@[i] == blit_byte(old(buf)@, old(buf)@, g, dst_rect, g, src_rect, source_key, i),
{
    let ghost old_buf = buf@;
    // Asking for the length brings in that it fits in a usize.
    let _ = buf.len();
    assert(g.height * g.pitch <= usize::MAX);
    let n: usize = g.height as usize * g.pitch;
    let snapshot: Vec<u8> = vstd::slice::slice_to_vec(vstd::slice::slice_subrange(buf, 0, n));
    let ghost snap = snapshot@;
    assert(snap == old_buf.subrange(0, n as int));
    let hr = copy_scaled(buf, g, dst_rect, snapshot.as_slice(), g, src_rect, source_key);
    assert forall|i: int| 0 <= i < old_buf.len() implies #[trigger] buf@[i]
        == blit_byte(old_buf, old_buf, g, dst_rect, g, src_rect, source_key, i) by {
        let x = g.col_of(i);
        let y = g.row_of(i);
        let sx = source_col(dst_rect, src_rect, x);
        let sy = source_row(dst_rect, src_rect, y);
        if 0 <= sx < g.width && 0 <= sy < g.height {
            lemma_offset_bounds(g, sx, sy, old_buf.len() as int);
            let o = g.offset(sx, sy);
            assert(le_value(snap, o, g.bytes()) == le_value(old_buf, o, g.bytes()));
            lemma_encode(g, i);
            assert(snap[o + g.lane_of(i)] == old_buf[o + g.lane_of(i)]);
        }
    }
    hr
}

/// Exchanges the contents of two equally long buffers.
pub fn swap_contents(front: &mut [u8], back: &mut [u8])
    requires
        old(front)@.len() == old(back)@.len(),
    ensures
        final(front)@ == old(back)@,
        final(back)@ == old(front)@,
{
    let ghost f0 = front@;
    let ghost b0 = back@;
    let n = front.len();
    let mut i: usize = 0;
    while i < n
        invariant
            n == f0.len(),
            f0.len() == b0.len(),
            i <= n,
            front@.len() == n,
            back@.len() == n,
            forall|j: int| 0 <= j < i ==> #[trigger] front@[j] == b0[j],
            forall|j: int| 0 <= j < i ==> #[trigger] back@[j] == f0[j],
            forall|j: int| i <= j < n ==> #[trigger] front@[j] == f0[j],
            forall|j: int| i <= j < n ==> #[trigger] back@[j] == b0[j],
        decreases n - i,
    {
        let t = front[i];
        front[i] = back[i];
        back[i] = t;
        i = i + 1;
    }
    assert(front@ =~= b0);
    assert(back@ =~= f0);
}

/// An unscaled copy (equal source and destination sizes) samples, for
/// each destination pixel, the source pixel at the same offset from the
/// rectangle's corner; clipping the destination never changes this
/// mapping.
pub proof fn law_unscaled_copy_is_a_shift(dst_rect: Rect, src_rect: Rect, x: int, y: int)
    requires
        blit_dims_ok(dst_rect, src_rect),
        dst_rect.spec_width() == src_rect.spec_width(),
        dst_rect.spec_height() == src_rect.spec_height(),
        dst_rect.left <= x,
        dst_rect.top <= y,
    ensures
        source_col(dst_rect, src_rect, x) == src_rect.left + (x - dst_rect.left),
        source_row(dst_rect, src_rect, y) == src_rect.top + (y - dst_rect.top),
{
    let rx = x - dst_rect.left;
    let ry = y - dst_rect.top;
    let w = dst_rect.spec_width() as int;
    let h = dst_rect.spec_height() as int;
    assert(rx * w / w == rx) by {
        vstd::arithmetic::div_mod::lemma_div_by_multiple(rx, w);
    }
    assert(ry * h / h == ry) by {
        vstd::arithmetic::div_mod::lemma_div_by_multiple(ry, h);
    }
}

/// Writing a pixel value and reading it back gives the value reduced to the
/// pixel's width.
pub proof fn law_native_round_trip(value: u32, n: int)
    requires 1 <= n <= 4,
    ensures
        le_value(Seq::new(n as nat, |k: int| le_byte(value, k)), 0, n) == value as int % (pow256(n - 1) * 256),
{
    let v = value as int;
    let s = Seq::new(n as nat, |k: int| le_byte(value, k));
    let b0 = v % 256;
    let b1 = (v / 256) % 256;
    let b2 = (v / 65536) % 256;
    let b3 = (v / 16777216) % 256;
    assert(s[0] == b0);
    vstd::arithmetic::div_mod::lemma_fundamental_div_mod(v, 256);
    vstd::arithmetic::div_mod::lemma_fundamental_div_mod(v / 256, 256);
    vstd::arithmetic::div_mod::lemma_fundamental_div_mod(v / 65536, 256);
    vstd::arithmetic::div_mod::lemma_div_denominator(v, 256, 256);
    vstd::arithmetic::div_mod::lemma_div_denominator(v, 65536, 256);
    vstd::arithmetic::div_mod::lemma_mod_bound(v, 256);
    vstd::arithmetic::div_mod::lemma_mod_bound(v / 256, 256);
    vstd::arithmetic::div_mod::lemma_mod_bound(v / 65536, 256);
    assert(0 <= v / 16777216 < 256) by {
        vstd::arithmetic::div_mod::lemma_div_pos_is_pos(v, 16777216);
        vstd::arithmetic::div_mod::lemma_div_is_ordered(v, 0xffff_ffff, 16777216);
    }
    vstd::arithmetic::div_mod::lemma_small_mod((v / 16777216) as nat, 256);
    if n == 1 {
        assert(le_value(s, 0, 1) == b0);
    } else if n == 2 {
        assert(s[1] == b1);
        assert(v % 65536 == b0 + 256 * b1) by {
            vstd::arithmetic::div_mod::lemma_breakdown(v, 256, 256);
        }
    } else if n == 3 {
        assert(s[1] == b1);
        assert(s[2] == b2);
        assert(v % 65536 == b0 + 256 * b1) by {
            vstd::arithmetic::div_mod::lemma_breakdown(v, 256, 256);
        }
        assert(v % 16777216 == v % 65536 + 65536 * b2) by {
            vstd::arithmetic::div_mod::lemma_breakdown(v, 65536, 256);
        }
    } else {
        assert(s[1] == b1);
        assert(s[2] == b2);
        assert(s[3] == b3);
        assert(v % 65536 == b0 + 256 * b1) by {
            vstd::arithmetic::div_mod::lemma_breakdown(v, 256, 256);
        }
        assert(v % 16777216 == v % 65536 + 65536 * b2) by {
            vstd::arithmetic::div_mod::lemma_breakdown(v, 65536, 256);
        }
        assert(v == 16777216 * (v / 16777216) + v % 16777216) by {
            vstd::arithmetic::div_mod::lemma_fundamental_div_mod(v, 16777216);
        }
        assert(v % 4294967296 == v) by {
            vstd::arithmetic::div_mod::lemma_small_mod(v as nat, 4294967296);
        }
    }
}

/// The source colour key is inclusive at both ends: a destination pixel
/// whose sampled source value `v` has `key.low <= v <= key.high` keeps all
/// its bytes, so a single-colour key `{ low: c, high: c }` never paints a
/// source pixel of colour `c`.
pub proof fn law_color_key_range_is_transparent(
    old: Seq<u8>,
    src: Seq<u8>,
    dg: PixelGeometry,
    dst_rect: Rect,
    sg: PixelGeometry,
    src_rect: Rect,
    key: DdColorKey,
    i: int,
)
    requires
        0 <= source_col(dst_rect, src_rect, dg.col_of(i)) < sg.width,
        0 <= source_row(dst_rect, src_rect, dg.row_of(i)) < sg.height,
        key.low <= le_value(src, sg.offset(source_col(dst_rect, src_rect, dg.col_of(i)),
            source_row(dst_rect, src_rect, dg.row_of(i))), sg.bytes()) <= key.high,
    ensures
        blit_byte(old, src, dg, dst_rect, sg, src_rect, Some(key), i) == old[i],
{
}

/// A single-colour key `{ low: c, high: c }` makes exactly the pixels of
/// colour `c` transparent: such a pixel is never written, and any other
/// sampled pixel inside the clipped destination is copied.
pub proof fn law_single_colour_key(
    old: Seq<u8>,
    src: Seq<u8>,
    dg: PixelGeometry,
    dst_rect: Rect,
    sg: PixelGeometry,
    src_rect: Rect,
    c: u32,
    i: int,
)
    requires
        blit_dims_ok(dst_rect, src_rect),
        in_rect(spec_clamp_rect(dst_rect, dg.width, dg.height), dg.col_of(i), dg.row_of(i)),
        0 <= source_col(dst_rect, src_rect, dg.col_of(i)) < sg.width,
        0 <= source_row(dst_rect, src_rect, dg.row_of(i)) < sg.height,
    ensures
        ({
            let o = sg.offset(source_col(dst_rect, src_rect, dg.col_of(i)), source_row(dst_rect, src_rect, dg.row_of(i)));
            let r = blit_byte(old, src, dg, dst_rect, sg, src_rect, Some(DdColorKey { low: c, high: c }), i);
            &&& le_value(src, o, sg.bytes()) == c ==> r == old[i]
            &&& le_value(src, o, sg.bytes()) != c ==> r == src[o + dg.lane_of(i)]
        }),
{
}

/// Without a colour key every destination pixel of the clipped rectangle
/// whose sample lies on the source receives that source pixel's bytes.
pub proof fn law_unkeyed_copy_writes_samples(
    old: Seq<u8>,
    src: Seq<u8>,
    dg: PixelGeometry,
    dst_rect: Rect,
    sg: PixelGeometry,
    src_rect: Rect,
    i: int,
)
    requires
        blit_dims_ok(dst_rect, src_rect),
        in_rect(spec_clamp_rect(dst_rect, dg.width, dg.height), dg.col_of(i), dg.row_of(i)),
        0 <= source_col(dst_rect, src_rect, dg.col_of(i)) < sg.width,
        0 <= source_row(dst_rect, src_rect, dg.row_of(i)) < sg.height,
    ensures
        blit_byte(old, src, dg, dst_rect, sg, src_rect, None, i)
            == src[sg.offset(source_col(dst_rect, src_rect, dg.col_of(i)), source_row(dst_rect, src_rect, dg.row_of(i)))
                + dg.lane_of(i)],
{
}

} // verus!
