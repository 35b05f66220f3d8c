//! Pixel formats and the layout of the padded device-independent bitmap
//! that backs every surface, including its `BITMAPINFO` bytes.
use vstd::prelude::*;
use crate::abi::{Dword, BitmapInfoHeader, DdPixelFormat, PaletteEntry, RgbQuad, Hresult,
    E_INVALIDARG, BI_RGB, BI_BITFIELDS, BITMAP_INFO_HEADER_SIZE, DD_PIXEL_FORMAT_SIZE, DDPF_RGB};
use crate::blit::{PixelGeometry, MAX_SURFACE_DIMENSION, spec_normalized_bpp, normalized_bpp,
    spec_bytes_per_pixel, bytes_per_pixel, is_supported_bpp, le_byte};

verus! {

/// `DDPF_RGB | DDPF_PALETTEINDEXED8`.
pub const DDPF_RGB_PALETTEINDEXED8: Dword = 0x0000_0060;

/// Pixels of padding on each side of a row.
pub const GUARD_PIXELS: usize = 64;
/// Rows of padding above and below the logical surface.
pub const GUARD_ROWS: usize = 64;
/// Largest accepted size of a backing bitmap.
pub const MAX_SURFACE_BYTES: usize = 536_870_912;

/// The DirectDraw pixel format reported for a surface of the given depth.
pub open spec fn spec_pixel_format(bpp: Dword) -> DdPixelFormat {
    let b = spec_normalized_bpp(bpp);
    if b == 8 {
        DdPixelFormat { size: DD_PIXEL_FORMAT_SIZE, flags: DDPF_RGB_PALETTEINDEXED8, four_cc: 0, rgb_bit_count: 8,
            r_mask: 0, g_mask: 0, b_mask: 0, a_mask: 0 }
    } else if b == 16 {
        DdPixelFormat { size: DD_PIXEL_FORMAT_SIZE, flags: DDPF_RGB, four_cc: 0, rgb_bit_count: 16,
            r_mask: 0xF800, g_mask: 0x07E0, b_mask: 0x001F, a_mask: 0 }
    } else {
        DdPixelFormat { size: DD_PIXEL_FORMAT_SIZE, flags: DDPF_RGB, four_cc: 0, rgb_bit_count: b,
            r_mask: 0x00FF_0000, g_mask: 0x0000_FF00, b_mask: 0x0000_00FF, a_mask: 0 }
    }
}

pub fn pixel_format(bpp: Dword) -> (r: DdPixelFormat)
    ensures r == spec_pixel_format(bpp),
{
    let bpp = normalized_bpp(bpp);
    match bpp {
        8 => DdPixelFormat { size: DD_PIXEL_FORMAT_SIZE, flags: DDPF_RGB_PALETTEINDEXED8, four_cc: 0,
            rgb_bit_count: 8, r_mask: 0, g_mask: 0, b_mask: 0, a_mask: 0 },
        16 => DdPixelFormat { size: DD_PIXEL_FORMAT_SIZE, flags: DDPF_RGB, four_cc: 0, rgb_bit_count: 16,
            r_mask: 0xF800, g_mask: 0x07E0, b_mask: 0x001F, a_mask: 0 },
        24 => DdPixelFormat { size: DD_PIXEL_FORMAT_SIZE, flags: DDPF_RGB, four_cc: 0, rgb_bit_count: 24,
            r_mask: 0x00FF_0000, g_mask: 0x0000_FF00, b_mask: 0x0000_00FF, a_mask: 0 },
        _ => DdPixelFormat { size: DD_PIXEL_FORMAT_SIZE, flags: DDPF_RGB, four_cc: 0, rgb_bit_count: 32,
            r_mask: 0x00FF_0000, g_mask: 0x0000_FF00, b_mask: 0x0000_00FF, a_mask: 0 },
    }
}

/// Geometry of a surface's padded backing bitmap.
#[derive(Clone, Copy, Debug, PartialEq, Eq, Structural)]
pub struct DibLayout {
    pub width: Dword,
    pub height: Dword,
    pub bpp: Dword,
    pub pitch: usize,
    pub storage_width: usize,
    pub storage_height: usize,
    pub guard_x: usize,
    pub guard_y: usize,
    pub image_bytes: usize,
    pub logical_offset: usize,
}

/// Row length in bytes, rounded up to a multiple of four.
pub open spec fn spec_pitch(storage_width: int, bpp: int) -> int {
    (storage_width * bpp + 31) / 32 * 4
}

/// The bitmap for a `width` x `height` surface can be made.
pub open spec fn dib_layout_ok(width: Dword, height: Dword, bpp: Dword) -> bool {
    let b = spec_normalized_bpp(bpp) as int;
    let sw = width + 2 * GUARD_PIXELS;
    let sh = height + 2 * GUARD_ROWS;
    &&& 0 < width <= MAX_SURFACE_DIMENSION
    &&& 0 < height <= MAX_SURFACE_DIMENSION
    &&& spec_pitch(sw, b) * sh <= MAX_SURFACE_BYTES
}

pub open spec fn spec_dib_layout(width: Dword, height: Dword, bpp: Dword) -> DibLayout {
    let b = spec_normalized_bpp(bpp);
    let sw = width + 2 * GUARD_PIXELS;
    let sh = height + 2 * GUARD_ROWS;
    let pitch = spec_pitch(sw, b as int);
    DibLayout {
        width,
        height,
        bpp: b,
        pitch: pitch as usize,
        storage_width: sw as usize,
        storage_height: sh as usize,
        guard_x: GUARD_PIXELS,
        guard_y: GUARD_ROWS,
        image_bytes: (pitch * sh) as usize,
        logical_offset: (GUARD_ROWS * pitch + GUARD_PIXELS * spec_bytes_per_pixel(b)) as usize,
    }
}

impl DibLayout {
    /// How the logical pixels lie in the buffer that starts at `logical_offset`.
    pub open spec fn spec_geometry(self) -> PixelGeometry {
        PixelGeometry { width: self.width, height: self.height, bpp: self.bpp, pitch: self.pitch }
    }

    pub fn geometry(&self) -> (g: PixelGeometry)
        ensures g == self.spec_geometry(),
    {
        PixelGeometry { width: self.width, height: self.height, bpp: self.bpp, pitch: self.pitch }
    }

    /// Bytes from the logical origin to the end of the bitmap.
    pub open spec fn logical_len(self) -> int {
        self.image_bytes - self.logical_offset
    }
}

/// A padded row always holds the pixels of the whole row.
proof fn lemma_pitch_holds_row(sw: int, b: int, bytes: int)
    requires
        0 < sw,
        1 <= bytes <= 4,
        b == 8 * bytes,
    ensures
        sw * bytes <= spec_pitch(sw, b),
        spec_pitch(sw, b) <= sw * bytes + 4,
        spec_pitch(sw, b) % 4 == 0,
{
    let m = sw * b + 31;
    let q = m / 32;
    vstd::arithmetic::div_mod::lemma_fundamental_div_mod(m, 32);
    assert(0 <= m % 32 < 32) by { vstd::arithmetic::div_mod::lemma_mod_bound(m, 32); }
    assert(sw * b == 8 * (sw * bytes)) by (nonlinear_arith) requires b == 8 * bytes;
    assert(q * 4 % 4 == 0) by (nonlinear_arith);
}

/// Computes the padded bitmap layout of a `width` x `height` surface, or
/// `E_INVALIDARG` when a dimension is zero or too large or the bitmap would
/// exceed the size limit.
pub fn dib_layout(width: Dword, height: Dword, bpp: Dword) -> (r: Result<DibLayout, Hresult>)
    ensures
        dib_layout_ok(width, height, bpp) ==> r == Ok::<DibLayout, Hresult>(spec_dib_layout(width, height, bpp)),
        !dib_layout_ok(width, height, bpp) ==> r == Err::<DibLayout, Hresult>(E_INVALIDARG),
        r matches Ok(l) ==> {
            &&& l.spec_geometry().fits(l.logical_len())
            &&& l.logical_offset + l.height * l.pitch <= l.image_bytes
            &&& l.pitch % 4 == 0
            &&& l.storage_width * spec_bytes_per_pixel(l.bpp) <= l.pitch
            &&& l.image_bytes == l.pitch * l.storage_height
        },
{
    let bpp = normalized_bpp(bpp);
    if width == 0 || height == 0 || width > MAX_SURFACE_DIMENSION || height > MAX_SURFACE_DIMENSION {
        return Err(E_INVALIDARG);
    }
    let storage_width: u64 = width as u64 + 2 * GUARD_PIXELS as u64;
    let storage_height: u64 = height as u64 + 2 * GUARD_ROWS as u64;
    assert(bpp <= 32);
    assert(storage_width * (bpp as u64) <= 16512 * 32) by (nonlinear_arith)
        requires storage_width <= 16512, bpp <= 32;
    let row_bits: u64 = storage_width * bpp as u64;
    let pitch: u64 = (row_bits + 31) / 32 * 4;
    let bytes = bytes_per_pixel(bpp);
    proof {
        lemma_pitch_holds_row(storage_width as int, bpp as int, bytes as int);
        assert(pitch <= 16512 * 4 + 4);
        assert(pitch * storage_height <= 66052 * 16512) by (nonlinear_arith)
            requires pitch <= 66052, storage_height <= 16512;
    }
    let image_bytes: u64 = pitch * storage_height;
    if image_bytes > MAX_SURFACE_BYTES as u64 {
        return Err(E_INVALIDARG);
    }
    let logical_offset: u64 = GUARD_ROWS as u64 * pitch + GUARD_PIXELS as u64 * bytes as u64;
    let l = DibLayout {
        width,
        height,
        bpp,
        pitch: pitch as usize,
        storage_width: storage_width as usize,
        storage_height: storage_height as usize,
        guard_x: GUARD_PIXELS,
        guard_y: GUARD_ROWS,
        image_bytes: image_bytes as usize,
        logical_offset: logical_offset as usize,
    };
    proof {
        let p = pitch as int;
        let h = height as int;
        let sh = storage_height as int;
        let sw = storage_width as int;
        let b = bytes as int;
        assert(width * b <= sw * b) by (nonlinear_arith) requires width <= sw, 0 < b;
        assert(64 * b <= 64 * p) by (nonlinear_arith) requires b <= sw * b, sw * b <= p, 0 < b, 0 < sw;
        assert(64 * p + 64 * b + h * p <= p * sh) by (nonlinear_arith)
            requires sh == h + 128, 64 * b <= 64 * p, 0 <= p;
    }
    Ok(l)
}

/// A surface's logical row fits in its padded row.
pub proof fn lemma_layout_row(width: Dword, height: Dword, bpp: Dword)
    requires
        dib_layout_ok(width, height, bpp),
        is_supported_bpp(bpp),
    ensures
        spec_dib_layout(width, height, bpp).storage_width * spec_bytes_per_pixel(bpp)
            <= spec_dib_layout(width, height, bpp).pitch,
        width <= spec_dib_layout(width, height, bpp).storage_width,
{
    let sw = width + 2 * GUARD_PIXELS;
    lemma_pitch_holds_row(sw, bpp as int, spec_bytes_per_pixel(bpp));
}

/// Little-endian encoding of a 32-bit value.
pub open spec fn le32(x: u32) -> Seq<u8> {
    seq![le_byte(x, 0), le_byte(x, 1), le_byte(x, 2), le_byte(x, 3)]
}

/// Little-endian encoding of a 16-bit value.
pub open spec fn le16(x: u16) -> Seq<u8> {
    seq![(x % 256) as u8, (x / 256) as u8]
}

/// The `BITMAPINFOHEADER` of a surface's padded, top-down bitmap.
pub open spec fn spec_bitmap_info_header(l: DibLayout) -> BitmapInfoHeader {
    BitmapInfoHeader {
        bi_size: BITMAP_INFO_HEADER_SIZE,
        bi_width: l.storage_width as i32,
        bi_height: -(l.storage_height as int) as i32,
        bi_planes: 1,
        bi_bit_count: l.bpp as u16,
        bi_compression: if l.bpp == 16 { BI_BITFIELDS } else { BI_RGB },
        bi_size_image: l.image_bytes as u32,
        bi_x_pels_per_meter: 0,
        bi_y_pels_per_meter: 0,
        bi_clr_used: if l.bpp == 8 { 256 } else { 0 },
        bi_clr_important: 0,
    }
}

pub fn bitmap_info_header(l: &DibLayout) -> (h: BitmapInfoHeader)
    requires
        l.storage_width <= i32::MAX,
        l.storage_height <= i32::MAX,
        l.image_bytes <= u32::MAX,
        l.bpp <= u16::MAX,
    ensures
        h == spec_bitmap_info_header(*l),
{
    BitmapInfoHeader {
        bi_size: BITMAP_INFO_HEADER_SIZE,
        bi_width: l.storage_width as i32,
        bi_height: -(l.storage_height as i32),
        bi_planes: 1,
        bi_bit_count: l.bpp as u16,
        bi_compression: if l.bpp == 16 { BI_BITFIELDS } else { BI_RGB },
        bi_size_image: l.image_bytes as u32,
        bi_x_pels_per_meter: 0,
        bi_y_pels_per_meter: 0,
        bi_clr_used: if l.bpp == 8 { 256 } else { 0 },
        bi_clr_important: 0,
    }
}

/// The serialized `BITMAPINFOHEADER` (little-endian, 40 bytes).
pub open spec fn header_bytes(h: BitmapInfoHeader) -> Seq<u8> {
    le32(h.bi_size) + le32(h.bi_width as u32) + le32(h.bi_height as u32) + le16(h.bi_planes)
        + le16(h.bi_bit_count) + le32(h.bi_compression) + le32(h.bi_size_image)
        + le32(h.bi_x_pels_per_meter as u32) + le32(h.bi_y_pels_per_meter as u32) + le32(h.bi_clr_used)
        + le32(h.bi_clr_important)
}

/// The grey ramp an 8-bit surface starts with: entry `i` is (i, i, i, 0).
pub open spec fn gray_table_bytes() -> Seq<u8> {
    Seq::new(1024, |j: int| if j % 4 == 3 { 0u8 } else { (j / 4) as u8 })
}

/// The colour table that follows the header: the 5-6-5 channel masks for
/// 16-bit surfaces, the grey ramp for 8-bit ones, nothing otherwise.
pub open spec fn color_table_bytes(bpp: Dword) -> Seq<u8> {
    if bpp == 16 {
        le32(0xF800) + le32(0x07E0) + le32(0x001F)
    } else if bpp == 8 {
        gray_table_bytes()
    } else {
        Seq::empty()
    }
}

fn push_le32(v: &mut Vec<u8>, x: u32)
    ensures final(v)@ == old(v)@ + le32(x),
{
    v.push((x % 256) as u8);
    v.push(((x / 256) % 256) as u8);
    v.push(((x / 65536) % 256) as u8);
    v.push(((x / 16777216) % 256) as u8);
    assert(final(v)@ =~= old(v)@ + le32(x));
}

fn push_le16(v: &mut Vec<u8>, x: u16)
    ensures final(v)@ == old(v)@ + le16(x),
{
    v.push((x % 256) as u8);
    v.push((x / 256) as u8);
    assert(final(v)@ =~= old(v)@ + le16(x));
}

/// The `BITMAPINFO` bytes handed to GDI for a surface: the header followed
/// by the colour table of its depth.
pub fn bitmap_info_bytes(l: &DibLayout) -> (r: Vec<u8>)
    requires
        l.storage_width <= i32::MAX,
        l.storage_height <= i32::MAX,
        l.image_bytes <= u32::MAX,
        l.bpp <= u16::MAX,
    ensures
        r@ == header_bytes(spec_bitmap_info_header(*l)) + color_table_bytes(l.bpp),
{
    let h = bitmap_info_header(l);
    let mut v: Vec<u8> = Vec::new();
    push_le32(&mut v, h.bi_size);
    push_le32(&mut v, h.bi_width as u32);
    push_le32(&mut v, h.bi_height as u32);
    push_le16(&mut v, h.bi_planes);
    push_le16(&mut v, h.bi_bit_count);
    push_le32(&mut v, h.bi_compression);
    push_le32(&mut v, h.bi_size_image);
    push_le32(&mut v, h.bi_x_pels_per_meter as u32);
    push_le32(&mut v, h.bi_y_pels_per_meter as u32);
    push_le32(&mut v, h.bi_clr_used);
    push_le32(&mut v, h.bi_clr_important);
    let ghost head = v@;
    assert(head =~= header_bytes(h));
    if l.bpp == 16 {
        push_le32(&mut v, 0xF800);
        push_le32(&mut v, 0x07E0);
        push_le32(&mut v, 0x001F);
        assert(v@ =~= head + color_table_bytes(l.bpp));
    } else if l.bpp == 8 {
        let mut i: usize = 0;
        while i < 256
            invariant
                i <= 256,
                v@.len() == head.len() + 4 * i,
                v@.subrange(0, head.len() as int) == head,
                forall|j: int| 0 <= j < 4 * i ==> #[trigger] v@[head.len() + j] == gray_table_bytes()[j],
            decreases 256 - i,
        {
            let ghost before = v@;
            let g = i as u8;
            v.push(g);
            v.push(g);
            v.push(g);
            v.push(0);
            assert forall|j: int| 0 <= j < 4 * (i + 1) implies #[trigger] v@[head.len() + j] == gray_table_bytes()[j] by {
                if j >= 4 * i {
                    assert(j / 4 == i as int);
                }
                else {
                    assert(v@[head.len() + j] == before[head.len() + j]);
                }
            }
            assert(v@.subrange(0, head.len() as int) =~= head);
            i = i + 1;
        }
        assert forall|k: int| 0 <= k < v@.len() implies v@[k] == (head + color_table_bytes(l.bpp))[k] by {
            if k < head.len() {
                assert(v@[k] == v@.subrange(0, head.len() as int)[k]);
            } else {
                assert(v@[head.len() + (k - head.len())] == gray_table_bytes()[k - head.len()]);
            }
        }
        assert(v@ =~= head + color_table_bytes(l.bpp));
    } else {
        assert(v@ =~= head + color_table_bytes(l.bpp));
    }
    v
}

/// The DIB colour-table entry shown for a palette entry.
pub open spec fn spec_rgb_of(e: PaletteEntry) -> RgbQuad {
    RgbQuad { blue: e.blue, green: e.green, red: e.red, reserved: 0 }
}

/// Converts the first 256 palette entries into DIB colour-table entries.
pub fn palette_colors(entries: &[PaletteEntry]) -> (r: Vec<RgbQuad>)
    requires
        entries@.len() >= 256,
    ensures
        r@.len() == 256,
        forall|i: int| 0 <= i < 256 ==> #[trigger] r@[i] == spec_rgb_of(entries@[i]),
{
    let mut r: Vec<RgbQuad> = Vec::new();
    let mut i: usize = 0;
    while i < 256
        invariant
            i <= 256,
            entries@.len() >= 256,
            r@.len() == i,
            forall|j: int| 0 <= j < i ==> #[trigger] r@[j] == spec_rgb_of(entries@[j]),
        decreases 256 - i,
    {
        let e = entries[i];
        r.push(RgbQuad { blue: e.blue, green: e.green, red: e.red, reserved: 0 });
        i = i + 1;
    }
    r
}

/// Replaces the colour table of an 8-bit surface's `BITMAPINFO` bytes with
/// the given palette; the header bytes stay as they were.
pub fn write_palette_table(info: &mut Vec<u8>, entries: &[PaletteEntry])
    requires
        old(info)@.len() == BITMAP_INFO_HEADER_SIZE + 1024,
        entries@.len() >= 256,
    ensures
        final(info)@.len() == old(info)@.len(),
        final(info)@.subrange(0, 40) == old(info)@.subrange(0, 40),
        forall|i: int| 0 <= i < 256 ==> {
            &&& #[trigger] final(info)@[40 + 4 * i] == entries@[i].blue
            &&& final(info)@[40 + 4 * i + 1] == entries@[i].green
            &&& final(info)@[40 + 4 * i + 2] == entries@[i].red
            &&& final(info)@[40 + 4 * i + 3] == 0
        },
{
    let ghost old_info = info@;
    let mut i: usize = 0;
    while i < 256
        invariant
            i <= 256,
            entries@.len() >= 256,
            info@.len() == old_info.len(),
            old_info.len() == 1064,
            info@.subrange(0, 40) == old_info.subrange(0, 40),
            forall|j: int| 0 <= j < i ==> #[trigger] info@[40 + 4 * j] == entries@[j].blue,
            forall|j: int| 0 <= j < i ==> #[trigger] info@[40 + 4 * j + 1] == entries@[j].green,
            forall|j: int| 0 <= j < i ==> #[trigger] info@[40 + 4 * j + 2] == entries@[j].red,
            forall|j: int| 0 <= j < i ==> #[trigger] info@[40 + 4 * j + 3] == 0,
        decreases 256 - i,
    {
        let e = entries[i];
        let base = 40 + 4 * i;
        info.set(base, e.blue);
        info.set(base + 1, e.green);
        info.set(base + 2, e.red);
        info.set(base + 3, 0);
        assert(info@.subrange(0, 40) =~= old_info.subrange(0, 40));
        i = i + 1;
    }
}

} // verus!
