use ygo_scaling_fix::abi::{DdColorKey, Rect, DD_OK, E_INVALIDARG, E_NOTIMPL};
use ygo_scaling_fix::blit::{
    bytes_per_pixel, clamp_rect, copy_bytes, copy_scaled, copy_scaled_within, fill_native, normalized_bpp,
    overlap_area, read_native, swap_contents, write_native, PixelGeometry,
};
use ygo_scaling_fix::dib::{bitmap_info_bytes, bitmap_info_header, dib_layout, palette_colors, pixel_format,
    write_palette_table};
use ygo_scaling_fix::abi::PaletteEntry;

fn rect(left: i32, top: i32, right: i32, bottom: i32) -> Rect {
    Rect { left, top, right, bottom }
}

/// A 16-bit surface buffer of `w` x `h` pixels whose pixel (x, y) holds x + 16 * y.
fn numbered16(w: u32, h: u32, pitch: usize) -> (Vec<u8>, PixelGeometry) {
    let g = PixelGeometry { width: w, height: h, bpp: 16, pitch };
    let mut buf = vec![0xEEu8; pitch * h as usize];
    for y in 0..h as usize {
        for x in 0..w as usize {
            let v = (x + 16 * y) as u16;
            buf[y * pitch + 2 * x] = (v & 0xFF) as u8;
            buf[y * pitch + 2 * x + 1] = (v >> 8) as u8;
        }
    }
    (buf, g)
}

fn pixel16(buf: &[u8], g: &PixelGeometry, x: usize, y: usize) -> u32 {
    read_native(buf, y * g.pitch + 2 * x, 2)
}

#[test]
fn rect_width_and_height_saturate() {
    assert_eq!(rect(10, 20, 30, 25).width(), 20);
    assert_eq!(rect(10, 20, 30, 25).height(), 5);
    assert_eq!(rect(30, 0, 10, 0).width(), -20);
    assert_eq!(rect(i32::MIN, 0, i32::MAX, 0).width(), i32::MAX);
    assert_eq!(rect(0, i32::MAX, 0, i32::MIN).height(), i32::MIN);
}

#[test]
fn depth_helpers() {
    assert_eq!(bytes_per_pixel(8), 1);
    assert_eq!(bytes_per_pixel(16), 2);
    assert_eq!(bytes_per_pixel(24), 3);
    assert_eq!(bytes_per_pixel(32), 4);
    assert_eq!(bytes_per_pixel(15), 4);
    assert_eq!(normalized_bpp(24), 24);
    assert_eq!(normalized_bpp(15), 32);
    assert_eq!(normalized_bpp(0), 32);
}

#[test]
fn pixel_formats_by_depth() {
    let f8 = pixel_format(8);
    assert_eq!((f8.size, f8.flags, f8.rgb_bit_count, f8.r_mask), (32, 0x60, 8, 0));
    let f16 = pixel_format(16);
    assert_eq!((f16.flags, f16.rgb_bit_count, f16.r_mask, f16.g_mask, f16.b_mask), (0x40, 16, 0xF800, 0x07E0, 0x001F));
    let f24 = pixel_format(24);
    assert_eq!((f24.rgb_bit_count, f24.r_mask, f24.g_mask, f24.b_mask), (24, 0xFF0000, 0xFF00, 0xFF));
    let f7 = pixel_format(7);
    assert_eq!(f7.rgb_bit_count, 32);
}

#[test]
fn clamp_and_overlap() {
    let c = clamp_rect(rect(-5, 3, 900, 700), 800, 600);
    assert_eq!(c, rect(0, 3, 800, 600));
    assert_eq!(overlap_area(rect(-5, 3, 900, 700), 800, 600), 800 * 597);
    assert_eq!(overlap_area(rect(370, 160, 1170, 760), 800, 600), 430 * 440);
    assert_eq!(overlap_area(rect(900, 0, 1000, 10), 800, 600), 0);
    assert_eq!(overlap_area(rect(10, 10, 5, 20), 800, 600), 0);
}

#[test]
fn dib_layout_of_logical_mode() {
    let l = dib_layout(800, 600, 16).unwrap();
    assert_eq!(l.storage_width, 928);
    assert_eq!(l.storage_height, 728);
    assert_eq!(l.pitch, 1856);
    assert_eq!(l.image_bytes, 1856 * 728);
    assert_eq!(l.logical_offset, 64 * 1856 + 64 * 2);
    assert_eq!((l.guard_x, l.guard_y), (64, 64));
    let g = l.geometry();
    assert_eq!((g.width, g.height, g.bpp, g.pitch), (800, 600, 16, 1856));
}

#[test]
fn dib_layout_pads_rows_to_four_bytes() {
    let l = dib_layout(1, 1, 24).unwrap();
    assert_eq!(l.storage_width, 129);
    assert_eq!(l.pitch, 388);
    assert_eq!(l.logical_offset, 64 * 388 + 64 * 3);
    let l = dib_layout(3, 2, 99).unwrap();
    assert_eq!(l.bpp, 32);
    assert_eq!(l.pitch, 131 * 4);
}

#[test]
fn dib_layout_errors() {
    assert_eq!(dib_layout(0, 600, 16), Err(E_INVALIDARG));
    assert_eq!(dib_layout(800, 0, 16), Err(E_INVALIDARG));
    assert_eq!(dib_layout(16385, 10, 8), Err(E_INVALIDARG));
    assert_eq!(dib_layout(16384, 16384, 32), Err(E_INVALIDARG));
    assert!(dib_layout(16384, 16384, 8).is_ok());
}

#[test]
fn bitmap_info_for_16_bit_surface() {
    let l = dib_layout(800, 600, 16).unwrap();
    let h = bitmap_info_header(&l);
    assert_eq!(h.bi_size, 40);
    assert_eq!(h.bi_width, 928);
    assert_eq!(h.bi_height, -728);
    assert_eq!(h.bi_bit_count, 16);
    assert_eq!(h.bi_compression, 3);
    assert_eq!(h.bi_clr_used, 0);
    let info = bitmap_info_bytes(&l);
    assert_eq!(info.len(), 52);
    assert_eq!(&info[0..4], &[40, 0, 0, 0]);
    assert_eq!(&info[4..8], &928u32.to_le_bytes());
    assert_eq!(&info[8..12], &(-728i32).to_le_bytes());
    assert_eq!(&info[12..16], &[1, 0, 16, 0]);
    assert_eq!(&info[40..52], &[0x00, 0xF8, 0, 0, 0xE0, 0x07, 0, 0, 0x1F, 0, 0, 0]);
}

#[test]
fn bitmap_info_for_8_bit_surface_has_grey_ramp() {
    let l = dib_layout(16, 16, 8).unwrap();
    let info = bitmap_info_bytes(&l);
    assert_eq!(info.len(), 40 + 1024);
    assert_eq!(&info[32..36], &256u32.to_le_bytes());
    assert_eq!(&info[40 + 4 * 200..40 + 4 * 201], &[200, 200, 200, 0]);
    let mut info = info;
    let mut entries = vec![PaletteEntry::default(); 256];
    entries[5] = PaletteEntry { red: 1, green: 2, blue: 3, flags: 9 };
    write_palette_table(&mut info, &entries);
    assert_eq!(&info[40 + 20..40 + 24], &[3, 2, 1, 0]);
    assert_eq!(&info[0..4], &[40, 0, 0, 0]);
    let colors = palette_colors(&entries);
    assert_eq!((colors[5].blue, colors[5].green, colors[5].red, colors[5].reserved), (3, 2, 1, 0));
}

#[test]
fn native_pixels_are_little_endian() {
    let mut buf = vec![0u8; 8];
    write_native(&mut buf, 1, 3, 0x00AB_CDEF);
    assert_eq!(buf, vec![0, 0xEF, 0xCD, 0xAB, 0, 0, 0, 0]);
    assert_eq!(read_native(&buf, 1, 3), 0x00AB_CDEF);
    write_native(&mut buf, 4, 2, 0x1234_5678);
    assert_eq!(read_native(&buf, 4, 2), 0x5678);
    write_native(&mut buf, 0, 4, 0xDEAD_BEEF);
    assert_eq!(read_native(&buf, 0, 4), 0xDEAD_BEEF);
    write_native(&mut buf, 7, 1, 0x1FF);
    assert_eq!(read_native(&buf, 7, 1), 0xFF);
}

#[test]
fn fill_writes_only_the_clipped_rectangle() {
    let g = PixelGeometry { width: 4, height: 3, bpp: 16, pitch: 10 };
    let mut buf = vec![0u8; 30];
    assert_eq!(fill_native(&mut buf, g, rect(-2, 1, 2, 9), 0xBEEF), DD_OK);
    for y in 0..3 {
        for x in 0..4 {
            let expected = if y >= 1 && x < 2 { 0xBEEF } else { 0 };
            assert_eq!(read_native(&buf, y * 10 + 2 * x, 2), expected);
        }
        assert_eq!(&buf[y * 10 + 8..y * 10 + 10], &[0, 0]);
    }
}

#[test]
fn fill_with_empty_rectangle_changes_nothing() {
    let g = PixelGeometry { width: 4, height: 3, bpp: 8, pitch: 4 };
    let mut buf = vec![7u8; 12];
    assert_eq!(fill_native(&mut buf, g, rect(3, 1, 3, 2), 1), DD_OK);
    assert_eq!(fill_native(&mut buf, g, rect(5, 0, 9, 3), 1), DD_OK);
    assert_eq!(buf, vec![7u8; 12]);
}

#[test]
fn copy_bytes_moves_a_range() {
    let mut dst = vec![0u8; 6];
    copy_bytes(&mut dst, 2, &[9, 8, 7, 6], 1, 3);
    assert_eq!(dst, vec![0, 0, 8, 7, 6, 0]);
}

#[test]
fn unscaled_copy_shifts_pixels() {
    let (src, sg) = numbered16(4, 4, 8);
    let (mut dst, dg) = numbered16(4, 4, 10);
    let dst_before = dst.clone();
    assert_eq!(copy_scaled(&mut dst, dg, rect(1, 1, 3, 3), &src, sg, rect(0, 0, 2, 2), None), DD_OK);
    for y in 0..4 {
        for x in 0..4 {
            let expected = if (1..3).contains(&x) && (1..3).contains(&y) {
                pixel16(&src, &sg, x - 1, y - 1)
            } else {
                pixel16(&dst_before, &dg, x, y)
            };
            assert_eq!(pixel16(&dst, &dg, x, y), expected);
        }
    }
}

#[test]
fn stretch_copy_replicates_pixels() {
    let (src, sg) = numbered16(2, 2, 4);
    let (mut dst, dg) = numbered16(4, 4, 8);
    assert_eq!(copy_scaled(&mut dst, dg, rect(0, 0, 4, 4), &src, sg, rect(0, 0, 2, 2), None), DD_OK);
    for y in 0..4 {
        for x in 0..4 {
            assert_eq!(pixel16(&dst, &dg, x, y), pixel16(&src, &sg, x / 2, y / 2));
        }
    }
}

#[test]
fn clipped_destination_keeps_the_scale() {
    // The destination starts left of the surface: the visible columns still
    // sample the source as the unclipped rectangle would.
    let (src, sg) = numbered16(4, 1, 8);
    let g = PixelGeometry { width: 2, height: 1, bpp: 16, pitch: 4 };
    let mut dst = vec![0u8; 4];
    assert_eq!(copy_scaled(&mut dst, g, rect(-2, 0, 2, 1), &src, sg, rect(0, 0, 4, 1), None), DD_OK);
    assert_eq!(read_native(&dst, 0, 2), 2);
    assert_eq!(read_native(&dst, 2, 2), 3);
}

#[test]
fn source_colour_key_skips_pixels() {
    let sg = PixelGeometry { width: 4, height: 1, bpp: 8, pitch: 4 };
    let src = vec![1u8, 5, 9, 200];
    let mut dst = vec![0xAAu8; 4];
    let key = DdColorKey { low: 4, high: 9 };
    assert_eq!(copy_scaled(&mut dst, sg, rect(0, 0, 4, 1), &src, sg, rect(0, 0, 4, 1), Some(key)), DD_OK);
    assert_eq!(dst, vec![1, 0xAA, 0xAA, 200]);
}

#[test]
fn samples_off_the_source_are_skipped() {
    let sg = PixelGeometry { width: 2, height: 1, bpp: 8, pitch: 2 };
    let src = vec![10u8, 20];
    let mut dst = vec![0u8; 4];
    let dg = PixelGeometry { width: 4, height: 1, bpp: 8, pitch: 4 };
    assert_eq!(copy_scaled(&mut dst, dg, rect(0, 0, 4, 1), &src, sg, rect(-1, 0, 3, 1), None), DD_OK);
    assert_eq!(dst, vec![0, 10, 20, 0]);
}

#[test]
fn copy_between_depths_is_refused() {
    let sg = PixelGeometry { width: 2, height: 1, bpp: 8, pitch: 2 };
    let dg = PixelGeometry { width: 2, height: 1, bpp: 16, pitch: 4 };
    let mut dst = vec![3u8; 4];
    assert_eq!(copy_scaled(&mut dst, dg, rect(0, 0, 2, 1), &[1, 2], sg, rect(0, 0, 2, 1), None), E_NOTIMPL);
    assert_eq!(dst, vec![3u8; 4]);
}

#[test]
fn empty_rectangles_copy_nothing() {
    let g = PixelGeometry { width: 2, height: 2, bpp: 8, pitch: 2 };
    let mut dst = vec![0u8; 4];
    assert_eq!(copy_scaled(&mut dst, g, rect(1, 1, 1, 2), &[1, 2, 3, 4], g, rect(0, 0, 2, 2), None), DD_OK);
    assert_eq!(copy_scaled(&mut dst, g, rect(0, 0, 2, 2), &[1, 2, 3, 4], g, rect(0, 0, 0, 2), None), DD_OK);
    assert_eq!(copy_scaled(&mut dst, g, rect(5, 5, 8, 8), &[1, 2, 3, 4], g, rect(0, 0, 2, 2), None), DD_OK);
    assert_eq!(dst, vec![0u8; 4]);
}

#[test]
fn copy_within_a_surface_reads_the_old_pixels() {
    let g = PixelGeometry { width: 4, height: 1, bpp: 8, pitch: 4 };
    let mut buf = vec![1u8, 2, 3, 4];
    assert_eq!(copy_scaled_within(&mut buf, g, rect(1, 0, 4, 1), rect(0, 0, 3, 1), None), DD_OK);
    assert_eq!(buf, vec![1, 1, 2, 3]);
}

#[test]
fn flip_exchanges_contents_and_twice_restores() {
    let mut front = vec![1u8, 2, 3];
    let mut back = vec![7u8, 8, 9];
    swap_contents(&mut front, &mut back);
    assert_eq!((front.clone(), back.clone()), (vec![7, 8, 9], vec![1, 2, 3]));
    swap_contents(&mut front, &mut back);
    assert_eq!((front, back), (vec![1, 2, 3], vec![7, 8, 9]));
}
