use ygo_scaling_fix::abi::{
    iid_idirectdraw, iid_idirectdrawclipper, iid_idirectdrawpalette, iid_idirectdrawsurface, iid_iunknown,
    DdColorKey, PaletteEntry, Point, Rect, DD_OK, E_FAIL, E_INVALIDARG, E_POINTER, DDBLT_COLORFILL,
    DDBLT_KEYSRC, DDBLT_KEYSRCOVERRIDE, DDBLTFAST_SRCCOLORKEY,
};
use ygo_scaling_fix::clipper::{clipper_accepts_interface, Clipper};
use ygo_scaling_fix::palette::{entries_in_range, palette_accepts_interface, Palette};
use ygo_scaling_fix::surface::{
    blt_fast_rect, blt_fast_rect_in_range, blt_fast_source_key, blt_kind, blt_source_key, needs_client_origin, palette_users,
    presenter_belongs_to, presenter_needs_recreate, primary_destination_rect, surface_accepts_interface,
    BltKind, PresenterKey, Surface, SurfaceRegistry,
};

fn entry(v: u8) -> PaletteEntry {
    PaletteEntry { red: v, green: v.wrapping_add(1), blue: v.wrapping_add(2), flags: 0 }
}

fn rect(left: i32, top: i32, right: i32, bottom: i32) -> Rect {
    Rect { left, top, right, bottom }
}

#[test]
fn palette_starts_black_or_from_initial_entries() {
    let p = Palette::create(4, None);
    assert_eq!(p.refs, 1);
    assert_eq!(p.get_caps(), 4);
    assert_eq!(p.snapshot(), vec![PaletteEntry::default(); 256]);
    let initial: Vec<PaletteEntry> = (0..300).map(|i| entry(i as u8)).collect();
    let p = Palette::create(0, Some(&initial));
    assert_eq!(p.snapshot(), initial[0..256].to_vec());
}

#[test]
fn palette_read_after_write() {
    let mut p = Palette::create(0, None);
    let written = vec![entry(10), entry(20), entry(30)];
    assert_eq!(p.set_entries(10, 3, &written), Ok(()));
    assert_eq!(p.get_entries(10, 3), Ok(written.clone()));
    assert_eq!(p.get_entries(9, 1), Ok(vec![PaletteEntry::default()]));
    assert_eq!(p.get_entries(13, 1), Ok(vec![PaletteEntry::default()]));
    assert_eq!(p.get_entries(11, 2), Ok(written[1..3].to_vec()));
}

#[test]
fn palette_ranges_outside_are_refused() {
    let mut p = Palette::create(0, None);
    let many = vec![entry(1); 257];
    assert_eq!(p.get_entries(256, 0), Err(E_INVALIDARG));
    assert_eq!(p.get_entries(0, 257), Err(E_INVALIDARG));
    assert_eq!(p.get_entries(200, 57), Err(E_INVALIDARG));
    assert_eq!(p.get_entries(u32::MAX, 2), Err(E_INVALIDARG));
    assert_eq!(p.set_entries(250, 7, &many), Err(E_INVALIDARG));
    assert_eq!(p.snapshot(), vec![PaletteEntry::default(); 256]);
    assert_eq!(p.get_entries(200, 56).map(|v| v.len()), Ok(56));
}

#[test]
fn palette_initialize_and_counts() {
    let mut p = Palette::create(1, None);
    let table: Vec<PaletteEntry> = (0..256).map(|i| entry(i as u8)).collect();
    p.initialize(7, Some(&table));
    assert_eq!(p.get_caps(), 7);
    assert_eq!(p.snapshot(), table);
    p.initialize(8, None);
    assert_eq!(p.snapshot(), table);
    assert_eq!(p.add_ref(), 2);
    assert_eq!(p.release(), 1);
    assert_eq!(p.release(), 0);
}

#[test]
fn clipper_reports_changes_once() {
    let mut c = Clipper::create();
    assert_eq!((c.refs, c.get_hwnd(), c.changed), (1, 0, false));
    assert!(!c.is_clip_list_changed());
    c.set_hwnd(0x1234);
    assert_eq!(c.get_hwnd(), 0x1234);
    assert!(c.is_clip_list_changed());
    assert!(!c.is_clip_list_changed());
    c.set_clip_list();
    assert!(c.is_clip_list_changed());
    assert_eq!(c.add_ref(), 2);
    assert_eq!(c.release(), 1);
}

#[test]
fn interfaces_accepted_by_each_object() {
    let unknown = iid_iunknown();
    let dd = iid_idirectdraw();
    let surface = iid_idirectdrawsurface();
    let palette = iid_idirectdrawpalette();
    let clipper = iid_idirectdrawclipper();
    assert!(surface_accepts_interface(Some(&unknown)));
    assert!(surface_accepts_interface(Some(&surface)));
    assert!(!surface_accepts_interface(Some(&dd)));
    assert!(!surface_accepts_interface(None));
    assert!(palette_accepts_interface(Some(&palette)));
    assert!(!palette_accepts_interface(Some(&clipper)));
    assert!(clipper_accepts_interface(Some(&clipper)));
    assert!(clipper_accepts_interface(Some(&unknown)));
    assert!(!clipper_accepts_interface(Some(&palette)));
}

#[test]
fn surface_creation_and_links() {
    let mut s = Surface::create(800, 600, 13, 0x200, true).unwrap();
    assert_eq!((s.refs, s.width, s.height, s.bpp, s.is_primary), (1, 800, 600, 32, true));
    assert_eq!(s.layout.pitch, 928 * 4);
    assert_eq!(Surface::create(0, 600, 16, 0, false).err(), Some(E_INVALIDARG));
    assert_eq!(s.attached_surface(), Err(E_FAIL));
    assert_eq!(s.add_attached_surface(0x10), 0);
    assert_eq!(s.attached_surface(), Ok(0x10));
    assert_eq!(s.add_attached_surface(0x20), 0x10);
    assert_eq!(s.delete_attached_surface(0x10), None);
    assert_eq!(s.delete_attached_surface(0x20), Some(0x20));
    assert_eq!(s.attached, 0);
    assert_eq!(s.get_clipper(), Err(E_FAIL));
    assert_eq!(s.set_clipper(0x30), 0);
    assert_eq!(s.get_clipper(), Ok(0x30));
    assert_eq!(s.get_palette(), Err(E_FAIL));
    assert_eq!(s.set_palette(0x40), 0);
    assert_eq!(s.set_palette(0), 0x40);
    assert_eq!(s.get_color_key(), Err(E_FAIL));
    s.set_color_key(Some(DdColorKey { low: 1, high: 2 }));
    assert_eq!(s.get_color_key(), Ok(DdColorKey { low: 1, high: 2 }));
    s.set_clipper(0x31);
    s.set_palette(0x41);
    s.add_attached_surface(0x21);
    assert_eq!(s.detach_all(), (0x21, 0x41, 0x31));
    assert_eq!((s.attached, s.palette, s.clipper), (0, 0, 0));
    assert_eq!(s.add_ref(), 2);
    assert_eq!(s.release(), 1);
    assert_eq!(s.get_caps().caps, 0x200);
    assert_eq!(s.get_pixel_format().rgb_bit_count, 32);
}

#[test]
fn surface_desc_and_lock() {
    let mut s = Surface::create(800, 600, 16, 0x40, false).unwrap();
    s.set_color_key(Some(DdColorKey { low: 5, high: 6 }));
    let d = s.fill_desc(0x1000_0000);
    assert_eq!((d.size, d.flags, d.width, d.height, d.pitch), (108, 0x180F, 800, 600, 1856));
    assert_eq!(d.surface, 0x1000_0000);
    assert_eq!(d.back_buffer_count, 0);
    assert_eq!(d.ck_src_blt, DdColorKey { low: 5, high: 6 });
    assert_eq!(d.caps.caps, 0x40);
    assert_eq!(d.pixel_format.rgb_bit_count, 16);
    let (hr, whole) = s.lock(0x1000_0000, None);
    assert_eq!((hr, whole), (DD_OK, d));
    let (hr, part) = s.lock(0x1000_0000, Some(rect(10, 20, 30, 25)));
    assert_eq!(hr, DD_OK);
    assert_eq!(part.surface, 0x1000_0000 + 20 * 1856 + 10 * 2);
    assert_eq!((part.width, part.height, part.pitch), (20, 5, 1856));
    let (hr, clipped) = s.lock(0x1000_0000, Some(rect(-5, -5, 5, 5)));
    assert_eq!((hr, clipped.surface, clipped.width, clipped.height), (DD_OK, 0x1000_0000, 5, 5));
    let (hr, empty) = s.lock(0x1000_0000, Some(rect(900, 0, 950, 10)));
    assert_eq!((hr, empty), (E_INVALIDARG, d));
    s.add_attached_surface(7);
    assert_eq!(s.fill_desc(0).back_buffer_count, 1);
}

#[test]
fn dc_state_is_saved_once() {
    let mut s = Surface::create(4, 4, 8, 0, false).unwrap();
    assert!(s.needs_dc_save());
    s.record_saved_dc(3);
    assert!(!s.needs_dc_save());
    assert_eq!(s.take_saved_dc(), 3);
    assert_eq!(s.take_saved_dc(), 0);
    assert!(s.needs_dc_save());
}

#[test]
fn flip_partner_and_compatibility() {
    let mut front = Surface::create(800, 600, 16, 0x200, true).unwrap();
    let back = Surface::create(800, 600, 16, 0x804, false).unwrap();
    let other = Surface::create(640, 480, 16, 0, false).unwrap();
    assert_eq!(front.flip_partner(0x100, 0), 0);
    front.add_attached_surface(0x200);
    assert_eq!(front.flip_partner(0x100, 0), 0x200);
    assert_eq!(front.flip_partner(0x100, 0x300), 0x300);
    assert_eq!(front.flip_partner(0x100, 0x100), 0);
    assert!(front.flip_compatible(&back));
    assert!(!front.flip_compatible(&other));
}

#[test]
fn blt_decisions() {
    assert_eq!(blt_kind(DDBLT_COLORFILL, true, false), BltKind::ColorFill);
    assert_eq!(blt_kind(DDBLT_COLORFILL, false, true), BltKind::Fail(E_INVALIDARG));
    assert_eq!(blt_kind(0, false, false), BltKind::Fail(E_POINTER));
    assert_eq!(blt_kind(DDBLT_KEYSRC, false, true), BltKind::Copy);
    let fx = Some(DdColorKey { low: 1, high: 1 });
    let own = Some(DdColorKey { low: 2, high: 2 });
    assert_eq!(blt_source_key(DDBLT_KEYSRCOVERRIDE, fx, own), fx);
    assert_eq!(blt_source_key(DDBLT_KEYSRCOVERRIDE | DDBLT_KEYSRC, None, own), own);
    assert_eq!(blt_source_key(DDBLT_KEYSRC, fx, own), own);
    assert_eq!(blt_source_key(0, fx, own), None);
    assert_eq!(blt_fast_source_key(DDBLTFAST_SRCCOLORKEY, own), own);
    assert_eq!(blt_fast_source_key(0, own), None);
    assert_eq!(blt_fast_rect(5, 7, rect(10, 10, 30, 40)), rect(5, 7, 25, 37));
}

#[test]
fn primary_rect_uses_client_coordinates_only_when_they_cover_more() {
    assert!(needs_client_origin(true, 1, false));
    assert!(!needs_client_origin(true, 1, true));
    assert!(!needs_client_origin(true, 0, false));
    assert!(!needs_client_origin(false, 1, false));
    let origin = Point { x: 370, y: 160 };
    let screen = rect(370, 160, 1170, 760);
    assert_eq!(primary_destination_rect(screen, Some(origin), 800, 600), rect(0, 0, 800, 600));
    let local = rect(0, 0, 800, 600);
    assert_eq!(primary_destination_rect(local, Some(origin), 800, 600), local);
    assert_eq!(primary_destination_rect(screen, None, 800, 600), screen);
    let far = rect(i32::MIN + 5, 0, 10, 10);
    let moved = primary_destination_rect(far, Some(Point { x: 100, y: 0 }), 800, 600);
    assert_eq!(moved, far);
}

#[test]
fn registry_tracks_surfaces_and_primary() {
    let mut r = SurfaceRegistry::new();
    r.register(1, false);
    r.register(2, true);
    r.register(3, false);
    r.register(2, false);
    assert_eq!(r.primary_pointer(), 2);
    r.unregister(2);
    assert_eq!(r.surfaces, vec![1, 3]);
    assert_eq!(r.primary_pointer(), 0);
    r.unregister(9);
    assert_eq!(r.surfaces, vec![1, 3]);
    assert_eq!(palette_users(&[(1, 7), (2, 8), (3, 7)], 7), vec![1, 3]);
    assert_eq!(palette_users(&[], 7), Vec::<usize>::new());
}

#[test]
fn presenter_cache_key() {
    let key = PresenterKey { hwnd: 5, width: 800, height: 600 };
    assert!(presenter_needs_recreate(None, 5, 800, 600));
    assert!(!presenter_needs_recreate(Some(key), 5, 800, 600));
    assert!(presenter_needs_recreate(Some(key), 6, 800, 600));
    assert!(presenter_needs_recreate(Some(key), 5, 801, 600));
    assert!(presenter_belongs_to(Some(key), 5));
    assert!(!presenter_belongs_to(Some(key), 4));
    assert!(!presenter_belongs_to(None, 5));
}

#[test]
fn range_checks() {
    assert!(entries_in_range(0, 256));
    assert!(entries_in_range(255, 1));
    assert!(!entries_in_range(255, 2));
    assert!(!entries_in_range(256, 0));
    assert!(!entries_in_range(1, u32::MAX));
    assert!(blt_fast_rect_in_range(5, 7, rect(0, 0, 10, 10)));
    assert!(!blt_fast_rect_in_range(i32::MAX as u32, 0, rect(0, 0, 10, 10)));
    assert!(blt_fast_rect_in_range(u32::MAX, 0, rect(0, 0, 10, 10)));
}

#[test]
fn only_8_bit_surfaces_apply_palettes() {
    let mut s8 = Surface::create(4, 4, 8, 0, false).unwrap();
    let mut s16 = Surface::create(4, 4, 16, 0, false).unwrap();
    assert_eq!(s8.palette_to_apply(), 0);
    s8.set_palette(0x50);
    s16.set_palette(0x50);
    assert_eq!(s8.palette_to_apply(), 0x50);
    assert_eq!(s16.palette_to_apply(), 0);
}
