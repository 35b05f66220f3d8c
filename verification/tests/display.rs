use ygo_scaling_fix::abi::{
    c_string_bytes, clsid_directdraw, guid_eq, iid_idirectdraw, iid_iunknown, mouse_message, succeeded,
    DdSurfaceDesc, Guid, Rect, DDSCAPS_COMPLEX, DDSCAPS_PRIMARYSURFACE, DDSCL_EXCLUSIVE, DDSCL_FULLSCREEN,
    DDSCL_NORMAL, DDSD_BACKBUFFERCOUNT, DDSD_HEIGHT, DDSD_PIXELFORMAT, DDSD_WIDTH, E_FAIL, FALSE, TRUE,
    WM_ERASEBKGND, WM_LBUTTONDOWN, WM_MBUTTONDBLCLK, WM_MOUSEMOVE, WM_NCDESTROY, WM_PAINT,
};
use ygo_scaling_fix::ddraw::{caps_clear_len, ddraw_accepts_interface, display_mode, enumerated_mode, plan_surface,
    DirectDraw};
use ygo_scaling_fix::hook::{
    initialize_result, route_cocreate, route_direct_draw_create, route_direct_draw_create_ex, starts_bootstrap,
    CreateRoute, HookInstaller, InstallStep,
};
use ygo_scaling_fix::state::{new_shared, DrawState, WindowAction};
use ygo_scaling_fix::window::{
    borderless_placement, pack_mouse, relay_plan, remap_mouse, restore_placement, route_message, unpack_mouse,
    viewport, MessageRoute, RelayPlan, BORDERLESS_STYLE, PLACEMENT_FLAGS,
};

fn rect(left: i32, top: i32, right: i32, bottom: i32) -> Rect {
    Rect { left, top, right, bottom }
}

#[test]
fn guid_comparison() {
    let dd = iid_idirectdraw();
    let mut other = dd;
    assert!(guid_eq(Some(&dd), &iid_idirectdraw()));
    assert!(!guid_eq(None, &dd));
    other.data4[7] = 0;
    assert!(!guid_eq(Some(&other), &dd));
    other = dd;
    other.data1 += 1;
    assert!(!guid_eq(Some(&other), &dd));
    assert_eq!(clsid_directdraw().data1, 0xD7B70EE0);
    assert_eq!(iid_iunknown().data4, [0xC0, 0, 0, 0, 0, 0, 0, 0x46]);
}

#[test]
fn result_and_message_predicates() {
    assert!(succeeded(0));
    assert!(succeeded(1));
    assert!(!succeeded(E_FAIL));
    assert!(mouse_message(WM_MOUSEMOVE));
    assert!(mouse_message(WM_MBUTTONDBLCLK));
    assert!(!mouse_message(0x020A));
    assert!(!mouse_message(WM_PAINT));
}

#[test]
fn c_strings_stop_at_nul() {
    assert_eq!(c_string_bytes(b"ddraw.dll\0junk"), b"ddraw.dll");
    assert_eq!(c_string_bytes(b"\0"), b"");
}

#[test]
fn default_state_is_800x600x16() {
    let s = new_shared();
    assert_eq!((s.hwnd, s.logical_width, s.logical_height, s.bpp), (0, 800, 600, 16));
    assert!(!s.fullscreen_requested && !s.saved_window_state);
    assert_eq!(s, DrawState::default());
}

#[test]
fn cooperative_level_decides_borderless() {
    let mut s = new_shared();
    assert_eq!(s.set_cooperative_level(7, DDSCL_EXCLUSIVE | DDSCL_FULLSCREEN), WindowAction::EnterBorderless);
    assert_eq!((s.hwnd, s.cooperative_flags, s.fullscreen_requested), (7, 0x11, true));
    assert_eq!(s.set_cooperative_level(7, DDSCL_NORMAL), WindowAction::LeaveBorderless);
    assert!(!s.fullscreen_requested);
    assert_eq!(s.set_cooperative_level(8, 0), WindowAction::Keep);
    assert_eq!(s.hwnd, 8);
}

#[test]
fn display_mode_is_only_logical() {
    let mut s = new_shared();
    s.set_cooperative_level(3, DDSCL_FULLSCREEN);
    assert!(s.set_display_mode(640, 480, 8));
    assert_eq!((s.logical_width, s.logical_height, s.bpp, s.hwnd), (640, 480, 8, 3));
    s.set_cooperative_level(3, DDSCL_NORMAL);
    assert!(!s.set_display_mode(0, 0, 15));
    assert_eq!((s.logical_width, s.logical_height, s.bpp), (1, 1, 32));
}

#[test]
fn borderless_restores_first_saved_window() {
    let mut s = new_shared();
    assert!(!s.needs_window_snapshot());
    s.set_cooperative_level(9, DDSCL_FULLSCREEN);
    assert!(s.needs_window_snapshot());
    s.capture_window(0x10, 0x20, rect(1, 2, 3, 4));
    assert!(!s.needs_window_snapshot());
    s.capture_window(0x11, 0x21, rect(5, 6, 7, 8));
    let saved = s.take_saved_window().unwrap();
    assert_eq!((saved.hwnd, saved.style, saved.ex_style, saved.rect), (9, 0x10, 0x20, rect(1, 2, 3, 4)));
    assert!(s.take_saved_window().is_none());
    let place = restore_placement(saved.style, saved.ex_style, saved.rect);
    assert_eq!((place.x, place.y, place.width, place.height, place.flags), (1, 2, 2, 2, PLACEMENT_FLAGS));
    let degenerate = restore_placement(0, 0, rect(5, 5, 5, 2));
    assert_eq!((degenerate.width, degenerate.height), (1, 1));
}

#[test]
fn borderless_covers_the_monitor() {
    let p = borderless_placement(rect(-1920, 0, 0, 1080));
    assert_eq!((p.style, p.ex_style, p.x, p.y, p.width, p.height), (BORDERLESS_STYLE, 0, -1920, 0, 1920, 1080));
    assert_eq!(BORDERLESS_STYLE as u32, 0x9000_0000);
}

#[test]
fn viewport_is_the_client_area() {
    assert_eq!(viewport(1920, 1080, 800, 600), rect(0, 0, 1920, 1080));
    assert_eq!(viewport(-4, 10, 800, 600), rect(0, 0, 0, 10));
    assert_eq!(viewport(100, 10, 0, 600), rect(0, 0, 100, 10));
}

#[test]
fn mouse_positions_pack_and_unpack() {
    assert_eq!(unpack_mouse(0x0002_0001), (1, 2));
    assert_eq!(unpack_mouse(0xFFFF_FFFEu32 as isize), (-2, -1));
    assert_eq!(pack_mouse(1, 2), 0x0002_0001);
    assert_eq!(unpack_mouse(pack_mouse(-5, 40000)), (-5, 32767));
    assert_eq!(unpack_mouse(pack_mouse(-70000, 3)), (-32768, 3));
}

#[test]
fn mouse_remapped_to_logical_surface() {
    let l = pack_mouse(960, 540);
    assert_eq!(unpack_mouse(remap_mouse(l, 1920, 1080, 800, 600)), (400, 300));
    assert_eq!(unpack_mouse(remap_mouse(pack_mouse(1919, 1079), 1920, 1080, 800, 600)), (799, 599));
    assert_eq!(unpack_mouse(remap_mouse(pack_mouse(-10, 5000), 1920, 1080, 800, 600)), (0, 599));
    assert_eq!(remap_mouse(l, 0, 1080, 800, 600), l);
}

#[test]
fn relay_messages() {
    assert_eq!(route_message(WM_ERASEBKGND), MessageRoute::SuppressErase);
    assert_eq!(route_message(WM_PAINT), MessageRoute::Paint);
    assert_eq!(route_message(WM_LBUTTONDOWN), MessageRoute::Forward { remap_mouse: true, destroy: false });
    assert_eq!(route_message(WM_NCDESTROY), MessageRoute::Forward { remap_mouse: false, destroy: true });
    assert_eq!(relay_plan(0, 0, 1, 2), RelayPlan::Ignore);
    assert_eq!(relay_plan(5, 5, 1, 2), RelayPlan::AlreadyHooked);
    assert_eq!(relay_plan(5, 4, 2, 2), RelayPlan::AdoptCurrent);
    assert_eq!(relay_plan(5, 4, 1, 2), RelayPlan::Subclass);
}

#[test]
fn directdraw_object() {
    let mut d = DirectDraw::create();
    assert_eq!(d.refs, 1);
    assert_eq!(d.state, new_shared());
    assert_eq!(d.add_ref(), 2);
    assert_eq!(d.release(), 1);
    assert_eq!(d.release(), 0);
    assert!(ddraw_accepts_interface(Some(&iid_idirectdraw())));
    assert!(ddraw_accepts_interface(Some(&iid_iunknown())));
    assert!(!ddraw_accepts_interface(Some(&clsid_directdraw())));
}

#[test]
fn surface_plans() {
    let mut s = new_shared();
    s.set_display_mode(640, 480, 8);
    let mut desc = DdSurfaceDesc::default();
    desc.caps.caps = DDSCAPS_PRIMARYSURFACE | DDSCAPS_COMPLEX;
    desc.flags = DDSD_WIDTH | DDSD_HEIGHT;
    desc.width = 1;
    desc.height = 2;
    let p = plan_surface(&s, &desc);
    assert_eq!((p.width, p.height, p.bpp, p.primary, p.back_buffer), (640, 480, 8, true, true));
    let mut off = DdSurfaceDesc::default();
    off.flags = DDSD_WIDTH | DDSD_PIXELFORMAT;
    off.width = 64;
    off.height = 99;
    off.pixel_format.rgb_bit_count = 16;
    let p = plan_surface(&s, &off);
    assert_eq!((p.width, p.height, p.bpp, p.primary, p.back_buffer), (64, 480, 16, false, false));
    let mut primary = DdSurfaceDesc::default();
    primary.caps.caps = DDSCAPS_PRIMARYSURFACE;
    primary.flags = DDSD_BACKBUFFERCOUNT;
    primary.back_buffer_count = 0;
    assert!(!plan_surface(&s, &primary).back_buffer);
    primary.back_buffer_count = 1;
    assert!(plan_surface(&s, &primary).back_buffer);
}

#[test]
fn mode_descriptors() {
    let mut s = new_shared();
    let d = display_mode(&s);
    assert_eq!((d.flags, d.width, d.height, d.pixel_format.rgb_bit_count, d.pixel_format.r_mask), (0x1007, 800, 600, 16, 0xF800));
    s.set_display_mode(640, 480, 8);
    let d = display_mode(&s);
    assert_eq!((d.pixel_format.flags, d.pixel_format.rgb_bit_count, d.pixel_format.r_mask), (0x60, 8, 0));
    s.set_display_mode(640, 480, 24);
    assert_eq!(display_mode(&s).pixel_format.r_mask, 0xFF0000);
    let e = enumerated_mode(&s, None);
    assert_eq!((e.width, e.height, e.pixel_format.rgb_bit_count), (640, 480, 24));
    let mut filter = DdSurfaceDesc::default();
    filter.width = 1024;
    filter.pixel_format.rgb_bit_count = 15;
    let e = enumerated_mode(&s, Some(&filter));
    assert_eq!((e.width, e.height, e.pixel_format.rgb_bit_count, e.pixel_format.g_mask), (1024, 480, 15, 0xFF00));
    assert_eq!(e.size, 108);
    assert_eq!(caps_clear_len(108), 104);
    assert_eq!(caps_clear_len(3), 0);
    assert_eq!(caps_clear_len(2000), 0);
    assert_eq!(caps_clear_len(4), 0);
}

#[test]
fn creation_routes() {
    let clsid = clsid_directdraw();
    let iid = iid_idirectdraw();
    let unknown = iid_iunknown();
    let other = Guid { data1: 1, data2: 2, data3: 3, data4: [0; 8] };
    assert_eq!(route_cocreate(Some(&clsid), Some(&iid), true), CreateRoute::CreateWrapper);
    assert_eq!(route_cocreate(Some(&clsid), Some(&iid), false), CreateRoute::NoAggregation);
    assert_eq!(route_cocreate(Some(&clsid), Some(&unknown), true), CreateRoute::Forward);
    assert_eq!(route_cocreate(Some(&other), Some(&iid), true), CreateRoute::Forward);
    assert_eq!(route_cocreate(None, Some(&iid), true), CreateRoute::Forward);
    assert_eq!(route_direct_draw_create(true), CreateRoute::CreateWrapper);
    assert_eq!(route_direct_draw_create(false), CreateRoute::NoAggregation);
    assert_eq!(route_direct_draw_create_ex(Some(&iid), true), CreateRoute::CreateWrapper);
    assert_eq!(route_direct_draw_create_ex(Some(&iid), false), CreateRoute::NoAggregation);
    assert_eq!(route_direct_draw_create_ex(Some(&other), true), CreateRoute::Forward);
    assert_eq!(initialize_result(true), TRUE);
    assert_eq!(initialize_result(false), FALSE);
    assert!(starts_bootstrap(1));
    assert!(!starts_bootstrap(0));
}

fn run(outcomes: &[bool]) -> (HookInstaller, Vec<InstallStep>) {
    let mut h = HookInstaller::new();
    let mut steps = Vec::new();
    let mut i = 0;
    while !h.is_done() {
        steps.push(h.step);
        h.advance(outcomes[i]);
        i += 1;
    }
    (h, steps)
}

#[test]
fn installer_all_succeed() {
    let (h, steps) = run(&[true; 16]);
    assert!(h.result() && h.directdraw && h.cocreate);
    assert_eq!(steps, vec![
        InstallStep::LocateDdraw, InstallStep::ResolveCreate, InstallStep::InitCreate, InstallStep::EnableCreate,
        InstallStep::ResolveCreateEx, InstallStep::InitCreateEx, InstallStep::EnableCreateEx,
        InstallStep::InitCoCreate, InstallStep::EnableCoCreate,
    ]);
}

#[test]
fn installer_without_ddraw_still_hooks_com() {
    let (h, steps) = run(&[false, false, true, true]);
    assert_eq!(steps, vec![InstallStep::LocateDdraw, InstallStep::LoadDdraw, InstallStep::InitCoCreate,
        InstallStep::EnableCoCreate]);
    assert!(h.result() && !h.directdraw && h.cocreate);
}

#[test]
fn installer_optional_create_ex_and_total_failure() {
    let (h, _) = run(&[true, true, true, true, false, false, false]);
    assert!(h.result() && h.directdraw && !h.cocreate);
    let (h, _) = run(&[true, true, false, true, false]);
    assert!(!h.result());
}
