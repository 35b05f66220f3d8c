//! Plain data types, constants and small predicates shared by every module.
use vstd::prelude::*;

verus! {

pub type Bool = i32;
pub type Dword = u32;
pub type Uint = u32;
pub type Ulong = u32;
pub type Long = i32;
pub type Hresult = i32;

pub const TRUE: Bool = 1;
pub const FALSE: Bool = 0;
pub const S_OK: Hresult = 0;
pub const DD_OK: Hresult = 0;
pub const E_NOTIMPL: Hresult = -2147467263;
pub const E_NOINTERFACE: Hresult = -2147467262;
pub const E_POINTER: Hresult = -2147467261;
pub const E_FAIL: Hresult = -2147467259;
pub const E_INVALIDARG: Hresult = -2147024809;
pub const CLASS_E_NOAGGREGATION: Hresult = -2147221232;

pub const DLL_PROCESS_ATTACH: Dword = 1;
pub const DLL_PROCESS_DETACH: Dword = 0;

pub const DDSCL_FULLSCREEN: Dword = 0x0000_0001;
pub const DDSCL_ALLOWREBOOT: Dword = 0x0000_0002;
pub const DDSCL_NOWINDOWCHANGES: Dword = 0x0000_0004;
pub const DDSCL_NORMAL: Dword = 0x0000_0008;
pub const DDSCL_EXCLUSIVE: Dword = 0x0000_0010;

pub const DDSD_CAPS: Dword = 0x0000_0001;
pub const DDSD_HEIGHT: Dword = 0x0000_0002;
pub const DDSD_WIDTH: Dword = 0x0000_0004;
pub const DDSD_PITCH: Dword = 0x0000_0008;
pub const DDSD_BACKBUFFERCOUNT: Dword = 0x0000_0020;
pub const DDSD_LPSURFACE: Dword = 0x0000_0800;
pub const DDSD_PIXELFORMAT: Dword = 0x0000_1000;

pub const DDSCAPS_BACKBUFFER: Dword = 0x0000_0004;
pub const DDSCAPS_COMPLEX: Dword = 0x0000_0008;
pub const DDSCAPS_FLIP: Dword = 0x0000_0010;
pub const DDSCAPS_OFFSCREENPLAIN: Dword = 0x0000_0040;
pub const DDSCAPS_PRIMARYSURFACE: Dword = 0x0000_0200;
pub const DDSCAPS_SYSTEMMEMORY: Dword = 0x0000_0800;
pub const DDSCAPS_VIDEOMEMORY: Dword = 0x0000_4000;

pub const DDPF_PALETTEINDEXED8: Dword = 0x0000_0020;
pub const DDPF_RGB: Dword = 0x0000_0040;

pub const DDBLT_COLORFILL: Dword = 0x0000_0400;
pub const DDBLT_KEYSRC: Dword = 0x0000_8000;
pub const DDBLT_KEYSRCOVERRIDE: Dword = 0x0001_0000;
pub const DDBLTFAST_SRCCOLORKEY: Dword = 0x0000_0001;

pub const DDCKEY_SRCBLT: Dword = 0x0000_0008;

pub const BI_RGB: Dword = 0;
pub const BI_BITFIELDS: Dword = 3;
pub const DIB_RGB_COLORS: Uint = 0;
pub const SRCCOPY: Dword = 0x00CC_0020;
pub const BLACKNESS: Dword = 0x0000_0042;
pub const COLORONCOLOR: i32 = 3;
pub const HALFTONE: i32 = 4;
pub const MM_TEXT: i32 = 1;
pub const GM_COMPATIBLE: i32 = 1;
pub const GM_ADVANCED: i32 = 2;

pub const GWL_STYLE: i32 = -16;
pub const GWL_EXSTYLE: i32 = -20;
pub const GWL_WNDPROC: i32 = -4;
pub const WS_POPUP: Long = -2147483648;
pub const WS_VISIBLE: Long = 0x1000_0000;
pub const SWP_NOSIZE: Uint = 0x0001;
pub const SWP_NOMOVE: Uint = 0x0002;
pub const SWP_NOZORDER: Uint = 0x0004;
pub const SWP_NOACTIVATE: Uint = 0x0010;
pub const SWP_NOSENDCHANGING: Uint = 0x0400;
pub const SWP_FRAMECHANGED: Uint = 0x0020;
pub const SWP_SHOWWINDOW: Uint = 0x0040;
pub const MONITOR_DEFAULTTONEAREST: Dword = 2;

pub const WM_PAINT: Uint = 0x000F;
pub const WM_WINDOWPOSCHANGING: Uint = 0x0046;
pub const WM_WINDOWPOSCHANGED: Uint = 0x0047;
pub const WM_ERASEBKGND: Uint = 0x0014;
pub const WM_NCDESTROY: Uint = 0x0082;
pub const WM_MOUSEMOVE: Uint = 0x0200;
pub const WM_LBUTTONDOWN: Uint = 0x0201;
pub const WM_LBUTTONUP: Uint = 0x0202;
pub const WM_LBUTTONDBLCLK: Uint = 0x0203;
pub const WM_RBUTTONDOWN: Uint = 0x0204;
pub const WM_RBUTTONUP: Uint = 0x0205;
pub const WM_RBUTTONDBLCLK: Uint = 0x0206;
pub const WM_MBUTTONDOWN: Uint = 0x0207;
pub const WM_MBUTTONUP: Uint = 0x0208;
pub const WM_MBUTTONDBLCLK: Uint = 0x0209;

/// A COM interface or class identifier.
#[derive(Clone, Copy, Debug, Default)]
pub struct Guid {
    pub data1: u32,
    pub data2: u16,
    pub data3: u16,
    pub data4: [u8; 8],
}

/// Two identifiers denote the same interface when all their parts agree.
pub open spec fn same_guid(a: Guid, b: Guid) -> bool {
    &&& a.data1 == b.data1
    &&& a.data2 == b.data2
    &&& a.data3 == b.data3
    &&& a.data4@ == b.data4@
}

/// Builds an identifier from its four parts.
pub open spec fn guid_of(d1: u32, d2: u16, d3: u16, d4: Seq<u8>) -> Guid
    recommends d4.len() == 8,
{
    Guid { data1: d1, data2: d2, data3: d3, data4: [d4[0], d4[1], d4[2], d4[3], d4[4], d4[5], d4[6], d4[7]] }
}

/// The class identifier of DirectDraw.
pub open spec fn spec_clsid_directdraw() -> Guid {
    guid_of(0xD7B70EE0, 0x4340, 0x11CF, seq![0xB0u8, 0x63, 0x00, 0x20, 0xAF, 0xC2, 0xCD, 0x35])
}

/// The interface identifier of `IUnknown`.
pub open spec fn spec_iid_iunknown() -> Guid {
    guid_of(0, 0, 0, seq![0xC0u8, 0, 0, 0, 0, 0, 0, 0x46])
}

/// The interface identifiers of the DirectDraw v1 family differ only in `data1`.
pub open spec fn spec_iid_directdraw_family(data1: u32) -> Guid {
    guid_of(data1, 0xA733, 0x11CE, seq![0xA5u8, 0x21, 0x00, 0x20, 0xAF, 0x0B, 0xE5, 0x60])
}

pub open spec fn spec_iid_idirectdraw() -> Guid { spec_iid_directdraw_family(0x6C14DB80) }
pub open spec fn spec_iid_idirectdrawsurface() -> Guid { spec_iid_directdraw_family(0x6C14DB81) }
pub open spec fn spec_iid_idirectdrawpalette() -> Guid { spec_iid_directdraw_family(0x6C14DB84) }
pub open spec fn spec_iid_idirectdrawclipper() -> Guid { spec_iid_directdraw_family(0x6C14DB85) }

fn directdraw_family(data1: u32) -> (g: Guid)
    ensures same_guid(g, spec_iid_directdraw_family(data1)),
{
    Guid { data1, data2: 0xA733, data3: 0x11CE, data4: [0xA5, 0x21, 0x00, 0x20, 0xAF, 0x0B, 0xE5, 0x60] }
}

/// `CLSID_DirectDraw`.
pub fn clsid_directdraw() -> (g: Guid)
    ensures same_guid(g, spec_clsid_directdraw()),
{
    Guid { data1: 0xD7B70EE0, data2: 0x4340, data3: 0x11CF, data4: [0xB0, 0x63, 0x00, 0x20, 0xAF, 0xC2, 0xCD, 0x35] }
}

/// `IID_IUnknown`.
pub fn iid_iunknown() -> (g: Guid)
    ensures same_guid(g, spec_iid_iunknown()),
{
    Guid { data1: 0, data2: 0, data3: 0, data4: [0xC0, 0, 0, 0, 0, 0, 0, 0x46] }
}

/// `IID_IDirectDraw`.
pub fn iid_idirectdraw() -> (g: Guid)
    ensures same_guid(g, spec_iid_idirectdraw()),
{
    directdraw_family(0x6C14DB80)
}

/// `IID_IDirectDrawSurface`.
pub fn iid_idirectdrawsurface() -> (g: Guid)
    ensures same_guid(g, spec_iid_idirectdrawsurface()),
{
    directdraw_family(0x6C14DB81)
}

/// `IID_IDirectDrawPalette`.
pub fn iid_idirectdrawpalette() -> (g: Guid)
    ensures same_guid(g, spec_iid_idirectdrawpalette()),
{
    directdraw_family(0x6C14DB84)
}

/// `IID_IDirectDrawClipper`.
pub fn iid_idirectdrawclipper() -> (g: Guid)
    ensures same_guid(g, spec_iid_idirectdrawclipper()),
{
    directdraw_family(0x6C14DB85)
}

/// Compares an optional identifier with an expected one; an absent
/// identifier (a null pointer) never matches.
pub fn guid_eq(pointer: Option<&Guid>, expected: &Guid) -> (r: bool)
    ensures
        r == (pointer is Some && same_guid(*pointer.unwrap(), *expected)),
{
    match pointer {
        None => false,
        Some(g) => {
            if g.data1 != expected.data1 || g.data2 != expected.data2 || g.data3 != expected.data3 {
                return false;
            }
            let mut i: usize = 0;
            while i < 8
                invariant
                    i <= 8,
                    pointer is Some,
                    *pointer.unwrap() == *g,
                    forall|j: int| 0 <= j < i ==> g.data4@[j] == expected.data4@[j],
                decreases 8 - i,
            {
                if g.data4[i] != expected.data4[i] {
                    assert(g.data4@[i as int] != expected.data4@[i as int]);
                    assert(g.data4@ != expected.data4@);
                    return false;
                }
                i = i + 1;
            }
            assert(g.data4@ =~= expected.data4@);
            true
        }
    }
}

/// `SUCCEEDED(hr)`: success codes are the non-negative ones.
pub fn succeeded(hr: Hresult) -> (r: bool)
    ensures r == (hr >= 0),
{
    hr >= 0
}

/// The mouse messages whose coordinates are remapped: `WM_MOUSEMOVE`
/// through `WM_MBUTTONDBLCLK`.
pub open spec fn is_mouse_message(message: Uint) -> bool {
    WM_MOUSEMOVE <= message <= WM_MBUTTONDBLCLK
}

pub fn mouse_message(message: Uint) -> (r: bool)
    ensures r == is_mouse_message(message),
{
    match message {
        WM_MOUSEMOVE | WM_LBUTTONDOWN | WM_LBUTTONUP | WM_LBUTTONDBLCLK | WM_RBUTTONDOWN
        | WM_RBUTTONUP | WM_RBUTTONDBLCLK | WM_MBUTTONDOWN | WM_MBUTTONUP | WM_MBUTTONDBLCLK => true,
        _ => false,
    }
}

/// The bytes of a NUL-terminated string, without the terminator.
pub fn c_string_bytes(bytes: &[u8]) -> (r: &[u8])
    requires
        exists|i: int| 0 <= i < bytes@.len() && bytes@[i] == 0,
    ensures
        r@.len() < bytes@.len(),
        bytes@[r@.len() as int] == 0,
        r@ == bytes@.subrange(0, r@.len() as int),
        forall|j: int| 0 <= j < r@.len() ==> r@[j] != 0,
{
    let mut len: usize = 0;
    while bytes[len] != 0
        invariant
            len < bytes@.len(),
            exists|i: int| len <= i < bytes@.len() && bytes@[i] == 0,
            forall|j: int| 0 <= j < len ==> bytes@[j] != 0,
        decreases bytes@.len() - len,
    {
        len = len + 1;
    }
    vstd::slice::slice_subrange(bytes, 0, len)
}

/// `v` saturated to the range of `i32`.
pub open spec fn sat_i32(v: int) -> i32 {
    if v > i32::MAX { i32::MAX } else if v < i32::MIN { i32::MIN } else { v as i32 }
}

/// `a - b`, saturating at the bounds of `i32`.
pub fn saturating_sub_i32(a: i32, b: i32) -> (r: i32)
    ensures r == sat_i32(a - b),
{
    let d: i64 = a as i64 - b as i64;
    if d > i32::MAX as i64 {
        i32::MAX
    } else if d < i32::MIN as i64 {
        i32::MIN
    } else {
        d as i32
    }
}

/// A point in integer coordinates.
#[derive(Clone, Copy, Debug, Default, PartialEq, Eq, Structural)]
pub struct Point {
    pub x: Long,
    pub y: Long,
}

/// A rectangle with exclusive right and bottom edges.
#[derive(Clone, Copy, Debug, Default, PartialEq, Eq, Structural)]
pub struct Rect {
    pub left: Long,
    pub top: Long,
    pub right: Long,
    pub bottom: Long,
}

impl Rect {
    pub open spec fn spec_width(self) -> i32 {
        sat_i32(self.right - self.left)
    }

    pub open spec fn spec_height(self) -> i32 {
        sat_i32(self.bottom - self.top)
    }

    /// `right - left`, saturating.
    pub fn width(self) -> (r: i32)
        ensures r == self.spec_width(),
    {
        saturating_sub_i32(self.right, self.left)
    }

    /// `bottom - top`, saturating.
    pub fn height(self) -> (r: i32)
        ensures r == self.spec_height(),
    {
        saturating_sub_i32(self.bottom, self.top)
    }
}

/// A colour-key range; a pixel value `v` is keyed when `low <= v <= high`.
#[derive(Clone, Copy, Debug, Default, PartialEq, Eq, Structural)]
pub struct DdColorKey {
    pub low: Dword,
    pub high: Dword,
}

/// One palette entry as DirectDraw stores it.
#[derive(Clone, Copy, Debug, Default, PartialEq, Eq, Structural)]
pub struct PaletteEntry {
    pub red: u8,
    pub green: u8,
    pub blue: u8,
    pub flags: u8,
}

/// One DIB colour-table entry.
#[derive(Clone, Copy, Debug, Default, PartialEq, Eq, Structural)]
pub struct RgbQuad {
    pub blue: u8,
    pub green: u8,
    pub red: u8,
    pub reserved: u8,
}

/// `BITMAPINFOHEADER`.
#[derive(Clone, Copy, Debug, Default, PartialEq, Eq, Structural)]
pub struct BitmapInfoHeader {
    pub bi_size: Dword,
    pub bi_width: Long,
    pub bi_height: Long,
    pub bi_planes: u16,
    pub bi_bit_count: u16,
    pub bi_compression: Dword,
    pub bi_size_image: Dword,
    pub bi_x_pels_per_meter: Long,
    pub bi_y_pels_per_meter: Long,
    pub bi_clr_used: Dword,
    pub bi_clr_important: Dword,
}

/// `MONITORINFO`.
#[derive(Clone, Copy, Debug, Default, PartialEq, Eq, Structural)]
pub struct MonitorInfoA {
    pub cb_size: Dword,
    pub rc_monitor: Rect,
    pub rc_work: Rect,
    pub dw_flags: Dword,
}

/// `DDPIXELFORMAT`.
#[derive(Clone, Copy, Debug, Default, PartialEq, Eq, Structural)]
pub struct DdPixelFormat {
    pub size: Dword,
    pub flags: Dword,
    pub four_cc: Dword,
    pub rgb_bit_count: Dword,
    pub r_mask: Dword,
    pub g_mask: Dword,
    pub b_mask: Dword,
    pub a_mask: Dword,
}

/// `DDSCAPS`.
#[derive(Clone, Copy, Debug, Default, PartialEq, Eq, Structural)]
pub struct DdCaps {
    pub caps: Dword,
}

/// `DDSURFACEDESC`; `surface` holds the address of the pixel memory.
#[derive(Clone, Copy, Debug, PartialEq, Eq, Structural)]
pub struct DdSurfaceDesc {
    pub size: Dword,
    pub flags: Dword,
    pub height: Dword,
    pub width: Dword,
    pub pitch: Long,
    pub back_buffer_count: Dword,
    pub mip_map_count: Dword,
    pub alpha_bit_depth: Dword,
    pub reserved: Dword,
    pub surface: usize,
    pub ck_dest_overlay: DdColorKey,
    pub ck_dest_blt: DdColorKey,
    pub ck_src_overlay: DdColorKey,
    pub ck_src_blt: DdColorKey,
    pub pixel_format: DdPixelFormat,
    pub caps: DdCaps,
}

/// Size in bytes of `DDSURFACEDESC` on 32-bit Windows.
pub const DD_SURFACE_DESC_SIZE: Dword = 108;
/// Size in bytes of `DDPIXELFORMAT`.
pub const DD_PIXEL_FORMAT_SIZE: Dword = 32;
/// Size in bytes of `BITMAPINFOHEADER`.
pub const BITMAP_INFO_HEADER_SIZE: Dword = 40;
/// Size in bytes of `MONITORINFO`.
pub const MONITOR_INFO_SIZE: Dword = 40;

pub open spec fn zero_key() -> DdColorKey {
    DdColorKey { low: 0, high: 0 }
}

pub open spec fn zero_pixel_format() -> DdPixelFormat {
    DdPixelFormat { size: 0, flags: 0, four_cc: 0, rgb_bit_count: 0, r_mask: 0, g_mask: 0, b_mask: 0, a_mask: 0 }
}

/// An empty descriptor whose `size` field is filled in.
pub open spec fn spec_empty_surface_desc() -> DdSurfaceDesc {
    DdSurfaceDesc {
        size: DD_SURFACE_DESC_SIZE,
        flags: 0,
        height: 0,
        width: 0,
        pitch: 0,
        back_buffer_count: 0,
        mip_map_count: 0,
        alpha_bit_depth: 0,
        reserved: 0,
        surface: 0,
        ck_dest_overlay: zero_key(),
        ck_dest_blt: zero_key(),
        ck_src_overlay: zero_key(),
        ck_src_blt: zero_key(),
        pixel_format: zero_pixel_format(),
        caps: DdCaps { caps: 0 },
    }
}

impl Default for DdSurfaceDesc {
    fn default() -> (r: Self)
        ensures r == spec_empty_surface_desc(),
    {
        let key = DdColorKey { low: 0, high: 0 };
        DdSurfaceDesc {
            size: DD_SURFACE_DESC_SIZE,
            flags: 0,
            height: 0,
            width: 0,
            pitch: 0,
            back_buffer_count: 0,
            mip_map_count: 0,
            alpha_bit_depth: 0,
            reserved: 0,
            surface: 0,
            ck_dest_overlay: key,
            ck_dest_blt: key,
            ck_src_overlay: key,
            ck_src_blt: key,
            pixel_format: DdPixelFormat {
                size: 0, flags: 0, four_cc: 0, rgb_bit_count: 0, r_mask: 0, g_mask: 0, b_mask: 0, a_mask: 0,
            },
            caps: DdCaps { caps: 0 },
        }
    }
}

/// The prefix of `DDBLTFX` up to the source colour key.
#[derive(Clone, Copy, Debug, Default, PartialEq, Eq)]
pub struct DdBltFxPrefix {
    pub before_fill: [Dword; 20],
    pub fill_color: Dword,
    pub dest_color_key: DdColorKey,
    pub src_color_key: DdColorKey,
}

/// `RGNDATAHEADER`.
#[derive(Clone, Copy, Debug, Default, PartialEq, Eq, Structural)]
pub struct RgnDataHeader {
    pub size: Dword,
    pub region_type: Dword,
    pub count: Dword,
    pub region_size: Dword,
    pub bound: Rect,
}

/// `RGNDATA` with its one-byte trailing buffer.
#[derive(Clone, Copy, Debug, Default, PartialEq, Eq)]
pub struct RgnData {
    pub header: RgnDataHeader,
    pub buffer: [u8; 1],
}

} // verus!
