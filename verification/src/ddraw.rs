//! State of the `IDirectDraw` object and the descriptors and plans it
//! computes for `CreateSurface`, `EnumDisplayModes`, `GetDisplayMode` and
//! `GetCaps`.
use vstd::prelude::*;
use crate::abi::{Dword, Guid, DdSurfaceDesc, DdPixelFormat, guid_eq, iid_iunknown, iid_idirectdraw,
    same_guid, spec_iid_iunknown, spec_iid_idirectdraw, spec_empty_surface_desc, DDSD_WIDTH, DDSD_HEIGHT,
    DDSD_PIXELFORMAT, DDSD_BACKBUFFERCOUNT, DDSCAPS_PRIMARYSURFACE, DDSCAPS_FLIP, DDSCAPS_COMPLEX,
    DD_PIXEL_FORMAT_SIZE, DDPF_RGB};
use crate::dib::DDPF_RGB_PALETTEINDEXED8;
use crate::state::{DrawState, spec_default_state, new_shared};

verus! {

/// `DDSD_WIDTH | DDSD_HEIGHT | DDSD_PIXELFORMAT | DDSD_CAPS`.
pub const MODE_DESC_FLAGS: Dword = 0x0000_1007;
/// `DDSCAPS_BACKBUFFER | DDSCAPS_SYSTEMMEMORY`: the caps of a created back buffer.
pub const BACK_BUFFER_CAPS: Dword = 0x0000_0804;
/// `DDSCAPS_FLIP | DDSCAPS_COMPLEX`.
pub const FLIP_CHAIN_CAPS: Dword = 0x0000_0018;
/// The refresh rate reported by `GetMonitorFrequency`.
pub const MONITOR_FREQUENCY: Dword = 60;

/// The DirectDraw object: a reference count and the shared display state.
#[derive(Clone, Copy, Debug, PartialEq, Eq, Structural)]
pub struct DirectDraw {
    pub refs: u32,
    pub state: DrawState,
}

/// `QueryInterface` accepts `IUnknown` and `IDirectDraw`.
pub fn ddraw_accepts_interface(riid: Option<&Guid>) -> (r: bool)
    ensures
        r == (riid is Some && (same_guid(*riid.unwrap(), spec_iid_iunknown())
            || same_guid(*riid.unwrap(), spec_iid_idirectdraw()))),
{
    let unknown = iid_iunknown();
    let own = iid_idirectdraw();
    guid_eq(riid, &unknown) || guid_eq(riid, &own)
}

impl DirectDraw {
    /// A new object with one reference and the default display state.
    pub fn create() -> (r: DirectDraw)
        ensures r == (DirectDraw { refs: 1, state: spec_default_state() }),
    {
        DirectDraw { refs: 1, state: new_shared() }
    }

    /// `AddRef`.
    pub fn add_ref(&mut self) -> (r: u32)
        requires old(self).refs < u32::MAX,
        ensures
            r == old(self).refs + 1,
            *final(self) == (DirectDraw { refs: r, ..*old(self) }),
    {
        self.refs = self.refs + 1;
        self.refs
    }

    /// `Release`; at 0 the caller leaves borderless mode and destroys the object.
    pub fn release(&mut self) -> (r: u32)
        requires old(self).refs > 0,
        ensures
            r == old(self).refs - 1,
            *final(self) == (DirectDraw { refs: r, ..*old(self) }),
    {
        self.refs = self.refs - 1;
        self.refs
    }
}

/// Sizes and links of the surfaces `CreateSurface` makes.
#[derive(Clone, Copy, Debug, PartialEq, Eq, Structural)]
pub struct SurfacePlan {
    pub width: Dword,
    pub height: Dword,
    pub bpp: Dword,
    pub primary: bool,
    /// A back buffer of the same size is created and attached.
    pub back_buffer: bool,
}

pub open spec fn spec_plan_surface(state: DrawState, desc: DdSurfaceDesc) -> SurfacePlan {
    let caps = desc.caps.caps;
    let primary = caps & DDSCAPS_PRIMARYSURFACE != 0;
    SurfacePlan {
        width: if primary || desc.flags & DDSD_WIDTH == 0 { state.logical_width } else { desc.width },
        height: if primary || desc.flags & DDSD_HEIGHT == 0 { state.logical_height } else { desc.height },
        bpp: if desc.flags & DDSD_PIXELFORMAT != 0 && desc.pixel_format.rgb_bit_count != 0 {
            desc.pixel_format.rgb_bit_count
        } else {
            state.bpp
        },
        primary,
        back_buffer: primary && ((desc.flags & DDSD_BACKBUFFERCOUNT != 0 && desc.back_buffer_count > 0)
            || caps & FLIP_CHAIN_CAPS != 0),
    }
}

/// `CreateSurface`: a primary surface always has the logical mode's size;
/// other surfaces take the requested size where given. The depth is the
/// requested pixel format's, else the logical mode's. A primary surface
/// that asks for back buffers or a flip chain gets one back buffer.
pub fn plan_surface(state: &DrawState, desc: &DdSurfaceDesc) -> (r: SurfacePlan)
    ensures r == spec_plan_surface(*state, *desc),
{
    let caps = desc.caps.caps;
    let primary = caps & DDSCAPS_PRIMARYSURFACE != 0;
    let width = if primary || desc.flags & DDSD_WIDTH == 0 { state.logical_width } else { desc.width };
    let height = if primary || desc.flags & DDSD_HEIGHT == 0 { state.logical_height } else { desc.height };
    let bpp = if desc.flags & DDSD_PIXELFORMAT != 0 && desc.pixel_format.rgb_bit_count != 0 {
        desc.pixel_format.rgb_bit_count
    } else {
        state.bpp
    };
    let back_buffer = primary && ((desc.flags & DDSD_BACKBUFFERCOUNT != 0 && desc.back_buffer_count > 0)
        || caps & FLIP_CHAIN_CAPS != 0);
    SurfacePlan { width, height, bpp, primary, back_buffer }
}

/// The pixel format `EnumDisplayModes` reports for a depth: palettized at
/// 8 bits, 5-6-5 at 16 bits, 8-8-8 masks at any other depth (kept as asked).
pub open spec fn spec_mode_format(bpp: Dword) -> DdPixelFormat {
    if bpp == 8 {
        DdPixelFormat { size: DD_PIXEL_FORMAT_SIZE, flags: DDPF_RGB_PALETTEINDEXED8, four_cc: 0, rgb_bit_count: 8,
            r_mask: 0, g_mask: 0, b_mask: 0, a_mask: 0 }
    } else if bpp == 16 {
        DdPixelFormat { size: DD_PIXEL_FORMAT_SIZE, flags: DDPF_RGB, four_cc: 0, rgb_bit_count: 16,
            r_mask: 0xF800, g_mask: 0x07E0, b_mask: 0x001F, a_mask: 0 }
    } else {
        DdPixelFormat { size: DD_PIXEL_FORMAT_SIZE, flags: DDPF_RGB, four_cc: 0, rgb_bit_count: bpp,
            r_mask: 0x00FF_0000, g_mask: 0x0000_FF00, b_mask: 0x0000_00FF, a_mask: 0 }
    }
}

fn mode_format(bpp: Dword) -> (r: DdPixelFormat)
    ensures r == spec_mode_format(bpp),
{
    if bpp == 8 {
        DdPixelFormat { size: DD_PIXEL_FORMAT_SIZE, flags: DDPF_RGB_PALETTEINDEXED8, four_cc: 0, rgb_bit_count: 8,
            r_mask: 0, g_mask: 0, b_mask: 0, a_mask: 0 }
    } else if bpp == 16 {
        DdPixelFormat { size: DD_PIXEL_FORMAT_SIZE, flags: DDPF_RGB, four_cc: 0, rgb_bit_count: 16,
            r_mask: 0xF800, g_mask: 0x07E0, b_mask: 0x001F, a_mask: 0 }
    } else {
        DdPixelFormat { size: DD_PIXEL_FORMAT_SIZE, flags: DDPF_RGB, four_cc: 0, rgb_bit_count: bpp,
            r_mask: 0x00FF_0000, g_mask: 0x0000_FF00, b_mask: 0x0000_00FF, a_mask: 0 }
    }
}

pub open spec fn spec_enumerated_mode(state: DrawState, filter: Option<DdSurfaceDesc>) -> DdSurfaceDesc {
    let width = match filter { Some(f) => if f.width != 0 { f.width } else { state.logical_width }, None => state.logical_width };
    let height = match filter { Some(f) => if f.height != 0 { f.height } else { state.logical_height }, None => state.logical_height };
    let bpp = match filter {
        Some(f) => if f.pixel_format.rgb_bit_count != 0 { f.pixel_format.rgb_bit_count } else { state.bpp },
        None => state.bpp,
    };
    DdSurfaceDesc {
        flags: MODE_DESC_FLAGS,
        width,
        height,
        pixel_format: spec_mode_format(bpp),
        ..spec_empty_surface_desc()
    }
}

/// The single mode `EnumDisplayModes` reports: the filter's size and depth
/// where it gives them, the logical mode's otherwise.
pub fn enumerated_mode(state: &DrawState, filter: Option<&DdSurfaceDesc>) -> (r: DdSurfaceDesc)
    ensures r == spec_enumerated_mode(*state, match filter { Some(f) => Some(*f), None => None }),
{
    let mut desc = DdSurfaceDesc::default();
    desc.flags = MODE_DESC_FLAGS;
    let (width, height, bpp) = match filter {
        Some(f) => (
            if f.width != 0 { f.width } else { state.logical_width },
            if f.height != 0 { f.height } else { state.logical_height },
            if f.pixel_format.rgb_bit_count != 0 { f.pixel_format.rgb_bit_count } else { state.bpp },
        ),
        None => (state.logical_width, state.logical_height, state.bpp),
    };
    desc.width = width;
    desc.height = height;
    desc.pixel_format = mode_format(bpp);
    desc
}

pub open spec fn spec_display_mode(state: DrawState) -> DdSurfaceDesc {
    let b = state.bpp;
    DdSurfaceDesc {
        flags: MODE_DESC_FLAGS,
        width: state.logical_width,
        height: state.logical_height,
        pixel_format: if b == 16 {
            DdPixelFormat { size: DD_PIXEL_FORMAT_SIZE, flags: DDPF_RGB, four_cc: 0, rgb_bit_count: 16,
                r_mask: 0xF800, g_mask: 0x07E0, b_mask: 0x001F, a_mask: 0 }
        } else if b == 8 {
            DdPixelFormat { size: DD_PIXEL_FORMAT_SIZE, flags: DDPF_RGB_PALETTEINDEXED8, four_cc: 0, rgb_bit_count: 8,
                r_mask: 0, g_mask: 0, b_mask: 0, a_mask: 0 }
        } else {
            DdPixelFormat { size: DD_PIXEL_FORMAT_SIZE, flags: DDPF_RGB, four_cc: 0, rgb_bit_count: b,
                r_mask: 0x00FF_0000, g_mask: 0x0000_FF00, b_mask: 0x0000_00FF, a_mask: 0 }
        },
        ..spec_empty_surface_desc()
    }
}

/// `GetDisplayMode`: the logical mode, never the desktop's.
pub fn display_mode(state: &DrawState) -> (r: DdSurfaceDesc)
    ensures r == spec_display_mode(*state),
{
    let mut desc = DdSurfaceDesc::default();
    desc.flags = MODE_DESC_FLAGS;
    desc.width = state.logical_width;
    desc.height = state.logical_height;
    desc.pixel_format.size = DD_PIXEL_FORMAT_SIZE;
    desc.pixel_format.flags = DDPF_RGB;
    desc.pixel_format.rgb_bit_count = state.bpp;
    if state.bpp == 16 {
        desc.pixel_format.r_mask = 0xF800;
        desc.pixel_format.g_mask = 0x07E0;
        desc.pixel_format.b_mask = 0x001F;
    } else if state.bpp == 8 {
        desc.pixel_format.flags = DDPF_RGB_PALETTEINDEXED8;
    } else {
        desc.pixel_format.r_mask = 0x00FF_0000;
        desc.pixel_format.g_mask = 0x0000_FF00;
        desc.pixel_format.b_mask = 0x0000_00FF;
    }
    desc
}

/// `GetCaps` zeroes a caller's capability structure after its 4-byte size
/// field when that size lies in `4..=1024`; returns how many bytes to zero.
pub fn caps_clear_len(size: u32) -> (r: usize)
    ensures r == if 4 <= size <= 1024 { size - 4 } else { 0 },
{
    if size >= 4 && size <= 1024 { (size - 4) as usize } else { 0 }
}

/// The logical mode a surface is created in follows the last
/// `SetDisplayMode`: a primary surface is exactly the logical size.
pub proof fn law_primary_surface_has_logical_size(state: DrawState, desc: DdSurfaceDesc)
    requires desc.caps.caps & DDSCAPS_PRIMARYSURFACE != 0,
    ensures
        spec_plan_surface(state, desc).width == state.logical_width,
        spec_plan_surface(state, desc).height == state.logical_height,
        spec_plan_surface(state, desc).primary,
{
}

/// A non-primary surface takes each dimension the descriptor gives
/// (`DDSD_WIDTH` / `DDSD_HEIGHT`) and the logical mode's otherwise; its
/// depth is the descriptor's pixel format when one is given.
pub proof fn law_offscreen_surface_has_requested_size(state: DrawState, desc: DdSurfaceDesc)
    requires desc.caps.caps & DDSCAPS_PRIMARYSURFACE == 0,
    ensures
        desc.flags & DDSD_WIDTH != 0 ==> spec_plan_surface(state, desc).width == desc.width,
        desc.flags & DDSD_HEIGHT != 0 ==> spec_plan_surface(state, desc).height == desc.height,
        desc.flags & DDSD_WIDTH == 0 ==> spec_plan_surface(state, desc).width == state.logical_width,
        desc.flags & DDSD_HEIGHT == 0 ==> spec_plan_surface(state, desc).height == state.logical_height,
        (desc.flags & DDSD_PIXELFORMAT != 0 && desc.pixel_format.rgb_bit_count != 0)
            ==> spec_plan_surface(state, desc).bpp == desc.pixel_format.rgb_bit_count,
        !spec_plan_surface(state, desc).primary,
        !spec_plan_surface(state, desc).back_buffer,
{
}

} // verus!
