//! State of a software `IDirectDrawSurface`: its bitmap layout, reference
//! count, attached back buffer, palette, clipper and colour key, plus the
//! decisions taken by `Blt`, `BltFast`, `Flip`, `Lock` and `GetDC`, the
//! surface registry and the presenter cache key.
use vstd::prelude::*;
use crate::abi::{Guid, guid_eq, iid_iunknown, iid_idirectdrawsurface, same_guid, spec_iid_iunknown,
    spec_iid_idirectdrawsurface, Dword, Hresult, Rect, Point, DdColorKey, DdCaps, DdSurfaceDesc, DdPixelFormat,
    DD_OK, E_INVALIDARG, E_FAIL, E_POINTER, DD_SURFACE_DESC_SIZE, DDBLT_COLORFILL, DDBLT_KEYSRC,
    DDBLT_KEYSRCOVERRIDE, DDBLTFAST_SRCCOLORKEY, saturating_sub_i32, sat_i32};
use crate::blit::{spec_normalized_bpp, normalized_bpp, spec_bytes_per_pixel, bytes_per_pixel,
    spec_clamp_rect, clamp_rect, spec_overlap_area, overlap_area};
use crate::dib::{DibLayout, dib_layout, dib_layout_ok, spec_dib_layout, spec_pixel_format, pixel_format};

verus! {

/// `DDSD_CAPS | DDSD_HEIGHT | DDSD_WIDTH | DDSD_PITCH | DDSD_LPSURFACE | DDSD_PIXELFORMAT`.
pub const SURFACE_DESC_FLAGS: Dword = 0x0000_180F;

/// `QueryInterface` accepts `IUnknown` and `IDirectDrawSurface`.
pub fn surface_accepts_interface(riid: Option<&Guid>) -> (r: bool)
    ensures
        r == (riid is Some && (same_guid(*riid.unwrap(), spec_iid_iunknown())
            || same_guid(*riid.unwrap(), spec_iid_idirectdrawsurface()))),
{
    let unknown = iid_iunknown();
    let own = iid_idirectdrawsurface();
    guid_eq(riid, &unknown) || guid_eq(riid, &own)
}

/// A software surface. `attached`, `palette` and `clipper` are handles of
/// the linked objects (0 for none); the surface holds one reference on each.
#[derive(Clone, Copy, Debug, PartialEq, Eq, Structural)]
pub struct Surface {
    pub refs: u32,
    pub width: Dword,
    pub height: Dword,
    pub bpp: Dword,
    pub caps: Dword,
    pub is_primary: bool,
    pub layout: DibLayout,
    pub attached: usize,
    pub palette: usize,
    pub clipper: usize,
    pub color_key: Option<DdColorKey>,
    pub saved_dc: i32,
}

impl Surface {
    /// The surface's bitmap matches its dimensions and depth.
    pub open spec fn wf(self) -> bool {
        &&& dib_layout_ok(self.width, self.height, self.bpp)
        &&& self.bpp == spec_normalized_bpp(self.bpp)
        &&& self.layout == spec_dib_layout(self.width, self.height, self.bpp)
    }

    /// Creates a surface with one reference and no links, or `E_INVALIDARG`
    /// when no bitmap of that size can be made.
    pub fn create(width: Dword, height: Dword, bpp: Dword, caps: Dword, is_primary: bool) -> (r: Result<Surface, Hresult>)
        ensures
            dib_layout_ok(width, height, spec_normalized_bpp(bpp)) <==> r is Ok,
            !dib_layout_ok(width, height, spec_normalized_bpp(bpp)) ==> r == Err::<Surface, Hresult>(E_INVALIDARG),
            r matches Ok(s) ==> {
                &&& s.wf()
                &&& s.refs == 1
                &&& s.width == width
                &&& s.height == height
                &&& s.bpp == spec_normalized_bpp(bpp)
                &&& s.caps == caps
                &&& s.is_primary == is_primary
                &&& s.attached == 0
                &&& s.palette == 0
                &&& s.clipper == 0
                &&& s.color_key is None
                &&& s.saved_dc == 0
            },
    {
        let bpp = normalized_bpp(bpp);
        let layout = dib_layout(width, height, bpp)?;
        Ok(Surface {
            refs: 1,
            width,
            height,
            bpp,
            caps,
            is_primary,
            layout,
            attached: 0,
            palette: 0,
            clipper: 0,
            color_key: None,
            saved_dc: 0,
        })
    }

    /// `AddRef`: one more reference; returns the new count.
    pub fn add_ref(&mut self) -> (r: u32)
        requires old(self).refs < u32::MAX,
        ensures
            r == old(self).refs + 1,
            *final(self) == (Surface { refs: r, ..*old(self) }),
    {
        self.refs = self.refs + 1;
        self.refs
    }

    /// `Release`: one reference fewer; returns the remaining count. At zero
    /// the caller destroys the surface after `detach_all`.
    pub fn release(&mut self) -> (r: u32)
        requires old(self).refs > 0,
        ensures
            r == old(self).refs - 1,
            *final(self) == (Surface { refs: r, ..*old(self) }),
    {
        self.refs = self.refs - 1;
        self.refs
    }

    /// Unlinks the back buffer, palette and clipper, returning their handles
    /// so that the caller can release them.
    pub fn detach_all(&mut self) -> (r: (usize, usize, usize))
        ensures
            r == (old(self).attached, old(self).palette, old(self).clipper),
            *final(self) == (Surface { attached: 0, palette: 0, clipper: 0, ..*old(self) }),
    {
        let r = (self.attached, self.palette, self.clipper);
        self.attached = 0;
        self.palette = 0;
        self.clipper = 0;
        r
    }

    pub open spec fn spec_full_rect(self) -> Rect {
        Rect { left: 0, top: 0, right: self.width as i32, bottom: self.height as i32 }
    }

    /// The whole logical surface.
    pub fn full_rect(&self) -> (r: Rect)
        requires self.wf(),
        ensures r == self.spec_full_rect(),
    {
        Rect { left: 0, top: 0, right: self.width as i32, bottom: self.height as i32 }
    }

    /// `AddAttachedSurface`: links `attached` (a non-null handle) and returns
    /// the previous link, which the caller releases.
    pub fn add_attached_surface(&mut self, attached: usize) -> (old_link: usize)
        ensures
            old_link == old(self).attached,
            *final(self) == (Surface { attached, ..*old(self) }),
    {
        let previous = self.attached;
        self.attached = attached;
        previous
    }

    /// `DeleteAttachedSurface`: unlinks `attached` when it is the current
    /// non-null link; returns the handle to release.
    pub fn delete_attached_surface(&mut self, attached: usize) -> (r: Option<usize>)
        ensures
            (old(self).attached == attached && attached != 0) ==> r == Some(attached)
                && *final(self) == (Surface { attached: 0, ..*old(self) }),
            !(old(self).attached == attached && attached != 0) ==> r is None && *final(self) == *old(self),
    {
        if self.attached == attached && attached != 0 {
            self.attached = 0;
            Some(attached)
        } else {
            None
        }
    }

    /// `GetAttachedSurface`: the back buffer, or `E_FAIL` when there is none.
    pub fn attached_surface(&self) -> (r: Result<usize, Hresult>)
        ensures
            self.attached != 0 ==> r == Ok::<usize, Hresult>(self.attached),
            self.attached == 0 ==> r == Err::<usize, Hresult>(E_FAIL),
    {
        if self.attached == 0 { Err(E_FAIL) } else { Ok(self.attached) }
    }

    /// `GetCaps`.
    pub fn get_caps(&self) -> (r: DdCaps)
        ensures r == (DdCaps { caps: self.caps }),
    {
        DdCaps { caps: self.caps }
    }

    /// `GetClipper`: the clipper, or `E_FAIL` when there is none.
    pub fn get_clipper(&self) -> (r: Result<usize, Hresult>)
        ensures
            self.clipper != 0 ==> r == Ok::<usize, Hresult>(self.clipper),
            self.clipper == 0 ==> r == Err::<usize, Hresult>(E_FAIL),
    {
        if self.clipper == 0 { Err(E_FAIL) } else { Ok(self.clipper) }
    }

    /// `SetClipper`: links `value` (0 to unlink); returns the previous link.
    pub fn set_clipper(&mut self, value: usize) -> (old_link: usize)
        ensures
            old_link == old(self).clipper,
            *final(self) == (Surface { clipper: value, ..*old(self) }),
    {
        let previous = self.clipper;
        self.clipper = value;
        previous
    }

    /// `GetPalette`: the palette, or `E_FAIL` when there is none.
    pub fn get_palette(&self) -> (r: Result<usize, Hresult>)
        ensures
            self.palette != 0 ==> r == Ok::<usize, Hresult>(self.palette),
            self.palette == 0 ==> r == Err::<usize, Hresult>(E_FAIL),
    {
        if self.palette == 0 { Err(E_FAIL) } else { Ok(self.palette) }
    }

    /// `SetPalette`: links `value` (0 to unlink); returns the previous link.
    pub fn set_palette(&mut self, value: usize) -> (old_link: usize)
        ensures
            old_link == old(self).palette,
            *final(self) == (Surface { palette: value, ..*old(self) }),
    {
        let previous = self.palette;
        self.palette = value;
        previous
    }

    /// `GetColorKey`: the source colour key, or `E_FAIL` when none is set.
    pub fn get_color_key(&self) -> (r: Result<DdColorKey, Hresult>)
        ensures
            self.color_key matches Some(k) ==> r == Ok::<DdColorKey, Hresult>(k),
            self.color_key is None ==> r == Err::<DdColorKey, Hresult>(E_FAIL),
    {
        match self.color_key {
            Some(k) => Ok(k),
            None => Err(E_FAIL),
        }
    }

    /// `SetColorKey`: `None` (a null key) clears the key.
    pub fn set_color_key(&mut self, value: Option<DdColorKey>)
        ensures *final(self) == (Surface { color_key: value, ..*old(self) }),
    {
        self.color_key = value;
    }

    /// `GetPixelFormat`.
    pub fn get_pixel_format(&self) -> (r: DdPixelFormat)
        ensures r == spec_pixel_format(self.bpp),
    {
        pixel_format(self.bpp)
    }

    /// The descriptor reported by `GetSurfaceDesc` when the logical pixels
    /// start at address `bits`.
    pub open spec fn spec_desc(self, bits: usize) -> DdSurfaceDesc {
        DdSurfaceDesc {
            size: DD_SURFACE_DESC_SIZE,
            flags: SURFACE_DESC_FLAGS,
            height: self.height,
            width: self.width,
            pitch: self.layout.pitch as i32,
            back_buffer_count: if self.attached != 0 { 1 } else { 0 },
            mip_map_count: 0,
            alpha_bit_depth: 0,
            reserved: 0,
            surface: bits,
            ck_dest_overlay: DdColorKey { low: 0, high: 0 },
            ck_dest_blt: DdColorKey { low: 0, high: 0 },
            ck_src_overlay: DdColorKey { low: 0, high: 0 },
            ck_src_blt: match self.color_key { Some(k) => k, None => DdColorKey { low: 0, high: 0 } },
            pixel_format: spec_pixel_format(self.bpp),
            caps: DdCaps { caps: self.caps },
        }
    }

    /// `GetSurfaceDesc`.
    pub fn fill_desc(&self, bits: usize) -> (r: DdSurfaceDesc)
        requires self.wf(),
        ensures r == self.spec_desc(bits),
    {
        let zero = DdColorKey { low: 0, high: 0 };
        DdSurfaceDesc {
            size: DD_SURFACE_DESC_SIZE,
            flags: SURFACE_DESC_FLAGS,
            height: self.height,
            width: self.width,
            pitch: self.layout.pitch as i32,
            back_buffer_count: if self.attached != 0 { 1 } else { 0 },
            mip_map_count: 0,
            alpha_bit_depth: 0,
            reserved: 0,
            surface: bits,
            ck_dest_overlay: zero,
            ck_dest_blt: zero,
            ck_src_overlay: zero,
            ck_src_blt: match self.color_key { Some(k) => k, None => zero },
            pixel_format: pixel_format(self.bpp),
            caps: DdCaps { caps: self.caps },
        }
    }

    /// `Lock`: without a rectangle the whole surface is described; with one,
    /// the rectangle is clipped to the surface and the descriptor points at
    /// its first pixel with its size. An empty clipped rectangle gives
    /// `E_INVALIDARG` together with the whole-surface descriptor.
    pub fn lock(&self, bits: usize, rect: Option<Rect>) -> (r: (Hresult, DdSurfaceDesc))
        requires
            self.wf(),
            bits + self.layout.pitch * self.height <= usize::MAX,
        ensures
            rect is None ==> r == (DD_OK, self.spec_desc(bits)),
            rect matches Some(q) ==> {
                let c = spec_clamp_rect(q, self.width, self.height);
                if c.spec_width() <= 0 || c.spec_height() <= 0 {
                    r == (E_INVALIDARG, self.spec_desc(bits))
                } else {
                    r == (DD_OK, DdSurfaceDesc {
                        surface: (bits + c.top * self.layout.pitch + c.left * spec_bytes_per_pixel(self.bpp)) as usize,
                        width: c.spec_width() as u32,
                        height: c.spec_height() as u32,
                        ..self.spec_desc(bits)
                    })
                }
            },
    {
        let desc = self.fill_desc(bits);
        match rect {
            None => (DD_OK, desc),
            Some(q) => {
                let c = clamp_rect(q, self.width, self.height);
                let w = c.width();
                let h = c.height();
                if w <= 0 || h <= 0 {
                    return (E_INVALIDARG, desc);
                }
                let bytes = bytes_per_pixel(self.bpp);
                let top = c.top as usize;
                let left = c.left as usize;
                let pitch = self.layout.pitch;
                proof {
                    let p = pitch as int;
                    let hh = self.height as int;
                    assert(0 <= c.top < c.bottom <= hh);
                    assert(0 <= c.left < c.right <= self.width);
                    assert(top * p + p <= hh * p) by (nonlinear_arith)
                        requires 0 <= top < hh, 0 <= p;
                    crate::dib::lemma_layout_row(self.width, self.height, self.bpp);
                    assert(left * bytes <= self.layout.storage_width * bytes) by (nonlinear_arith)
                        requires left <= self.width, self.width <= self.layout.storage_width, 0 <= bytes;
                    assert(hh * p == p * hh) by (nonlinear_arith);
                }
                let address = bits + top * pitch + left * bytes;
                (DD_OK, DdSurfaceDesc { surface: address, width: w as u32, height: h as u32, ..desc })
            }
        }
    }

    /// The palette whose colours an 8-bit surface shows (0: none, or the
    /// surface is not palettized).
    pub fn palette_to_apply(&self) -> (r: usize)
        ensures r == if self.bpp == 8 { self.palette } else { 0 },
    {
        if self.bpp == 8 { self.palette } else { 0 }
    }

    /// `GetDC` saves the device-context state only on the first acquisition.
    pub fn needs_dc_save(&self) -> (r: bool)
        ensures r == (self.saved_dc == 0),
    {
        self.saved_dc == 0
    }

    /// Records the saved device-context state returned by `SaveDC`.
    pub fn record_saved_dc(&mut self, saved: i32)
        ensures *final(self) == spec_record_saved_dc(*old(self), saved),
    {
        self.saved_dc = saved;
    }

    /// `ReleaseDC` takes the saved state to restore (0: none was saved, the
    /// context is normalised instead).
    pub fn take_saved_dc(&mut self) -> (r: i32)
        ensures (*final(self), r) == spec_take_saved_dc(*old(self)),
    {
        let saved = self.saved_dc;
        self.saved_dc = 0;
        saved
    }

    /// `Flip` exchanges pixels only with a back buffer of identical
    /// dimensions, depth and bitmap layout.
    pub open spec fn spec_flip_compatible(self, back: Surface) -> bool {
        &&& self.width == back.width
        &&& self.height == back.height
        &&& self.bpp == back.bpp
        &&& self.layout.pitch == back.layout.pitch
        &&& self.layout.storage_width == back.layout.storage_width
        &&& self.layout.storage_height == back.layout.storage_height
    }

    pub fn flip_compatible(&self, back: &Surface) -> (r: bool)
        ensures r == self.spec_flip_compatible(*back),
    {
        self.width == back.width && self.height == back.height && self.bpp == back.bpp
            && self.layout.pitch == back.layout.pitch
            && self.layout.storage_width == back.layout.storage_width
            && self.layout.storage_height == back.layout.storage_height
    }

    /// The surface `Flip` exchanges with: the override when given, the
    /// attached back buffer otherwise; 0 when there is nothing to exchange
    /// (no partner, or the partner is the surface itself).
    pub fn flip_partner(&self, this: usize, target_override: usize) -> (r: usize)
        ensures
            r == {
                let back = if target_override != 0 { target_override } else { self.attached };
                if back == 0 || back == this { 0 } else { back }
            },
    {
        let back = if target_override != 0 { target_override } else { self.attached };
        if back == 0 || back == this { 0 } else { back }
    }
}

/// The surface after `GetDC` saved the context state `saved`.
pub open spec fn spec_record_saved_dc(s: Surface, saved: i32) -> Surface {
    Surface { saved_dc: saved, ..s }
}

/// The surface after `ReleaseDC`, and the saved state to restore.
pub open spec fn spec_take_saved_dc(s: Surface) -> (Surface, i32) {
    (Surface { saved_dc: 0, ..s }, s.saved_dc)
}

/// The context state saved by the first `GetDC` is the one `ReleaseDC`
/// restores; repeated `GetDC` calls do not save again, and after
/// `ReleaseDC` the next `GetDC` saves afresh.
pub proof fn law_dc_state_saved_once(s: Surface, saved: i32)
    requires
        s.saved_dc == 0,
        saved != 0,
    ensures
        spec_record_saved_dc(s, saved).saved_dc != 0,
        spec_take_saved_dc(spec_record_saved_dc(s, saved)).1 == saved,
        spec_take_saved_dc(spec_record_saved_dc(s, saved)).0.saved_dc == 0,
        spec_take_saved_dc(spec_record_saved_dc(s, saved)).0 == s,
{
}

/// What `Blt` does with its flags and arguments.
#[derive(Clone, Copy, Debug, PartialEq, Eq, Structural)]
pub enum BltKind {
    /// Fill the destination with the effects' fill colour.
    ColorFill,
    /// Copy from the source surface.
    Copy,
    /// Fail with the given result.
    Fail(Hresult),
}

pub open spec fn spec_blt_kind(flags: Dword, has_effects: bool, has_source: bool) -> BltKind {
    if flags & DDBLT_COLORFILL != 0 {
        if has_effects { BltKind::ColorFill } else { BltKind::Fail(E_INVALIDARG) }
    } else if !has_source {
        BltKind::Fail(E_POINTER)
    } else {
        BltKind::Copy
    }
}

/// `DDBLT_COLORFILL` fills (and needs the effects structure); any other
/// `Blt` copies and needs a source surface.
pub fn blt_kind(flags: Dword, has_effects: bool, has_source: bool) -> (r: BltKind)
    ensures r == spec_blt_kind(flags, has_effects, has_source),
{
    if flags & DDBLT_COLORFILL != 0 {
        if has_effects { BltKind::ColorFill } else { BltKind::Fail(E_INVALIDARG) }
    } else if !has_source {
        BltKind::Fail(E_POINTER)
    } else {
        BltKind::Copy
    }
}

pub open spec fn spec_blt_source_key(flags: Dword, effects_key: Option<DdColorKey>, surface_key: Option<DdColorKey>) -> Option<DdColorKey> {
    if flags & DDBLT_KEYSRCOVERRIDE != 0 && effects_key is Some {
        effects_key
    } else if flags & DDBLT_KEYSRC != 0 {
        surface_key
    } else {
        None
    }
}

/// The source colour key of a `Blt`: the override from the effects
/// structure (`DDBLT_KEYSRCOVERRIDE`), else the source surface's key
/// (`DDBLT_KEYSRC`), else none. `effects_key` is `None` when no effects
/// structure was passed.
pub fn blt_source_key(flags: Dword, effects_key: Option<DdColorKey>, surface_key: Option<DdColorKey>) -> (r: Option<DdColorKey>)
    ensures r == spec_blt_source_key(flags, effects_key, surface_key),
{
    if flags & DDBLT_KEYSRCOVERRIDE != 0 && effects_key.is_some() {
        effects_key
    } else if flags & DDBLT_KEYSRC != 0 {
        surface_key
    } else {
        None
    }
}

/// The source colour key of a `BltFast`: the source surface's key when
/// `DDBLTFAST_SRCCOLORKEY` is set.
pub fn blt_fast_source_key(flags: Dword, surface_key: Option<DdColorKey>) -> (r: Option<DdColorKey>)
    ensures r == if flags & DDBLTFAST_SRCCOLORKEY != 0 { surface_key } else { None },
{
    if flags & DDBLTFAST_SRCCOLORKEY != 0 { surface_key } else { None }
}

/// The destination rectangle of a `BltFast` to (x, y): the source
/// rectangle's size placed at that point.
pub open spec fn spec_blt_fast_rect(x: Dword, y: Dword, source_rect: Rect) -> Rect {
    Rect {
        left: x as i32,
        top: y as i32,
        right: (x as i32 + source_rect.spec_width()) as i32,
        bottom: (y as i32 + source_rect.spec_height()) as i32,
    }
}

pub open spec fn blt_fast_rect_fits(x: Dword, y: Dword, source_rect: Rect) -> bool {
    &&& i32::MIN <= (x as i32) + source_rect.spec_width() <= i32::MAX
    &&& i32::MIN <= (y as i32) + source_rect.spec_height() <= i32::MAX
}

pub fn blt_fast_rect(x: Dword, y: Dword, source_rect: Rect) -> (r: Rect)
    requires blt_fast_rect_fits(x, y, source_rect),
    ensures r == spec_blt_fast_rect(x, y, source_rect),
{
    let left = x as i32;
    let top = y as i32;
    Rect { left, top, right: left + source_rect.width(), bottom: top + source_rect.height() }
}

/// Whether the `BltFast` destination rectangle's edges fit in `i32`.
pub fn blt_fast_rect_in_range(x: Dword, y: Dword, source_rect: Rect) -> (r: bool)
    ensures r == blt_fast_rect_fits(x, y, source_rect),
{
    let right = x as i32 as i64 + source_rect.width() as i64;
    let bottom = y as i32 as i64 + source_rect.height() as i64;
    i32::MIN as i64 <= right && right <= i32::MAX as i64 && i32::MIN as i64 <= bottom && bottom <= i32::MAX as i64
}

/// Only a windowed primary surface attached to a window interprets
/// destination rectangles in desktop coordinates.
pub open spec fn spec_needs_client_origin(is_primary: bool, hwnd: usize, fullscreen: bool) -> bool {
    is_primary && hwnd != 0 && !fullscreen
}

pub fn needs_client_origin(is_primary: bool, hwnd: usize, fullscreen: bool) -> (r: bool)
    ensures r == spec_needs_client_origin(is_primary, hwnd, fullscreen),
{
    is_primary && hwnd != 0 && !fullscreen
}

/// `rect` moved from desktop to client coordinates.
pub open spec fn spec_client_rect(rect: Rect, origin: Point) -> Rect {
    Rect {
        left: sat_i32(rect.left - origin.x),
        top: sat_i32(rect.top - origin.y),
        right: sat_i32(rect.right - origin.x),
        bottom: sat_i32(rect.bottom - origin.y),
    }
}

pub open spec fn spec_primary_destination_rect(rect: Rect, origin: Option<Point>, width: Dword, height: Dword) -> Rect {
    match origin {
        None => rect,
        Some(o) => {
            let t = spec_client_rect(rect, o);
            if spec_overlap_area(t, width, height) > spec_overlap_area(rect, width, height) { t } else { rect }
        }
    }
}

/// The destination rectangle of a `Blt` or `BltFast` to a primary surface.
/// `origin` is the window's client origin on the desktop, `None` when it
/// is not consulted (see `needs_client_origin`) or could not be read. The
/// client-coordinate form is chosen only when it covers more of the
/// logical surface than the rectangle as given.
pub fn primary_destination_rect(rect: Rect, origin: Option<Point>, width: Dword, height: Dword) -> (r: Rect)
    requires
        width <= i32::MAX,
        height <= i32::MAX,
    ensures
        r == spec_primary_destination_rect(rect, origin, width, height),
{
    match origin {
        None => rect,
        Some(o) => {
            let t = Rect {
                left: saturating_sub_i32(rect.left, o.x),
                top: saturating_sub_i32(rect.top, o.y),
                right: saturating_sub_i32(rect.right, o.x),
                bottom: saturating_sub_i32(rect.bottom, o.y),
            };
            let given = overlap_area(rect, width, height);
            let moved = overlap_area(t, width, height);
            if moved > given { t } else { rect }
        }
    }
}

/// The destination chosen for a primary-surface blit never covers less of
/// the logical surface than the rectangle as given, and it is either that
/// rectangle or its client-coordinate form.
pub proof fn law_primary_destination_never_loses_coverage(rect: Rect, o: Point, width: Dword, height: Dword)
    ensures
        spec_overlap_area(spec_primary_destination_rect(rect, Some(o), width, height), width, height)
            >= spec_overlap_area(rect, width, height),
        spec_primary_destination_rect(rect, Some(o), width, height) == rect
            || spec_primary_destination_rect(rect, Some(o), width, height) == spec_client_rect(rect, o),
{
}

/// The handles of every live surface, in creation order, and the primary.
pub struct SurfaceRegistry {
    pub surfaces: Vec<usize>,
    pub primary: usize,
}

impl SurfaceRegistry {
    pub fn new() -> (r: SurfaceRegistry)
        ensures r.surfaces@ == Seq::<usize>::empty(), r.primary == 0,
    {
        SurfaceRegistry { surfaces: Vec::new(), primary: 0 }
    }

    /// Records a new surface; a primary surface becomes the primary.
    pub fn register(&mut self, surface: usize, is_primary: bool)
        ensures
            final(self).surfaces@ == old(self).surfaces@.push(surface),
            final(self).primary == if is_primary { surface } else { old(self).primary },
    {
        self.surfaces.push(surface);
        if is_primary {
            self.primary = surface;
        }
    }

    /// Forgets a destroyed surface: every occurrence leaves the list, the
    /// others keep their order, and the primary is cleared if it was this one.
    pub fn unregister(&mut self, surface: usize)
        ensures
            final(self).surfaces@ == old(self).surfaces@.filter(|p: usize| p != surface),
            final(self).primary == if old(self).primary == surface { 0 } else { old(self).primary },
    {
        if self.primary == surface {
            self.primary = 0;
        }
        let ghost original = self.surfaces@;
        let mut kept: Vec<usize> = Vec::new();
        let mut i: usize = 0;
        while i < self.surfaces.len()
            invariant
                self.surfaces@ == original,
                i <= original.len(),
                kept@ == original.subrange(0, i as int).filter(|p: usize| p != surface),
            decreases original.len() - i,
        {
            let p = self.surfaces[i];
            proof {
                assert(original.subrange(0, i + 1).drop_last() =~= original.subrange(0, i as int));
                reveal_with_fuel(Seq::<_>::filter, 1);
            }
            if p != surface {
                kept.push(p);
            }
            i = i + 1;
        }
        assert(original.subrange(0, original.len() as int) =~= original);
        self.surfaces = kept;
    }

    /// The primary surface (0 for none).
    pub fn primary_pointer(&self) -> (r: usize)
        ensures r == self.primary,
    {
        self.primary
    }
}

/// Given (surface, palette) pairs, the surfaces that use `palette`, in order.
pub fn palette_users(links: &[(usize, usize)], palette: usize) -> (r: Vec<usize>)
    ensures
        r@ == links@.filter(|l: (usize, usize)| l.1 == palette).map_values(|l: (usize, usize)| l.0),
{
    let mut r: Vec<usize> = Vec::new();
    let mut i: usize = 0;
    while i < links.len()
        invariant
            i <= links@.len(),
            r@ == links@.subrange(0, i as int).filter(|l: (usize, usize)| l.1 == palette).map_values(|l: (usize, usize)| l.0),
        decreases links@.len() - i,
    {
        let l = links[i];
        proof {
            assert(links@.subrange(0, i + 1).drop_last() =~= links@.subrange(0, i as int));
            reveal_with_fuel(Seq::<_>::filter, 1);
        }
        if l.1 == palette {
            r.push(l.0);
            proof {
                let f = links@.subrange(0, i as int).filter(|l: (usize, usize)| l.1 == palette);
                assert(f.push(l).map_values(|l: (usize, usize)| l.0) =~= f.map_values(|l: (usize, usize)| l.0).push(l.0));
            }
        }
        i = i + 1;
    }
    assert(links@.subrange(0, links@.len() as int) =~= links@);
    r
}

/// The window and client size the cached presentation bitmap was made for.
#[derive(Clone, Copy, Debug, PartialEq, Eq, Structural)]
pub struct PresenterKey {
    pub hwnd: usize,
    pub width: i32,
    pub height: i32,
}

/// The presentation bitmap is remade when there is none or it was made for
/// another window or client size.
pub fn presenter_needs_recreate(current: Option<PresenterKey>, hwnd: usize, width: i32, height: i32) -> (r: bool)
    ensures
        r == match current {
            None => true,
            Some(k) => k.hwnd != hwnd || k.width != width || k.height != height,
        },
{
    match current {
        None => true,
        Some(k) => k.hwnd != hwnd || k.width != width || k.height != height,
    }
}

/// The presentation bitmap is dropped with the window it was made for.
pub fn presenter_belongs_to(current: Option<PresenterKey>, hwnd: usize) -> (r: bool)
    ensures r == (current matches Some(k) && k.hwnd == hwnd),
{
    match current {
        None => false,
        Some(k) => k.hwnd == hwnd,
    }
}

/// `DDBLT_COLORFILL` with an effects structure always fills, whatever
/// other flag bits (such as `DDBLT_WAIT`) accompany it and whether or not a
/// source surface is passed; without the effects structure it fails with
/// `E_INVALIDARG`.
pub proof fn law_colorfill_ignores_other_flags(flags: Dword, extra: Dword, has_source: bool)
    ensures
        flags & DDBLT_COLORFILL != 0 ==> spec_blt_kind(flags, true, has_source) == BltKind::ColorFill,
        flags & DDBLT_COLORFILL != 0 ==> spec_blt_kind(flags, false, has_source) == BltKind::Fail(E_INVALIDARG),
        spec_blt_kind(extra | 0x0000_0400, true, has_source) == BltKind::ColorFill,
{
    assert((extra | 0x0000_0400u32) & 0x0000_0400u32 != 0) by (bit_vector);
}

/// Without `DDBLT_COLORFILL` a `Blt` copies when it has a source surface and
/// fails with `E_POINTER` when it has none, whatever the other flags.
pub proof fn law_blt_without_fill_copies(flags: Dword, has_effects: bool)
    requires flags & DDBLT_COLORFILL == 0,
    ensures
        spec_blt_kind(flags, has_effects, true) == BltKind::Copy,
        spec_blt_kind(flags, has_effects, false) == BltKind::Fail(E_POINTER),
{
}

} // verus!
