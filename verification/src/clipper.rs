//! State of an `IDirectDrawClipper`: the window it clips to, a
//! "clip list changed" flag and a reference count.
use vstd::prelude::*;
use crate::abi::{Guid, guid_eq, iid_iunknown, iid_idirectdrawclipper, same_guid, spec_iid_iunknown,
    spec_iid_idirectdrawclipper};

verus! {

#[derive(Clone, Copy, Debug, PartialEq, Eq, Structural)]
pub struct Clipper {
    pub refs: u32,
    pub hwnd: usize,
    pub changed: bool,
}

/// `QueryInterface` accepts `IUnknown` and `IDirectDrawClipper`.
pub fn clipper_accepts_interface(riid: Option<&Guid>) -> (r: bool)
    ensures
        r == (riid is Some && (same_guid(*riid.unwrap(), spec_iid_iunknown())
            || same_guid(*riid.unwrap(), spec_iid_idirectdrawclipper()))),
{
    let unknown = iid_iunknown();
    let own = iid_idirectdrawclipper();
    guid_eq(riid, &unknown) || guid_eq(riid, &own)
}

/// The clipper after `SetHWnd(hwnd)`.
pub open spec fn spec_set_hwnd(c: Clipper, hwnd: usize) -> Clipper {
    Clipper { hwnd, changed: true, ..c }
}

/// The clipper after `IsClipListChanged`, and the flag it reports.
pub open spec fn spec_take_changed(c: Clipper) -> (Clipper, bool) {
    (Clipper { changed: false, ..c }, c.changed)
}

impl Clipper {
    /// `CreateClipper`: one reference, no window, nothing changed.
    pub fn create() -> (r: Clipper)
        ensures r == (Clipper { refs: 1, hwnd: 0, changed: false }),
    {
        Clipper { refs: 1, hwnd: 0, changed: false }
    }

    /// `AddRef`.
    pub fn add_ref(&mut self) -> (r: u32)
        requires old(self).refs < u32::MAX,
        ensures
            r == old(self).refs + 1,
            *final(self) == (Clipper { refs: r, ..*old(self) }),
    {
        self.refs = self.refs + 1;
        self.refs
    }

    /// `Release`; the caller destroys the clipper when 0 is returned.
    pub fn release(&mut self) -> (r: u32)
        requires old(self).refs > 0,
        ensures
            r == old(self).refs - 1,
            *final(self) == (Clipper { refs: r, ..*old(self) }),
    {
        self.refs = self.refs - 1;
        self.refs
    }

    /// `GetHWnd`.
    pub fn get_hwnd(&self) -> (r: usize)
        ensures r == self.hwnd,
    {
        self.hwnd
    }

    /// `IsClipListChanged`: reports the flag and clears it.
    pub fn is_clip_list_changed(&mut self) -> (r: bool)
        ensures (*final(self), r) == spec_take_changed(*old(self)),
    {
        let changed = self.changed;
        self.changed = false;
        changed
    }

    /// `SetClipList`: the clip list is marked changed.
    pub fn set_clip_list(&mut self)
        ensures *final(self) == (Clipper { changed: true, ..*old(self) }),
    {
        self.changed = true;
    }

    /// `SetHWnd`: clips to `hwnd` from now on; the clip list is marked changed.
    pub fn set_hwnd(&mut self, hwnd: usize)
        ensures *final(self) == spec_set_hwnd(*old(self), hwnd),
    {
        self.hwnd = hwnd;
        self.changed = true;
    }
}

/// After `SetHWnd(h)`, `GetHWnd` returns `h`; the next `IsClipListChanged`
/// reports a change, the one after it does not, and neither changes the
/// window.
pub proof fn law_clipper_set_hwnd_then_query(c: Clipper, h: usize)
    ensures
        spec_set_hwnd(c, h).hwnd == h,
        spec_take_changed(spec_set_hwnd(c, h)).1,
        !spec_take_changed(spec_take_changed(spec_set_hwnd(c, h)).0).1,
        spec_take_changed(spec_take_changed(spec_set_hwnd(c, h)).0).0.hwnd == h,
{
}

} // verus!
