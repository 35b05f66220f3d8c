//! The logical display state shared by a DirectDraw object and its
//! surfaces: window, logical mode, cooperative level and the window
//! style and placement saved before going borderless.
use vstd::prelude::*;
use crate::abi::{Dword, Long, Rect, DDSCL_NORMAL, DDSCL_EXCLUSIVE, DDSCL_FULLSCREEN};
use crate::blit::{spec_normalized_bpp, normalized_bpp};

verus! {

#[derive(Clone, Copy, Debug, PartialEq, Eq, Structural)]
pub struct DrawState {
    pub hwnd: usize,
    pub logical_width: Dword,
    pub logical_height: Dword,
    pub bpp: Dword,
    pub cooperative_flags: Dword,
    pub fullscreen_requested: bool,
    pub original_style: Long,
    pub original_ex_style: Long,
    pub original_rect: Rect,
    pub saved_window_state: bool,
}

/// A new state: no window, 800x600 at 16 bits, nothing saved.
pub open spec fn spec_default_state() -> DrawState {
    DrawState {
        hwnd: 0,
        logical_width: 800,
        logical_height: 600,
        bpp: 16,
        cooperative_flags: 0,
        fullscreen_requested: false,
        original_style: 0,
        original_ex_style: 0,
        original_rect: Rect { left: 0, top: 0, right: 0, bottom: 0 },
        saved_window_state: false,
    }
}

impl Default for DrawState {
    fn default() -> (r: Self)
        ensures r == spec_default_state(),
    {
        DrawState {
            hwnd: 0,
            logical_width: 800,
            logical_height: 600,
            bpp: 16,
            cooperative_flags: 0,
            fullscreen_requested: false,
            original_style: 0,
            original_ex_style: 0,
            original_rect: Rect { left: 0, top: 0, right: 0, bottom: 0 },
            saved_window_state: false,
        }
    }
}

/// The state a new DirectDraw object starts from (the caller shares it
/// between the object and its surfaces).
pub fn new_shared() -> (r: DrawState)
    ensures r == spec_default_state(),
{
    DrawState::default()
}

/// What happens to the window after a cooperative-level or mode change.
#[derive(Clone, Copy, Debug, PartialEq, Eq, Structural)]
pub enum WindowAction {
    EnterBorderless,
    LeaveBorderless,
    Keep,
}

/// `DDSCL_EXCLUSIVE | DDSCL_FULLSCREEN`.
pub const FULLSCREEN_FLAGS: Dword = 0x0000_0011;

/// A window style and placement saved before going borderless.
#[derive(Clone, Copy, Debug, PartialEq, Eq, Structural)]
pub struct SavedWindow {
    pub hwnd: usize,
    pub style: Long,
    pub ex_style: Long,
    pub rect: Rect,
}

pub open spec fn spec_set_cooperative_level(s: DrawState, hwnd: usize, flags: Dword) -> (DrawState, WindowAction) {
    let fullscreen = flags & FULLSCREEN_FLAGS != 0;
    (
        DrawState { hwnd, cooperative_flags: flags, fullscreen_requested: fullscreen, ..s },
        if fullscreen {
            WindowAction::EnterBorderless
        } else if flags & DDSCL_NORMAL != 0 {
            WindowAction::LeaveBorderless
        } else {
            WindowAction::Keep
        },
    )
}

pub open spec fn spec_set_display_mode(s: DrawState, width: Dword, height: Dword, bpp: Dword) -> DrawState {
    DrawState {
        logical_width: if width < 1 { 1 } else { width },
        logical_height: if height < 1 { 1 } else { height },
        bpp: spec_normalized_bpp(bpp),
        ..s
    }
}

/// Saving the window state happens once per borderless period.
pub open spec fn spec_capture_window(s: DrawState, style: Long, ex_style: Long, rect: Rect) -> DrawState {
    if s.saved_window_state {
        s
    } else {
        DrawState { original_style: style, original_ex_style: ex_style, original_rect: rect, saved_window_state: true, ..s }
    }
}

pub open spec fn spec_take_saved_window(s: DrawState) -> (DrawState, Option<SavedWindow>) {
    if s.hwnd == 0 || !s.saved_window_state {
        (s, None)
    } else {
        (
            DrawState { saved_window_state: false, ..s },
            Some(SavedWindow { hwnd: s.hwnd, style: s.original_style, ex_style: s.original_ex_style, rect: s.original_rect }),
        )
    }
}

impl DrawState {
    /// `SetCooperativeLevel`: records the window and flags; exclusive or
    /// fullscreen requests go borderless, `DDSCL_NORMAL` leaves borderless.
    pub fn set_cooperative_level(&mut self, hwnd: usize, flags: Dword) -> (r: WindowAction)
        ensures (*final(self), r) == spec_set_cooperative_level(*old(self), hwnd, flags),
    {
        let fullscreen = flags & FULLSCREEN_FLAGS != 0;
        self.hwnd = hwnd;
        self.cooperative_flags = flags;
        self.fullscreen_requested = fullscreen;
        if fullscreen {
            WindowAction::EnterBorderless
        } else if flags & DDSCL_NORMAL != 0 {
            WindowAction::LeaveBorderless
        } else {
            WindowAction::Keep
        }
    }

    /// `SetDisplayMode`: stores only the logical mode (each dimension at
    /// least 1, the depth normalised); returns whether the window should go
    /// borderless because fullscreen was requested.
    pub fn set_display_mode(&mut self, width: Dword, height: Dword, bpp: Dword) -> (enter: bool)
        ensures
            *final(self) == spec_set_display_mode(*old(self), width, height, bpp),
            enter == old(self).fullscreen_requested,
    {
        self.logical_width = if width < 1 { 1 } else { width };
        self.logical_height = if height < 1 { 1 } else { height };
        self.bpp = normalized_bpp(bpp);
        self.fullscreen_requested
    }

    /// Going borderless reads the current window style and placement only
    /// when a window is set and nothing is saved yet.
    pub fn needs_window_snapshot(&self) -> (r: bool)
        ensures r == (self.hwnd != 0 && !self.saved_window_state),
    {
        self.hwnd != 0 && !self.saved_window_state
    }

    /// Saves the style and placement read from the window, unless a saved
    /// state is already held.
    pub fn capture_window(&mut self, style: Long, ex_style: Long, rect: Rect)
        ensures *final(self) == spec_capture_window(*old(self), style, ex_style, rect),
    {
        if !self.saved_window_state {
            self.original_style = style;
            self.original_ex_style = ex_style;
            self.original_rect = rect;
            self.saved_window_state = true;
        }
    }

    /// Leaving borderless hands out the saved style and placement once.
    pub fn take_saved_window(&mut self) -> (r: Option<SavedWindow>)
        ensures (*final(self), r) == spec_take_saved_window(*old(self)),
    {
        if self.hwnd == 0 || !self.saved_window_state {
            None
        } else {
            self.saved_window_state = false;
            Some(SavedWindow {
                hwnd: self.hwnd,
                style: self.original_style,
                ex_style: self.original_ex_style,
                rect: self.original_rect,
            })
        }
    }
}

/// Leaving borderless restores exactly the style and placement captured
/// when it was first entered: captures made while already borderless do
/// not overwrite them, and the saved state is handed out only once.
pub proof fn law_borderless_round_trip(s: DrawState, style: Long, ex: Long, rect: Rect, style2: Long, ex2: Long, rect2: Rect)
    requires
        s.hwnd != 0,
        !s.saved_window_state,
    ensures
        ({
            let entered = spec_capture_window(spec_capture_window(s, style, ex, rect), style2, ex2, rect2);
            let (left, saved) = spec_take_saved_window(entered);
            &&& saved == Some(SavedWindow { hwnd: s.hwnd, style, ex_style: ex, rect })
            &&& spec_take_saved_window(left).1 is None
        }),
{
}

/// `SetDisplayMode` changes only the logical mode: the window, the
/// cooperative level and the saved window state are untouched, and the
/// stored mode is always usable.
pub proof fn law_display_mode_is_logical(s: DrawState, width: Dword, height: Dword, bpp: Dword)
    ensures
        ({
            let t = spec_set_display_mode(s, width, height, bpp);
            &&& t.hwnd == s.hwnd
            &&& t.cooperative_flags == s.cooperative_flags
            &&& t.fullscreen_requested == s.fullscreen_requested
            &&& t.original_style == s.original_style
            &&& t.original_ex_style == s.original_ex_style
            &&& t.original_rect == s.original_rect
            &&& t.saved_window_state == s.saved_window_state
            &&& t.logical_width >= 1
            &&& t.logical_height >= 1
            &&& (t.bpp == 8 || t.bpp == 16 || t.bpp == 24 || t.bpp == 32)
        }),
{
}

/// Any cooperative level that asks for exclusive or fullscreen access goes
/// borderless and records the fullscreen request, whatever other flags
/// (`DDSCL_ALLOWREBOOT`, `DDSCL_NORMAL`, ...) come with it; without either
/// it never goes borderless and the request is cleared.
pub proof fn law_fullscreen_request_ignores_other_flags(s: DrawState, hwnd: usize, flags: Dword, extra: Dword)
    ensures
        flags & (DDSCL_EXCLUSIVE | DDSCL_FULLSCREEN) != 0 ==> {
            &&& spec_set_cooperative_level(s, hwnd, flags).1 == WindowAction::EnterBorderless
            &&& spec_set_cooperative_level(s, hwnd, flags).0.fullscreen_requested
        },
        flags & (DDSCL_EXCLUSIVE | DDSCL_FULLSCREEN) == 0 ==> {
            &&& spec_set_cooperative_level(s, hwnd, flags).1 != WindowAction::EnterBorderless
            &&& !spec_set_cooperative_level(s, hwnd, flags).0.fullscreen_requested
        },
        spec_set_cooperative_level(s, hwnd, extra | 0x0000_0010).1 == WindowAction::EnterBorderless,
        spec_set_cooperative_level(s, hwnd, extra | 0x0000_0001).1 == WindowAction::EnterBorderless,
        spec_set_cooperative_level(s, hwnd, flags).0.hwnd == hwnd,
        spec_set_cooperative_level(s, hwnd, flags).0.cooperative_flags == flags,
{
    assert(DDSCL_EXCLUSIVE | DDSCL_FULLSCREEN == FULLSCREEN_FLAGS) by (bit_vector);
    assert((extra | 0x10u32) & 0x11u32 != 0) by (bit_vector);
    assert((extra | 0x01u32) & 0x11u32 != 0) by (bit_vector);
}

} // verus!
