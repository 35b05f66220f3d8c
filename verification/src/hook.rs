//! Hook decisions: which creation calls get the wrapper object, and the
//! order in which the detours are installed.
use vstd::prelude::*;
use crate::abi::{Bool, Dword, Guid, TRUE, FALSE, DLL_PROCESS_ATTACH, guid_eq, clsid_directdraw, iid_idirectdraw,
    same_guid, spec_clsid_directdraw, spec_iid_idirectdraw};

verus! {

/// What a detoured creation call does.
#[derive(Clone, Copy, Debug, PartialEq, Eq, Structural)]
pub enum CreateRoute {
    /// Hand out a new wrapper `IDirectDraw` object.
    CreateWrapper,
    /// Refuse aggregation with `CLASS_E_NOAGGREGATION`.
    NoAggregation,
    /// Call through to the hooked function itself.
    Forward,
}

pub open spec fn is_directdraw_request(clsid: Option<Guid>, riid: Option<Guid>) -> bool {
    &&& clsid matches Some(c) && same_guid(c, spec_clsid_directdraw())
    &&& riid matches Some(r) && same_guid(r, spec_iid_idirectdraw())
}

pub open spec fn spec_route_cocreate(clsid: Option<Guid>, riid: Option<Guid>, outer_is_null: bool) -> CreateRoute {
    if is_directdraw_request(clsid, riid) {
        if outer_is_null { CreateRoute::CreateWrapper } else { CreateRoute::NoAggregation }
    } else {
        CreateRoute::Forward
    }
}

/// `CoCreateInstance`: only `CLSID_DirectDraw` with `IID_IDirectDraw` is
/// answered by the wrapper; every other request goes to COM.
pub fn route_cocreate(clsid: Option<&Guid>, riid: Option<&Guid>, outer_is_null: bool) -> (r: CreateRoute)
    ensures
        r == spec_route_cocreate(
            match clsid { Some(g) => Some(*g), None => None },
            match riid { Some(g) => Some(*g), None => None },
            outer_is_null,
        ),
{
    let class = clsid_directdraw();
    let interface = iid_idirectdraw();
    if guid_eq(clsid, &class) && guid_eq(riid, &interface) {
        if outer_is_null { CreateRoute::CreateWrapper } else { CreateRoute::NoAggregation }
    } else {
        CreateRoute::Forward
    }
}

/// `DirectDrawCreate` always creates the wrapper (aggregation is refused).
pub fn route_direct_draw_create(outer_is_null: bool) -> (r: CreateRoute)
    ensures r == if outer_is_null { CreateRoute::CreateWrapper } else { CreateRoute::NoAggregation },
{
    if outer_is_null { CreateRoute::CreateWrapper } else { CreateRoute::NoAggregation }
}

pub open spec fn spec_route_direct_draw_create_ex(riid: Option<Guid>, outer_is_null: bool) -> CreateRoute {
    if riid matches Some(r) && same_guid(r, spec_iid_idirectdraw()) {
        if outer_is_null { CreateRoute::CreateWrapper } else { CreateRoute::NoAggregation }
    } else {
        CreateRoute::Forward
    }
}

/// `DirectDrawCreateEx` creates the wrapper for `IID_IDirectDraw` and
/// forwards any other interface to the system DirectDraw.
pub fn route_direct_draw_create_ex(riid: Option<&Guid>, outer_is_null: bool) -> (r: CreateRoute)
    ensures r == spec_route_direct_draw_create_ex(match riid { Some(g) => Some(*g), None => None }, outer_is_null),
{
    let interface = iid_idirectdraw();
    if guid_eq(riid, &interface) {
        if outer_is_null { CreateRoute::CreateWrapper } else { CreateRoute::NoAggregation }
    } else {
        CreateRoute::Forward
    }
}

/// The step an installation is at; each step names the outside operation
/// to perform next.
#[derive(Clone, Copy, Debug, PartialEq, Eq, Structural)]
pub enum InstallStep {
    /// Look up an already loaded `ddraw.dll`.
    LocateDdraw,
    /// Load `ddraw.dll`.
    LoadDdraw,
    /// Resolve `DirectDrawCreate`.
    ResolveCreate,
    /// Initialize the `DirectDrawCreate` detour.
    InitCreate,
    /// Enable the `DirectDrawCreate` detour.
    EnableCreate,
    /// Resolve `DirectDrawCreateEx`.
    ResolveCreateEx,
    /// Initialize the `DirectDrawCreateEx` detour.
    InitCreateEx,
    /// Enable the `DirectDrawCreateEx` detour.
    EnableCreateEx,
    /// Initialize the `CoCreateInstance` detour.
    InitCoCreate,
    /// Enable the `CoCreateInstance` detour.
    EnableCoCreate,
    /// Finished.
    Done,
}

/// Position of a step in installation order.
pub open spec fn step_rank(s: InstallStep) -> int {
    match s {
        InstallStep::LocateDdraw => 0,
        InstallStep::LoadDdraw => 1,
        InstallStep::ResolveCreate => 2,
        InstallStep::InitCreate => 3,
        InstallStep::EnableCreate => 4,
        InstallStep::ResolveCreateEx => 5,
        InstallStep::InitCreateEx => 6,
        InstallStep::EnableCreateEx => 7,
        InstallStep::InitCoCreate => 8,
        InstallStep::EnableCoCreate => 9,
        InstallStep::Done => 10,
    }
}

/// Installs the `ddraw.dll` export detours first (to narrow the race with
/// the game's first `DirectDrawCreate`), then the `CoCreateInstance`
/// detour. `directdraw` records that `DirectDrawCreate` is detoured (the
/// `DirectDrawCreateEx` detour is optional), `cocreate` that
/// `CoCreateInstance` is.
#[derive(Clone, Copy, Debug, PartialEq, Eq, Structural)]
pub struct HookInstaller {
    pub step: InstallStep,
    pub directdraw: bool,
    pub cocreate: bool,
}

pub open spec fn spec_advance(h: HookInstaller, ok: bool) -> HookInstaller {
    match h.step {
        InstallStep::LocateDdraw => HookInstaller {
            step: if ok { InstallStep::ResolveCreate } else { InstallStep::LoadDdraw }, ..h },
        InstallStep::LoadDdraw => HookInstaller {
            step: if ok { InstallStep::ResolveCreate } else { InstallStep::InitCoCreate }, ..h },
        InstallStep::ResolveCreate => HookInstaller {
            step: if ok { InstallStep::InitCreate } else { InstallStep::InitCoCreate }, ..h },
        InstallStep::InitCreate => HookInstaller {
            step: if ok { InstallStep::EnableCreate } else { InstallStep::InitCoCreate }, ..h },
        InstallStep::EnableCreate => if ok {
            HookInstaller { step: InstallStep::ResolveCreateEx, directdraw: true, ..h }
        } else {
            HookInstaller { step: InstallStep::InitCoCreate, ..h }
        },
        InstallStep::ResolveCreateEx => HookInstaller {
            step: if ok { InstallStep::InitCreateEx } else { InstallStep::InitCoCreate }, ..h },
        InstallStep::InitCreateEx => HookInstaller {
            step: if ok { InstallStep::EnableCreateEx } else { InstallStep::InitCoCreate }, ..h },
        InstallStep::EnableCreateEx => HookInstaller { step: InstallStep::InitCoCreate, ..h },
        InstallStep::InitCoCreate => HookInstaller {
            step: if ok { InstallStep::EnableCoCreate } else { InstallStep::Done }, ..h },
        InstallStep::EnableCoCreate => if ok {
            HookInstaller { step: InstallStep::Done, cocreate: true, ..h }
        } else {
            HookInstaller { step: InstallStep::Done, ..h }
        },
        InstallStep::Done => h,
    }
}

/// The installation succeeds when either creation path is detoured.
pub open spec fn spec_install_result(h: HookInstaller) -> bool {
    h.cocreate || h.directdraw
}

impl HookInstaller {
    pub fn new() -> (r: HookInstaller)
        ensures r == (HookInstaller { step: InstallStep::LocateDdraw, directdraw: false, cocreate: false }),
    {
        HookInstaller { step: InstallStep::LocateDdraw, directdraw: false, cocreate: false }
    }

    /// The installation has finished.
    pub fn is_done(&self) -> (r: bool)
        ensures r == (self.step == InstallStep::Done),
    {
        match self.step {
            InstallStep::Done => true,
            _ => false,
        }
    }

    /// Moves on after the current step's outside operation succeeded
    /// (`ok`) or failed.
    pub fn advance(&mut self, ok: bool)
        ensures *final(self) == spec_advance(*old(self), ok),
    {
        let next = match self.step {
            InstallStep::LocateDdraw => if ok { InstallStep::ResolveCreate } else { InstallStep::LoadDdraw },
            InstallStep::LoadDdraw => if ok { InstallStep::ResolveCreate } else { InstallStep::InitCoCreate },
            InstallStep::ResolveCreate => if ok { InstallStep::InitCreate } else { InstallStep::InitCoCreate },
            InstallStep::InitCreate => if ok { InstallStep::EnableCreate } else { InstallStep::InitCoCreate },
            InstallStep::EnableCreate => {
                if ok {
                    self.directdraw = true;
                    InstallStep::ResolveCreateEx
                } else {
                    InstallStep::InitCoCreate
                }
            },
            InstallStep::ResolveCreateEx => if ok { InstallStep::InitCreateEx } else { InstallStep::InitCoCreate },
            InstallStep::InitCreateEx => if ok { InstallStep::EnableCreateEx } else { InstallStep::InitCoCreate },
            InstallStep::EnableCreateEx => InstallStep::InitCoCreate,
            InstallStep::InitCoCreate => if ok { InstallStep::EnableCoCreate } else { InstallStep::Done },
            InstallStep::EnableCoCreate => {
                if ok {
                    self.cocreate = true;
                }
                InstallStep::Done
            },
            InstallStep::Done => InstallStep::Done,
        };
        self.step = next;
    }

    /// The overall result: true when either creation path is detoured.
    pub fn result(&self) -> (r: bool)
        ensures r == spec_install_result(*self),
    {
        self.cocreate || self.directdraw
    }
}

/// Every step moves the installation forward, so it finishes within ten
/// steps whatever the outcomes; a finished installation stays finished.
pub proof fn law_install_progresses(h: HookInstaller, ok: bool)
    ensures
        h.step != InstallStep::Done ==> step_rank(spec_advance(h, ok).step) > step_rank(h.step),
        h.step == InstallStep::Done ==> spec_advance(h, ok) == h,
        0 <= step_rank(h.step) <= 10,
{
}

/// A creation path counts as detoured only when its detour was enabled:
/// `directdraw` becomes true only by a successful `EnableCreate` step and
/// `cocreate` only by a successful `EnableCoCreate` step; neither is ever
/// cleared.
pub proof fn law_install_flags_from_enables(h: HookInstaller, ok: bool)
    ensures
        spec_advance(h, ok).directdraw == (h.directdraw || (h.step == InstallStep::EnableCreate && ok)),
        spec_advance(h, ok).cocreate == (h.cocreate || (h.step == InstallStep::EnableCoCreate && ok)),
{
}

/// `YgoFixInitialize` reports the installation result as a Win32 `BOOL`.
pub fn initialize_result(installed: bool) -> (r: Bool)
    ensures r == if installed { TRUE } else { FALSE },
{
    if installed { TRUE } else { FALSE }
}

/// `DllMain` starts the bootstrap thread on process attach only.
pub fn starts_bootstrap(reason: Dword) -> (r: bool)
    ensures r == (reason == DLL_PROCESS_ATTACH),
{
    reason == DLL_PROCESS_ATTACH
}

/// Loading `ddraw.dll` leads on to the `DirectDrawCreate` detour exactly
/// as finding it already loaded does, and once the module is at hand,
/// three successful steps (resolve, initialize, enable) detour
/// `DirectDrawCreate`.
pub proof fn law_loaded_ddraw_is_detoured(h: HookInstaller)
    ensures
        spec_advance(HookInstaller { step: InstallStep::LoadDdraw, ..h }, true)
            == spec_advance(HookInstaller { step: InstallStep::LocateDdraw, ..h }, true),
        ({
            let start = HookInstaller { step: InstallStep::LoadDdraw, ..h };
            let done = spec_advance(spec_advance(spec_advance(spec_advance(start, true), true), true), true);
            &&& done.directdraw
            &&& done.step == InstallStep::ResolveCreateEx
        }),
        ({
            let start = HookInstaller { step: InstallStep::LocateDdraw, ..h };
            let done = spec_advance(spec_advance(spec_advance(spec_advance(start, true), true), true), true);
            &&& done.directdraw
            &&& done.step == InstallStep::ResolveCreateEx
        }),
{
}

/// A failure anywhere in the `ddraw.dll` part never skips the
/// `CoCreateInstance` detour: every failed step before it moves straight to
/// initializing that detour, and neither flag changes.
pub proof fn law_ddraw_failure_falls_back_to_com(h: HookInstaller)
    requires
        h.step != InstallStep::LocateDdraw,
        h.step != InstallStep::InitCoCreate,
        h.step != InstallStep::EnableCoCreate,
        h.step != InstallStep::Done,
    ensures
        spec_advance(h, false).step == InstallStep::InitCoCreate,
        spec_advance(h, false).directdraw == h.directdraw,
        spec_advance(h, false).cocreate == h.cocreate,
{
}

} // verus!
