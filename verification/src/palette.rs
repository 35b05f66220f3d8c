//! State of an `IDirectDrawPalette`: 256 entries, capability flags and a
//! reference count.
use vstd::prelude::*;
use crate::abi::{Dword, Hresult, Guid, PaletteEntry, E_INVALIDARG, guid_eq, iid_iunknown,
    iid_idirectdrawpalette, same_guid, spec_iid_iunknown, spec_iid_idirectdrawpalette};

verus! {

/// Number of entries of a palette.
pub const PALETTE_SIZE: usize = 256;

pub struct Palette {
    pub refs: u32,
    pub flags: Dword,
    pub entries: Vec<PaletteEntry>,
}

pub open spec fn black_entry() -> PaletteEntry {
    PaletteEntry { red: 0, green: 0, blue: 0, flags: 0 }
}

/// `start..start + count` lies within the 256 entries.
pub open spec fn entries_range_ok(start: Dword, count: Dword) -> bool {
    start < 256 && count <= 256 && start + count <= 256
}

/// Whether `start..start + count` lies within the 256 entries.
pub fn entries_in_range(start: Dword, count: Dword) -> (r: bool)
    ensures r == entries_range_ok(start, count),
{
    start < 256 && count <= 256 && start + count <= 256
}

/// Entries after `SetEntries(start, count, e)` on a palette holding `old`.
pub open spec fn spec_set_entries(old: Seq<PaletteEntry>, start: Dword, count: Dword, e: Seq<PaletteEntry>) -> Seq<PaletteEntry> {
    Seq::new(old.len(), |i: int| if start <= i < start + count { e[i - start] } else { old[i] })
}

/// The result of `GetEntries(start, count)` on a palette holding `entries`.
pub open spec fn spec_get_entries(entries: Seq<PaletteEntry>, start: Dword, count: Dword) -> Result<Seq<PaletteEntry>, Hresult> {
    if entries_range_ok(start, count) {
        Ok(entries.subrange(start as int, start + count))
    } else {
        Err(E_INVALIDARG)
    }
}

/// The 256 entries copied from `initial`, or all black without one.
pub open spec fn spec_initial_entries(initial: Option<Seq<PaletteEntry>>) -> Seq<PaletteEntry> {
    match initial {
        Some(e) => e.subrange(0, 256),
        None => Seq::new(256, |i: int| black_entry()),
    }
}

fn first_256(src: &[PaletteEntry]) -> (r: Vec<PaletteEntry>)
    requires src@.len() >= 256,
    ensures r@ == src@.subrange(0, 256),
{
    let mut r: Vec<PaletteEntry> = Vec::new();
    let mut i: usize = 0;
    while i < 256
        invariant
            i <= 256,
            src@.len() >= 256,
            r@ == src@.subrange(0, i as int),
        decreases 256 - i,
    {
        r.push(src[i]);
        assert(r@ =~= src@.subrange(0, i + 1));
        i = i + 1;
    }
    r
}

/// `QueryInterface` accepts `IUnknown` and `IDirectDrawPalette`.
pub fn palette_accepts_interface(riid: Option<&Guid>) -> (r: bool)
    ensures
        r == (riid is Some && (same_guid(*riid.unwrap(), spec_iid_iunknown())
            || same_guid(*riid.unwrap(), spec_iid_idirectdrawpalette()))),
{
    let unknown = iid_iunknown();
    let own = iid_idirectdrawpalette();
    guid_eq(riid, &unknown) || guid_eq(riid, &own)
}

impl Palette {
    pub open spec fn wf(&self) -> bool {
        self.entries@.len() == 256
    }

    /// `CreatePalette`: one reference, the given flags, and the first 256
    /// entries of `initial` (all black without it).
    pub fn create(flags: Dword, initial: Option<&[PaletteEntry]>) -> (r: Palette)
        requires
            initial matches Some(e) ==> e@.len() >= 256,
        ensures
            r.wf(),
            r.refs == 1,
            r.flags == flags,
            r.entries@ == spec_initial_entries(match initial { Some(e) => Some(e@), None => None }),
    {
        let entries = match initial {
            Some(e) => first_256(e),
            None => {
                let mut v: Vec<PaletteEntry> = Vec::new();
                let mut i: usize = 0;
                while i < 256
                    invariant
                        i <= 256,
                        v@ =~= Seq::new(i as nat, |j: int| black_entry()),
                    decreases 256 - i,
                {
                    v.push(PaletteEntry { red: 0, green: 0, blue: 0, flags: 0 });
                    i = i + 1;
                }
                v
            },
        };
        Palette { refs: 1, flags, entries }
    }

    /// `AddRef`.
    pub fn add_ref(&mut self) -> (r: u32)
        requires old(self).refs < u32::MAX,
        ensures
            r == old(self).refs + 1,
            final(self).refs == r,
            final(self).flags == old(self).flags,
            final(self).entries@ == old(self).entries@,
    {
        self.refs = self.refs + 1;
        self.refs
    }

    /// `Release`; the caller destroys the palette when 0 is returned.
    pub fn release(&mut self) -> (r: u32)
        requires old(self).refs > 0,
        ensures
            r == old(self).refs - 1,
            final(self).refs == r,
            final(self).flags == old(self).flags,
            final(self).entries@ == old(self).entries@,
    {
        self.refs = self.refs - 1;
        self.refs
    }

    /// `GetCaps`.
    pub fn get_caps(&self) -> (r: Dword)
        ensures r == self.flags,
    {
        self.flags
    }

    /// `GetEntries(start, count)`: the requested entries, or `E_INVALIDARG`
    /// when the range leaves the palette.
    pub fn get_entries(&self, start: Dword, count: Dword) -> (r: Result<Vec<PaletteEntry>, Hresult>)
        requires self.wf(),
        ensures
            match r {
                Ok(v) => spec_get_entries(self.entries@, start, count) == Ok::<Seq<PaletteEntry>, Hresult>(v@),
                Err(e) => spec_get_entries(self.entries@, start, count) == Err::<Seq<PaletteEntry>, Hresult>(e),
            },
    {
        if !entries_in_range(start, count) {
            return Err(E_INVALIDARG);
        }
        let s = start as usize;
        let n = count as usize;
        let mut v: Vec<PaletteEntry> = Vec::new();
        let mut i: usize = 0;
        while i < n
            invariant
                self.wf(),
                s + n <= 256,
                i <= n,
                v@ == self.entries@.subrange(s as int, s + i),
            decreases n - i,
        {
            v.push(self.entries[s + i]);
            assert(v@ =~= self.entries@.subrange(s as int, s + i + 1));
            i = i + 1;
        }
        Ok(v)
    }

    /// `Initialize`: new flags and, when given, the first 256 entries of
    /// `entries`.
    pub fn initialize(&mut self, flags: Dword, entries: Option<&[PaletteEntry]>)
        requires
            old(self).wf(),
            entries matches Some(e) ==> e@.len() >= 256,
        ensures
            final(self).wf(),
            final(self).refs == old(self).refs,
            final(self).flags == flags,
            final(self).entries@ == match entries { Some(e) => e@.subrange(0, 256), None => old(self).entries@ },
    {
        self.flags = flags;
        if let Some(e) = entries {
            self.entries = first_256(e);
        }
    }

    /// `SetEntries(start, count, entries)`: overwrites the range with the
    /// first `count` given entries, or fails with `E_INVALIDARG` (changing
    /// nothing) when the range leaves the palette.
    pub fn set_entries(&mut self, start: Dword, count: Dword, entries: &[PaletteEntry]) -> (r: Result<(), Hresult>)
        requires
            old(self).wf(),
            entries_range_ok(start, count) ==> entries@.len() >= count,
        ensures
            final(self).wf(),
            final(self).refs == old(self).refs,
            final(self).flags == old(self).flags,
            entries_range_ok(start, count) ==> r is Ok
                && final(self).entries@ == spec_set_entries(old(self).entries@, start, count, entries@),
            !entries_range_ok(start, count) ==> r == Err::<(), Hresult>(E_INVALIDARG)
                && final(self).entries@ == old(self).entries@,
    {
        if !entries_in_range(start, count) {
            return Err(E_INVALIDARG);
        }
        let ghost old_entries = self.entries@;
        let ghost old_refs = self.refs;
        let ghost old_flags = self.flags;
        let s = start as usize;
        let n = count as usize;
        let mut i: usize = 0;
        while i < n
            invariant
                s + n <= 256,
                entries@.len() >= n,
                i <= n,
                old_entries.len() == 256,
                self.entries@.len() == 256,
                self.refs == old_refs,
                self.flags == old_flags,
                forall|j: int| 0 <= j < 256 ==> #[trigger] self.entries@[j]
                    == if s <= j < s + i { entries@[j - s] } else { old_entries[j] },
            decreases n - i,
        {
            self.entries.set(s + i, entries[i]);
            i = i + 1;
        }
        assert(self.entries@ =~= spec_set_entries(old_entries, start, count, entries@));
        Ok(())
    }

    /// A copy of the 256 entries.
    pub fn snapshot(&self) -> (r: Vec<PaletteEntry>)
        requires self.wf(),
        ensures r@ == self.entries@,
    {
        self.entries.clone()
    }
}

/// Reading back a range just written gives what was written, and entries
/// outside the range keep their values.
pub proof fn law_palette_read_after_write(old: Seq<PaletteEntry>, start: Dword, count: Dword, e: Seq<PaletteEntry>)
    requires
        old.len() == 256,
        entries_range_ok(start, count),
        e.len() >= count,
    ensures
        spec_get_entries(spec_set_entries(old, start, count, e), start, count)
            == Ok::<Seq<PaletteEntry>, Hresult>(e.subrange(0, count as int)),
        forall|i: int| 0 <= i < 256 && !(start <= i < start + count)
            ==> #[trigger] spec_set_entries(old, start, count, e)[i] == old[i],
{
    let n = spec_set_entries(old, start, count, e);
    assert(n.subrange(start as int, start + count) =~= e.subrange(0, count as int));
}

/// A range that leaves the palette is refused by both `SetEntries` and
/// `GetEntries`.
pub proof fn law_palette_range_checked(entries: Seq<PaletteEntry>, start: Dword, count: Dword)
    requires !entries_range_ok(start, count),
    ensures spec_get_entries(entries, start, count) == Err::<Seq<PaletteEntry>, Hresult>(E_INVALIDARG),
{
}

} // verus!
